//! The editor: one keypress in, one state change and at most one request
//! for outside work out.
//!
//! The editor owns the document, the cursor, the viewport offset, the
//! transient status message and the quit-confirmation counter. Its whole
//! behaviour per keystroke is the mathematical step `spec_process_key`;
//! the executable `process_keypress` is proved to take exactly that step.
//! Reading keys, painting the screen and touching the file system are the
//! caller's loop; saving is requested through an `EditorAction` and
//! finished through the `save_*` methods once the caller knows the
//! outcome.

use vstd::prelude::*;
use vstd::string::StringExecFns;

use crate::document::doc_delete;
use crate::document::doc_insert;
use crate::document::Document;
use crate::grapheme::graphemes_of;
use crate::lines::join_lines;
use crate::position::Position;
use crate::status_message::StatusMessage;
use crate::terminal::Key;
use crate::terminal::Size;
use crate::utils::decimal_string;
use crate::utils::spec_decimal;

verus! {

/// How many times a quit must be confirmed while the buffer is dirty.
pub const QUIT_TIMES: u8 = 3;

/// What the caller's loop is asked to do after a keypress.
#[derive(Clone, Copy, PartialEq, Eq, Structural, Debug)]
pub enum EditorAction {
    /// Nothing beyond redrawing: keep reading keys.
    Continue,
    /// Run the save flow (prompting for a name first if none is set).
    Save,
}

/// The editor's entire state as mathematical values: the document's rows,
/// file identity and dirty flag, both coordinate pairs, the status
/// message, the quit counter, the quit flag, and the terminal size.
#[verifier::ext_equal]
pub struct EditorView {
    pub rows: Seq<Seq<char>>,
    pub file_name: Option<Seq<char>>,
    pub dirty: bool,
    pub cursor: Position,
    pub offset: Position,
    pub message: Seq<char>,
    pub message_time: u64,
    pub quit_times: u8,
    pub should_quit: bool,
    pub width: u16,
    pub height: u16,
}

/// The grapheme length of row `y`, and zero beyond the last row.
pub open spec fn row_len_at(rows: Seq<Seq<char>>, y: int) -> nat {
    if 0 <= y < rows.len() {
        graphemes_of(rows[y]).len()
    } else {
        0
    }
}

/// One cursor move: the per-direction rule, followed by the clamp that
/// keeps the column within the row the cursor now stands on.
pub open spec fn spec_move_cursor(rows: Seq<Seq<char>>, p: Position, key: Key) -> Position {
    let height = rows.len();
    let width = row_len_at(rows, p.y as int);
    let moved = match key {
        Key::Up => Position { x: p.x, y: p.y.saturating_sub(1) },
        Key::Down => if (p.y as nat) < height {
            Position { x: p.x, y: p.y.saturating_add(1) }
        } else {
            p
        },
        Key::Left => if p.x > 0 {
            Position { x: p.x.saturating_sub(1), y: p.y }
        } else if p.y > 0 {
            Position { x: row_len_at(rows, p.y - 1) as usize, y: (p.y - 1) as usize }
        } else {
            p
        },
        Key::Right => if (p.x as nat) < width {
            Position { x: (p.x + 1) as usize, y: p.y }
        } else if (p.y as nat) < height {
            Position { x: 0, y: (p.y + 1) as usize }
        } else {
            p
        },
        Key::PageUp => Position { x: p.x, y: 0 },
        Key::PageDown => Position { x: p.x, y: height as usize },
        Key::Home => Position { x: 0, y: p.y },
        Key::End => Position { x: width as usize, y: p.y },
        _ => p,
    };
    clamp_x(rows, moved)
}

/// The cursor with its column cut back to the length of its row.
pub open spec fn clamp_x(rows: Seq<Seq<char>>, p: Position) -> Position {
    let w = row_len_at(rows, p.y as int);
    if (p.x as nat) > w {
        Position { x: w as usize, y: p.y }
    } else {
        p
    }
}

/// One axis of the scroll rule: the offset snaps up to the cursor when the
/// cursor is before it, forward just far enough when the cursor has left
/// the window, and stays put otherwise.
pub open spec fn spec_scroll_axis(c: usize, off: usize, dim: usize) -> usize {
    if c < off {
        c
    } else if c >= off.saturating_add(dim) {
        c.saturating_sub(dim).saturating_add(1)
    } else {
        off
    }
}

/// The viewport offset after a cursor move, on both axes.
pub open spec fn spec_scroll(cursor: Position, offset: Position, size: Size) -> Position {
    Position {
        x: spec_scroll_axis(cursor.x, offset.x, size.width as usize),
        y: spec_scroll_axis(cursor.y, offset.y, size.height as usize),
    }
}

/// The warning shown while a quit awaits confirmation.
pub open spec fn quit_warning(quit_times: nat) -> Seq<char> {
    "WARNING! File has unsaved changes. Press Ctrl-Q "@ + spec_decimal(quit_times)
        + " more times to quit."@
}

/// The quit key: a clean buffer quits at once; a dirty one spends one
/// confirmation, quitting when the counter runs out and warning otherwise.
pub open spec fn spec_quit_key(v: EditorView, now: u64) -> EditorView {
    if !v.dirty {
        EditorView { should_quit: true, ..v }
    } else if v.quit_times > 0 {
        let qt = (v.quit_times - 1) as u8;
        if qt == 0 {
            EditorView { quit_times: qt, should_quit: true, ..v }
        } else {
            EditorView {
                quit_times: qt,
                message: quit_warning(qt as nat),
                message_time: now,
                ..v
            }
        }
    } else {
        EditorView { should_quit: true, ..v }
    }
}

/// The buffer-changing and cursor-moving keys. A printable character is
/// inserted and the cursor steps right; delete removes at the cursor;
/// backspace steps left and removes there; the navigation keys move the
/// cursor. After an edit the column is clamped to the row it stands on.
pub open spec fn spec_edit(v: EditorView, key: Key) -> EditorView {
    match key {
        Key::Char(c) => {
            let rows1 = doc_insert(v.rows, v.cursor.x as int, v.cursor.y as int, c);
            let dirty1 = v.dirty || v.cursor.y <= v.rows.len();
            let cursor1 = spec_move_cursor(rows1, v.cursor, Key::Right);
            EditorView { rows: rows1, dirty: dirty1, cursor: cursor1, ..v }
        },
        Key::Delete => {
            let rows1 = doc_delete(v.rows, v.cursor.x as int, v.cursor.y as int);
            let dirty1 = v.dirty || v.cursor.y < v.rows.len();
            EditorView { rows: rows1, dirty: dirty1, cursor: clamp_x(rows1, v.cursor), ..v }
        },
        Key::Backspace => {
            if v.cursor.x > 0 || v.cursor.y > 0 {
                let cursor1 = spec_move_cursor(v.rows, v.cursor, Key::Left);
                let rows1 = doc_delete(v.rows, cursor1.x as int, cursor1.y as int);
                let dirty1 = v.dirty || cursor1.y < v.rows.len();
                EditorView {
                    rows: rows1,
                    dirty: dirty1,
                    cursor: clamp_x(rows1, cursor1),
                    ..v
                }
            } else {
                v
            }
        },
        Key::Up | Key::Down | Key::Left | Key::Right | Key::PageUp | Key::PageDown
            | Key::Home | Key::End => EditorView {
            cursor: spec_move_cursor(v.rows, v.cursor, key),
            ..v
        },
        _ => v,
    }
}

/// The bookkeeping after every non-quit key: the offset is recomputed so
/// the cursor stays in view, and a pending quit confirmation is disarmed
/// (counter back to its maximum, warning cleared).
pub open spec fn spec_after_dispatch(v: EditorView, now: u64) -> EditorView {
    let v1 = EditorView {
        offset: spec_scroll(v.cursor, v.offset, Size { width: v.width, height: v.height }),
        ..v
    };
    if v1.quit_times < QUIT_TIMES {
        EditorView { quit_times: QUIT_TIMES, message: Seq::empty(), message_time: now, ..v1 }
    } else {
        v1
    }
}

/// The whole keypress table: the quit key runs the confirmation protocol
/// and nothing else; every other key dispatches its edit or move and then
/// the after-dispatch bookkeeping.
pub open spec fn spec_process_key(v: EditorView, key: Key, now: u64) -> EditorView {
    match key {
        Key::Ctrl(c) => if c == 'q' {
            spec_quit_key(v, now)
        } else {
            spec_after_dispatch(v, now)
        },
        _ => spec_after_dispatch(spec_edit(v, key), now),
    }
}

/// Which outside work a key asks for: only the save key asks for any.
pub open spec fn spec_key_action(key: Key) -> EditorAction {
    match key {
        Key::Ctrl(c) => if c == 's' {
            EditorAction::Save
        } else {
            EditorAction::Continue
        },
        _ => EditorAction::Continue,
    }
}

/// The cursor stays within the document: on a row that exists or on the
/// one place just past the last row, and never beyond its row's length.
pub open spec fn view_wf(v: EditorView) -> bool {
    &&& v.rows.len() <= usize::MAX
    &&& v.cursor.y <= v.rows.len()
    &&& v.cursor.x <= row_len_at(v.rows, v.cursor.y as int)
}

/// The editor state: the document, the cursor and viewport offset, the
/// transient message, the quit protocol state, and the terminal size the
/// caller measured at startup.
pub struct Editor {
    should_quit: bool,
    terminal_size: Size,
    cursor_position: Position,
    document: Document,
    offset: Position,
    status_message: StatusMessage,
    quit_times: u8,
}

impl View for Editor {
    type V = EditorView;

    closed spec fn view(&self) -> EditorView {
        EditorView {
            rows: self.document.contents(),
            file_name: self.document.spec_file_name(),
            dirty: self.document.spec_dirty(),
            cursor: self.cursor_position,
            offset: self.offset,
            message: self.status_message.text@,
            message_time: self.status_message.time,
            quit_times: self.quit_times,
            should_quit: self.should_quit,
            width: self.terminal_size.width,
            height: self.terminal_size.height,
        }
    }
}

impl Editor {
    /// The cursor-clamp invariant, kept by every method here.
    pub open spec fn wf(&self) -> bool {
        view_wf(self@)
    }

    /// An editor over the given document, terminal size and greeting
    /// message, with the cursor and offset at the origin.
    pub fn new(document: Document, terminal_size: Size, status_message: StatusMessage) -> (e:
        Editor)
        ensures
            e@ == (EditorView {
                rows: document.contents(),
                file_name: document.spec_file_name(),
                dirty: document.spec_dirty(),
                cursor: Position { x: 0, y: 0 },
                offset: Position { x: 0, y: 0 },
                message: status_message.text@,
                message_time: status_message.time,
                quit_times: QUIT_TIMES,
                should_quit: false,
                width: terminal_size.width,
                height: terminal_size.height,
            }),
            e.wf(),
    {
        let e = Editor {
            should_quit: false,
            terminal_size,
            cursor_position: Position { x: 0, y: 0 },
            document,
            offset: Position { x: 0, y: 0 },
            status_message,
            quit_times: QUIT_TIMES,
        };
        proof {
            e.document.lemma_contents_len();
        }
        e
    }

    /// The grapheme length of row `y`, and zero past the last row.
    fn row_len(&self, y: usize) -> (r: usize)
        ensures
            r == row_len_at(self@.rows, y as int),
    {
        match self.document.row(y) {
            Some(row) => row.len(),
            None => 0,
        }
    }

    /// Moves the cursor one step for `key` as the dispatch table says,
    /// clamping the column to the row the cursor lands on.
    pub fn move_cursor(&mut self, key: Key)
        ensures
            final(self)@ == (EditorView {
                cursor: spec_move_cursor(old(self)@.rows, old(self)@.cursor, key),
                ..old(self)@
            }),
            final(self)@.cursor.x <= row_len_at(
                final(self)@.rows,
                final(self)@.cursor.y as int,
            ),
            old(self)@.cursor.y <= old(self)@.rows.len() ==> final(self)@.cursor.y
                <= final(self)@.rows.len(),
    {
        let height = self.document.len();
        let x0 = self.cursor_position.x;
        let y0 = self.cursor_position.y;
        let width = self.row_len(y0);
        let moved: Position = match key {
            Key::Up => self.cursor_position.up(),
            Key::Down => {
                if y0 < height {
                    self.cursor_position.down()
                } else {
                    self.cursor_position
                }
            },
            Key::Left => {
                if x0 > 0 {
                    self.cursor_position.left()
                } else if y0 > 0 {
                    Position { x: self.row_len(y0 - 1), y: y0 - 1 }
                } else {
                    self.cursor_position
                }
            },
            Key::Right => {
                if x0 < width {
                    Position { x: x0 + 1, y: y0 }
                } else if y0 < height {
                    Position { x: 0, y: y0 + 1 }
                } else {
                    self.cursor_position
                }
            },
            Key::PageUp => Position { x: x0, y: 0 },
            Key::PageDown => Position { x: x0, y: height },
            Key::Home => Position { x: 0, y: y0 },
            Key::End => Position { x: width, y: y0 },
            _ => self.cursor_position,
        };
        let w2 = self.row_len(moved.y);
        let clamped = if moved.x > w2 {
            Position { x: w2, y: moved.y }
        } else {
            moved
        };
        self.cursor_position = clamped;
        proof {
            assert(self@ =~= (EditorView {
                cursor: spec_move_cursor(old(self)@.rows, old(self)@.cursor, key),
                ..old(self)@
            }));
        }
    }

    /// Cuts the cursor column back to the length of its row.
    fn clamp_cursor(&mut self)
        ensures
            final(self)@ == (EditorView {
                cursor: clamp_x(old(self)@.rows, old(self)@.cursor),
                ..old(self)@
            }),
            final(self)@.cursor.x <= row_len_at(
                final(self)@.rows,
                final(self)@.cursor.y as int,
            ),
            final(self)@.cursor.y == old(self)@.cursor.y,
    {
        let w = self.row_len(self.cursor_position.y);
        if self.cursor_position.x > w {
            self.cursor_position.x = w;
        }
        proof {
            assert(self@ =~= (EditorView {
                cursor: clamp_x(old(self)@.rows, old(self)@.cursor),
                ..old(self)@
            }));
        }
    }

    /// Recomputes the viewport offset so the cursor is back in view,
    /// moving it no further than necessary.
    pub fn scroll(&mut self)
        ensures
            final(self)@ == (EditorView {
                offset: spec_scroll(
                    old(self)@.cursor,
                    old(self)@.offset,
                    Size { width: old(self)@.width, height: old(self)@.height },
                ),
                ..old(self)@
            }),
    {
        let x = self.cursor_position.x;
        let y = self.cursor_position.y;
        let width = self.terminal_size.width as usize;
        let height = self.terminal_size.height as usize;
        let mut off = self.offset;
        if y < off.y {
            off.y = y;
        } else if y >= off.y.saturating_add(height) {
            off.y = y.saturating_sub(height).saturating_add(1);
        }
        if x < off.x {
            off.x = x;
        } else if x >= off.x.saturating_add(width) {
            off.x = x.saturating_sub(width).saturating_add(1);
        }
        self.offset = off;
        proof {
            assert(self@ =~= (EditorView {
                offset: spec_scroll(
                    old(self)@.cursor,
                    old(self)@.offset,
                    Size { width: old(self)@.width, height: old(self)@.height },
                ),
                ..old(self)@
            }));
        }
    }

    /// Dispatches one keypress: exactly the step `spec_process_key`
    /// describes, answering with the outside work the key asks for.
    #[verifier::rlimit(60)]
    pub fn process_keypress(&mut self, key: Key, now: u64) -> (a: EditorAction)
        requires
            old(self).wf(),
        ensures
            final(self)@ == spec_process_key(old(self)@, key, now),
            a == spec_key_action(key),
            final(self).wf(),
    {
        let quit_key = match key {
            Key::Ctrl(c) => c == 'q',
            _ => false,
        };
        if quit_key {
            if !self.document.is_dirty() {
                self.should_quit = true;
                proof {
                    assert(self@ =~= spec_process_key(old(self)@, key, now));
                }
                return EditorAction::Continue;
            }
            if self.quit_times > 0 {
                self.quit_times = self.quit_times - 1;
                if self.quit_times == 0 {
                    self.should_quit = true;
                } else {
                    let mut msg = "WARNING! File has unsaved changes. Press Ctrl-Q ".to_owned();
                    msg.append(decimal_string(self.quit_times as usize).as_str());
                    msg.append(" more times to quit.");
                    self.status_message.set_status(msg.as_str(), now);
                }
                proof {
                    assert(self@ =~= spec_process_key(old(self)@, key, now));
                }
                return EditorAction::Continue;
            }
            self.should_quit = true;
            proof {
                assert(self@ =~= spec_process_key(old(self)@, key, now));
            }
            return EditorAction::Continue;
        }
        match key {
            Key::Char(c) => {
                let at = self.cursor_position;
                self.document.insert(&at, c);
                self.move_cursor(Key::Right);
            },
            Key::Delete => {
                let at = self.cursor_position;
                self.document.delete(&at);
                self.clamp_cursor();
            },
            Key::Backspace => {
                if self.cursor_position.x > 0 || self.cursor_position.y > 0 {
                    self.move_cursor(Key::Left);
                    let at = self.cursor_position;
                    self.document.delete(&at);
                    self.clamp_cursor();
                }
            },
            Key::Up | Key::Down | Key::Left | Key::Right | Key::PageUp | Key::PageDown
                | Key::Home | Key::End => self.move_cursor(key),
            _ => {},
        }
        proof {
            assert(self@ =~= (match key {
                Key::Ctrl(c) => old(self)@,
                _ => spec_edit(old(self)@, key),
            }));
        }
        let ghost dispatched = self@;
        self.scroll();
        if self.quit_times < QUIT_TIMES {
            self.quit_times = QUIT_TIMES;
            self.status_message.set_status("", now);
        }
        proof {
            self.document.lemma_contents_len();
            reveal_strlit("");
            assert(""@ =~= Seq::<char>::empty());
            assert(self@ =~= spec_after_dispatch(dispatched, now));
            assert(self@ =~= spec_process_key(old(self)@, key, now));
        }
        match key {
            Key::Ctrl(c) => {
                if c == 's' {
                    EditorAction::Save
                } else {
                    EditorAction::Continue
                }
            },
            _ => EditorAction::Continue,
        }
    }

    /// Whether the save flow must first ask the user for a file name.
    pub fn save_needs_name(&self) -> (r: bool)
        ensures
            r == (self@.file_name is None),
    {
        !self.document.has_file_name()
    }

    /// Records that the user refused to name the buffer: the buffer stays
    /// dirty and unsaved, and the message bar says so.
    pub fn save_aborted(&mut self, now: u64)
        requires
            old(self).wf(),
        ensures
            final(self)@ == (EditorView {
                message: "Save aborted."@,
                message_time: now,
                ..old(self)@
            }),
            final(self).wf(),
    {
        self.status_message.set_status("Save aborted.", now);
        proof {
            assert(self@ =~= (EditorView {
                message: "Save aborted."@,
                message_time: now,
                ..old(self)@
            }));
        }
    }

    /// Adopts the file name the user answered the prompt with.
    pub fn set_file_name(&mut self, name: String)
        requires
            old(self).wf(),
        ensures
            final(self)@ == (EditorView { file_name: Some(name@), ..old(self)@ }),
            final(self).wf(),
    {
        self.document.set_file_name(name);
        proof {
            assert(self@ =~= (EditorView { file_name: Some(name@), ..old(self)@ }));
        }
    }

    /// The text a save writes out: the rows joined by line breaks.
    pub fn save_content(&self) -> (r: String)
        ensures
            r@ == join_lines(self@.rows),
    {
        self.document.serialize()
    }

    /// Records the outcome of writing the buffer out: success cleans the
    /// buffer, failure leaves it dirty; the message bar reports either.
    pub fn save_finished(&mut self, ok: bool, now: u64)
        requires
            old(self).wf(),
        ensures
            final(self)@ == (if ok {
                EditorView {
                    dirty: false,
                    message: "File saved successfully."@,
                    message_time: now,
                    ..old(self)@
                }
            } else {
                EditorView {
                    message: "Error writing file!"@,
                    message_time: now,
                    ..old(self)@
                }
            }),
            final(self).wf(),
    {
        if ok {
            self.document.mark_saved();
            self.status_message.set_status("File saved successfully.", now);
            proof {
                assert(self@ =~= (EditorView {
                    dirty: false,
                    message: "File saved successfully."@,
                    message_time: now,
                    ..old(self)@
                }));
            }
        } else {
            self.status_message.set_status("Error writing file!", now);
            proof {
                assert(self@ =~= (EditorView {
                    message: "Error writing file!"@,
                    message_time: now,
                    ..old(self)@
                }));
            }
        }
    }

    /// Whether a confirmed quit has been reached.
    pub fn should_quit(&self) -> (r: bool)
        ensures
            r == self@.should_quit,
    {
        self.should_quit
    }

    /// The cursor position.
    pub fn cursor(&self) -> (r: Position)
        ensures
            r == self@.cursor,
    {
        self.cursor_position
    }

    /// The viewport offset.
    pub fn scroll_offset(&self) -> (r: Position)
        ensures
            r == self@.offset,
    {
        self.offset
    }

    /// The terminal size the editor was given.
    pub fn size(&self) -> (r: Size)
        ensures
            r.width == self@.width,
            r.height == self@.height,
    {
        self.terminal_size
    }

    /// The document being edited.
    pub fn document(&self) -> (r: &Document)
        ensures
            r.contents() == self@.rows,
            r.spec_file_name() == self@.file_name,
            r.spec_dirty() == self@.dirty,
    {
        &self.document
    }

    /// The current status message.
    pub fn message(&self) -> (r: &StatusMessage)
        ensures
            r.text@ == self@.message,
            r.time == self@.message_time,
    {
        &self.status_message
    }
}

/// After a scroll on a terminal with room on both axes, the cursor lies
/// within the window that starts at the offset.
pub proof fn lemma_scroll_contains(cursor: Position, offset: Position, size: Size)
    requires
        size.width > 0,
        size.height > 0,
    ensures
        ({
            let o = spec_scroll(cursor, offset, size);
            &&& o.x <= cursor.x < o.x + size.width as usize
            &&& o.y <= cursor.y < o.y + size.height as usize
        }),
{
}

/// A scroll never moves an offset whose window already holds the cursor.
pub proof fn lemma_scroll_already_contained(cursor: Position, offset: Position, size: Size)
    requires
        offset.x <= cursor.x < offset.x.saturating_add(size.width as usize),
        offset.y <= cursor.y < offset.y.saturating_add(size.height as usize),
    ensures
        spec_scroll(cursor, offset, size) == offset,
{
}

/// After any key but the quit key, the viewport holds the cursor, as long
/// as the terminal has room on both axes.
pub proof fn lemma_keypress_keeps_cursor_in_view(v: EditorView, key: Key, now: u64)
    requires
        v.width > 0,
        v.height > 0,
        key != Key::Ctrl('q'),
    ensures
        ({
            let v1 = spec_process_key(v, key, now);
            &&& v1.offset.x <= v1.cursor.x < v1.offset.x + v.width as usize
            &&& v1.offset.y <= v1.cursor.y < v1.offset.y + v.height as usize
        }),
{
    let dispatched = match key {
        Key::Ctrl(c) => v,
        _ => spec_edit(v, key),
    };
    lemma_scroll_contains(
        dispatched.cursor,
        dispatched.offset,
        Size { width: v.width, height: v.height },
    );
}

/// On a dirty buffer with a fresh confirmation counter, pressing the quit
/// key three times quits: the first two presses only warn and count down.
pub proof fn lemma_quit_confirmation(v: EditorView, t1: u64, t2: u64, t3: u64)
    requires
        v.dirty,
        v.quit_times == QUIT_TIMES,
        !v.should_quit,
    ensures
        ({
            let v1 = spec_process_key(v, Key::Ctrl('q'), t1);
            let v2 = spec_process_key(v1, Key::Ctrl('q'), t2);
            let v3 = spec_process_key(v2, Key::Ctrl('q'), t3);
            &&& !v1.should_quit
            &&& v1.quit_times == 2
            &&& v1.message == quit_warning(2)
            &&& !v2.should_quit
            &&& v2.quit_times == 1
            &&& v2.message == quit_warning(1)
            &&& v3.should_quit
        }),
{
}

/// Any key but the quit key disarms a pending quit confirmation: the
/// counter returns to its maximum and the warning message is cleared.
pub proof fn lemma_quit_reset(v: EditorView, key: Key, now: u64)
    requires
        v.quit_times < QUIT_TIMES,
        key != Key::Ctrl('q'),
    ensures
        spec_process_key(v, key, now).quit_times == QUIT_TIMES,
        spec_process_key(v, key, now).message == Seq::<char>::empty(),
{
}

} // verus!
