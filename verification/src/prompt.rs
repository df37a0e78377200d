//! The line-editable text input used for queries such as "Save as:".
//!
//! The blocking loop around it (redraw, read one key) stays with the
//! caller; this type holds the accumulating value and says exactly what one
//! keystroke does to it.

use vstd::prelude::*;

use crate::grapheme::graphemes_of;
use crate::row::row_delete;
use crate::row::Row;
use crate::terminal::Key;

verus! {

/// Where a prompt stands after a keystroke.
#[derive(PartialEq, Eq, Structural)]
pub enum PromptStatus {
    /// The user escaped; the value is discarded.
    Aborted,
    /// Still collecting keystrokes.
    InProgress,
    /// The user pressed enter; the value is the answer.
    Committed,
}

/// Whether a character belongs to the Unicode `Cc` (control) category,
/// which a prompt refuses to append.
pub open spec fn spec_is_control(c: char) -> bool {
    (c as u32) < 0x20 || (0x7f <= (c as u32) && (c as u32) <= 0x9f)
}

/// The prompt's status after one keystroke: enter commits, escape aborts,
/// anything else keeps it collecting.
pub open spec fn prompt_status(key: Key) -> PromptStatus {
    match key {
        Key::Char(c) => if c == '\n' {
            PromptStatus::Committed
        } else {
            PromptStatus::InProgress
        },
        Key::Esc => PromptStatus::Aborted,
        _ => PromptStatus::InProgress,
    }
}

/// The prompt's value after one keystroke: a printable character is
/// appended, backspace drops the last grapheme cluster, escape clears the
/// value, everything else leaves it alone.
pub open spec fn prompt_step(value: Seq<char>, key: Key) -> Seq<char> {
    match key {
        Key::Char(c) => if c == '\n' || spec_is_control(c) {
            value
        } else {
            value.push(c)
        },
        Key::Esc => Seq::empty(),
        Key::Backspace => if graphemes_of(value).len() == 0 {
            value
        } else {
            row_delete(value, graphemes_of(value).len() - 1)
        },
        _ => value,
    }
}

/// The accumulating answer of one query.
pub struct Prompt {
    value: Row,
}

impl View for Prompt {
    type V = Seq<char>;

    closed spec fn view(&self) -> Seq<char> {
        self.value@
    }
}

impl Default for Prompt {
    /// A prompt with an empty value.
    fn default() -> (r: Prompt)
        ensures
            r@ == Seq::<char>::empty(),
    {
        Prompt { value: Row::new() }
    }
}

fn is_control(c: char) -> (r: bool)
    ensures
        r == spec_is_control(c),
{
    (c as u32) < 0x20 || (0x7f <= c as u32 && c as u32 <= 0x9f)
}

impl Prompt {
    /// Feeds one keystroke to the prompt. The returned value is the
    /// answer so far, or nothing once the prompt was aborted; the caller
    /// keeps calling while the status is `InProgress`.
    pub fn prompt(&mut self, key: Key) -> (r: (PromptStatus, Option<String>))
        ensures
            final(self)@ == prompt_step(old(self)@, key),
            r.0 == prompt_status(key),
            match r.1 {
                Some(s) => r.0 != PromptStatus::Aborted && s@ == final(self)@,
                None => r.0 == PromptStatus::Aborted,
            },
    {
        let status: PromptStatus = match key {
            Key::Char(c) => {
                if c == '\n' {
                    PromptStatus::Committed
                } else {
                    if !is_control(c) {
                        let at = self.value.len();
                        self.value.insert(at, c);
                    }
                    PromptStatus::InProgress
                }
            },
            Key::Esc => {
                self.value = Row::new();
                PromptStatus::Aborted
            },
            Key::Backspace => {
                let len = self.value.len();
                if len > 0 {
                    self.value.delete(len - 1);
                }
                PromptStatus::InProgress
            },
            _ => PromptStatus::InProgress,
        };

        let value = if matches!(status, PromptStatus::Aborted) {
            None
        } else {
            Some(self.value.to_string())
        };

        (status, value)
    }
}

} // verus!
