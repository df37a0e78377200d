//! An ordered sequence of rows with a file identity and a dirty flag.

use vstd::prelude::*;

use crate::grapheme::graphemes_of;
use crate::grapheme::str_to_chars;
use crate::lines::join_lines;
use crate::lines::lines_of;
use crate::lines::split_nl;
use crate::position::Position;
use crate::row::row_delete;
use crate::row::row_insert;
use crate::row::row_prefix;
use crate::row::row_suffix;
use crate::row::Row;

verus! {

/// The in-memory text buffer: the rows in line order, the name of the file
/// they came from (absent for an untitled buffer), and whether they have
/// been mutated since the last load or successful save.
pub struct Document {
    rows: Vec<Row>,
    pub file_name: Option<String>,
    dirty: bool,
}

/// The texts of a sequence of rows.
pub open spec fn rows_view(rows: Seq<Row>) -> Seq<Seq<char>> {
    Seq::new(rows.len(), |i: int| rows[i]@)
}

/// The rows after inserting a line break at column `x` of row `y`: row `y`
/// keeps its first `x` grapheme clusters and the rest opens a new row below.
/// On the cursor row past the last line an empty row is appended; further
/// out, nothing changes.
pub open spec fn doc_insert_newline(rows: Seq<Seq<char>>, x: int, y: int) -> Seq<Seq<char>> {
    if y > rows.len() {
        rows
    } else if y == rows.len() {
        rows.push(Seq::empty())
    } else {
        rows.update(y, row_prefix(rows[y], x)).insert(y + 1, row_suffix(rows[y], x))
    }
}

/// The rows after inserting character `c` at column `x` of row `y`. A line
/// break splits the row; on the row past the last line a new row is opened;
/// any other character lands inside row `y`. Beyond that, nothing changes.
pub open spec fn doc_insert(rows: Seq<Seq<char>>, x: int, y: int, c: char) -> Seq<Seq<char>> {
    if c == '\n' {
        doc_insert_newline(rows, x, y)
    } else if y > rows.len() {
        rows
    } else if y == rows.len() {
        rows.push(row_insert(Seq::empty(), 0, c))
    } else {
        rows.update(y, row_insert(rows[y], x, c))
    }
}

/// The rows after deleting at column `x` of row `y`: at the end of a row
/// that has a successor, the successor is joined onto it; otherwise the
/// grapheme cluster at `x` is removed. Past the last row nothing changes.
pub open spec fn doc_delete(rows: Seq<Seq<char>>, x: int, y: int) -> Seq<Seq<char>> {
    if y >= rows.len() {
        rows
    } else if x == graphemes_of(rows[y]).len() && y + 1 < rows.len() {
        rows.update(y, rows[y] + rows[y + 1]).remove(y + 1)
    } else {
        rows.update(y, row_delete(rows[y], x))
    }
}

impl Document {
    /// The texts of the document's rows, in order.
    pub closed spec fn contents(&self) -> Seq<Seq<char>> {
        rows_view(self.rows@)
    }

    /// Whether the buffer holds unsaved mutations.
    pub closed spec fn spec_dirty(&self) -> bool {
        self.dirty
    }

    /// The file identity, as text.
    pub closed spec fn spec_file_name(&self) -> Option<Seq<char>> {
        match self.file_name {
            Some(ref n) => Some(n@),
            None => None,
        }
    }

    /// A document never holds more rows than an index can address.
    pub proof fn lemma_contents_len(&self)
        ensures
            self.contents().len() <= usize::MAX,
    {
        assert(self.rows.len() == self.rows@.len());
    }

    /// A document loaded from file content: the content's lines become the
    /// rows, the given path becomes the file identity, and the buffer
    /// starts clean.
    pub fn open(contents: &str, file_name: String) -> (d: Document)
        ensures
            d.contents() == lines_of(contents@),
            d.spec_file_name() == Some(file_name@),
            !d.spec_dirty(),
    {
        let chars = str_to_chars(contents);
        let mut rows: Vec<Row> = Vec::new();
        let mut cur: Vec<char> = Vec::new();
        let mut i: usize = 0;
        proof {
            assert(chars@.take(0) =~= Seq::<char>::empty());
            assert(rows_view(rows@).push(cur@) =~= split_nl(chars@.take(0)));
        }
        while i < chars.len()
            invariant
                i <= chars@.len(),
                rows_view(rows@).push(cur@) == split_nl(chars@.take(i as int)),
            decreases chars@.len() - i,
        {
            let ghost before = split_nl(chars@.take(i as int));
            let c = chars[i];
            proof {
                assert(chars@.take(i + 1).drop_last() =~= chars@.take(i as int));
                assert(chars@.take(i + 1).last() == chars@[i as int]);
            }
            if c == '\n' {
                rows.push(Row::from_chars(cur));
                cur = Vec::new();
                proof {
                    assert(rows_view(rows@).push(cur@) =~= before.push(Seq::<char>::empty()));
                }
            } else {
                cur.push(c);
                proof {
                    assert(rows_view(rows@).push(cur@) =~= before.update(
                        before.len() - 1,
                        before.last().push(chars@[i as int]),
                    ));
                }
            }
            i = i + 1;
        }
        proof {
            assert(chars@.take(chars@.len() as int) =~= chars@);
        }
        let ghost all = split_nl(chars@);
        if cur.len() > 0 {
            rows.push(Row::from_chars(cur));
            proof {
                assert(rows_view(rows@) =~= all);
            }
        } else {
            proof {
                assert(rows_view(rows@) =~= all.drop_last());
            }
        }
        Document { rows, file_name: Some(file_name), dirty: false }
    }

    /// Bounds-checked read access to a row.
    pub fn row(&self, index: usize) -> (r: Option<&Row>)
        ensures
            match r {
                Some(row) => index < self.contents().len() && row@
                    == self.contents()[index as int],
                None => index >= self.contents().len(),
            },
    {
        if index < self.rows.len() {
            Some(&self.rows[index])
        } else {
            None
        }
    }

    /// Whether the document has no rows.
    pub fn is_empty(&self) -> (r: bool)
        ensures
            r == (self.contents().len() == 0),
    {
        self.rows.len() == 0
    }

    /// The number of rows.
    pub fn len(&self) -> (r: usize)
        ensures
            r == self.contents().len(),
    {
        self.rows.len()
    }

    /// Whether the buffer holds unsaved mutations.
    pub fn is_dirty(&self) -> (r: bool)
        ensures
            r == self.spec_dirty(),
    {
        self.dirty
    }

    /// Whether the buffer has a file identity.
    pub fn has_file_name(&self) -> (r: bool)
        ensures
            r == (self.spec_file_name() is Some),
    {
        self.file_name.is_some()
    }

    /// The file identity, cloned.
    pub fn get_file_name(&self) -> (r: Option<String>)
        ensures
            match r {
                Some(n) => self.spec_file_name() == Some(n@),
                None => self.spec_file_name() is None,
            },
    {
        match &self.file_name {
            Some(n) => Some(n.clone()),
            None => None,
        }
    }

    /// Gives the buffer a (new) file identity.
    pub fn set_file_name(&mut self, name: String)
        ensures
            final(self).contents() == old(self).contents(),
            final(self).spec_dirty() == old(self).spec_dirty(),
            final(self).spec_file_name() == Some(name@),
    {
        self.file_name = Some(name);
    }

    /// Records that the buffer was written out successfully.
    pub fn mark_saved(&mut self)
        ensures
            final(self).contents() == old(self).contents(),
            final(self).spec_file_name() == old(self).spec_file_name(),
            !final(self).spec_dirty(),
    {
        self.dirty = false;
    }

    /// Inserts `c` at the position, splitting the row when `c` is a line
    /// break. Past the row after the last one this is a silent no-op;
    /// anywhere else it marks the buffer dirty.
    pub fn insert(&mut self, at: &Position, c: char)
        ensures
            final(self).contents() == doc_insert(
                old(self).contents(),
                at.x as int,
                at.y as int,
                c,
            ),
            final(self).spec_dirty() == (old(self).spec_dirty() || at.y
                <= old(self).contents().len()),
            final(self).spec_file_name() == old(self).spec_file_name(),
    {
        if at.y > self.rows.len() {
            return ;
        }
        self.dirty = true;
        if c == '\n' {
            self.insert_newline(at);
            return ;
        }
        if at.y == self.rows.len() {
            let mut row = Row::new();
            row.insert(0, c);
            self.rows.push(row);
            proof {
                assert(self.contents() =~= old(self).contents().push(
                    row_insert(Seq::empty(), 0, c),
                ));
            }
        } else {
            let mut row = self.rows.remove(at.y);
            row.insert(at.x, c);
            self.rows.insert(at.y, row);
            proof {
                assert(self.contents() =~= old(self).contents().update(
                    at.y as int,
                    row_insert(old(self).contents()[at.y as int], at.x as int, c),
                ));
            }
        }
    }

    /// Splits row `at.y` at column `at.x` into two rows; expects `at.y` to
    /// be at most the row count.
    fn insert_newline(&mut self, at: &Position)
        requires
            at.y <= old(self).rows@.len(),
        ensures
            final(self).contents() == doc_insert_newline(
                old(self).contents(),
                at.x as int,
                at.y as int,
            ),
            final(self).dirty == old(self).dirty,
            final(self).spec_file_name() == old(self).spec_file_name(),
    {
        if at.y == self.rows.len() {
            self.rows.push(Row::new());
            proof {
                assert(self.contents() =~= old(self).contents().push(Seq::<char>::empty()));
            }
            return ;
        }
        let mut row = self.rows.remove(at.y);
        let tail = row.split(at.x);
        self.rows.insert(at.y, tail);
        self.rows.insert(at.y, row);
        proof {
            assert(self.contents() =~= old(self).contents().update(
                at.y as int,
                row_prefix(old(self).contents()[at.y as int], at.x as int),
            ).insert(at.y + 1, row_suffix(old(self).contents()[at.y as int], at.x as int)));
        }
    }

    /// Deletes at the position: at the end of a row that has a successor
    /// the two rows are joined, otherwise the grapheme cluster at `at.x`
    /// is removed from row `at.y`. Past the last row this is a no-op;
    /// anywhere else it marks the buffer dirty.
    pub fn delete(&mut self, at: &Position)
        ensures
            final(self).contents() == doc_delete(
                old(self).contents(),
                at.x as int,
                at.y as int,
            ),
            final(self).spec_dirty() == (old(self).spec_dirty() || at.y < old(
                self,
            ).contents().len()),
            final(self).spec_file_name() == old(self).spec_file_name(),
    {
        if at.y >= self.rows.len() {
            return ;
        }
        self.dirty = true;
        let row_length = self.rows[at.y].len();
        if at.x == row_length && at.y + 1 < self.rows.len() {
            let next = self.rows.remove(at.y + 1);
            let mut row = self.rows.remove(at.y);
            row.append(&next);
            self.rows.insert(at.y, row);
            proof {
                assert(self.contents() =~= old(self).contents().update(
                    at.y as int,
                    old(self).contents()[at.y as int] + old(self).contents()[at.y + 1],
                ).remove(at.y + 1));
            }
        } else {
            let mut row = self.rows.remove(at.y);
            row.delete(at.x);
            self.rows.insert(at.y, row);
            proof {
                assert(self.contents() =~= old(self).contents().update(
                    at.y as int,
                    row_delete(old(self).contents()[at.y as int], at.x as int),
                ));
            }
        }
    }

    /// The text a save writes: the rows joined by line breaks, with no
    /// trailing line break beyond what the rows imply.
    pub fn serialize(&self) -> (r: String)
        ensures
            r@ == join_lines(self.contents()),
    {
        let ghost contents = self.contents();
        let mut out: Vec<char> = Vec::new();
        let mut i: usize = 0;
        proof {
            assert(contents.take(0) =~= Seq::<Seq<char>>::empty());
        }
        while i < self.rows.len()
            invariant
                i <= self.rows@.len(),
                contents == self.contents(),
                out@ == join_lines(contents.take(i as int)),
            decreases self.rows@.len() - i,
        {
            if i > 0 {
                out.push('\n');
            }
            let ghost with_break = out@;
            let chars = self.rows[i].chars();
            let mut j: usize = 0;
            while j < chars.len()
                invariant
                    j <= chars@.len(),
                    chars@ == contents[i as int],
                    i < contents.len(),
                    out@ == with_break + chars@.take(j as int),
                decreases chars@.len() - j,
            {
                out.push(chars[j]);
                proof {
                    assert(with_break + chars@.take(j + 1) =~= (with_break + chars@.take(
                        j as int,
                    )).push(chars@[j as int]));
                }
                j = j + 1;
            }
            proof {
                assert(chars@.take(chars@.len() as int) =~= chars@);
                assert(contents.take(i + 1).drop_last() =~= contents.take(i as int));
                assert(contents.take(i + 1).last() == contents[i as int]);
                if i == 0 {
                    assert(out@ =~= contents[0]);
                    assert(join_lines(contents.take(1)) == contents.take(1)[0]);
                } else {
                    assert(out@ =~= join_lines(contents.take(i as int)).push('\n')
                        + contents[i as int]);
                }
            }
            i = i + 1;
        }
        proof {
            assert(contents.take(contents.len() as int) =~= contents);
        }
        crate::grapheme::chars_to_string(&out)
    }
}

impl Default for Document {
    /// An empty, clean, untitled document.
    fn default() -> (d: Document)
        ensures
            d.contents() == Seq::<Seq<char>>::empty(),
            d.spec_file_name() is None,
            !d.spec_dirty(),
    {
        let d = Document { rows: Vec::new(), file_name: None, dirty: false };
        proof {
            assert(d.contents() =~= Seq::<Seq<char>>::empty());
        }
        d
    }
}

} // verus!
