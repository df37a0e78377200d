//! The status line: a row of text fields joined by a separator and clamped
//! to the terminal width.

use vstd::prelude::*;
use vstd::string::StringExecFns;

use crate::grapheme::chars_to_string;
use crate::grapheme::str_to_chars;
use crate::utils::decimal_string;
use crate::utils::spec_decimal;

verus! {

/// One field of the status line, already rendered to text.
pub struct StatusLineComponent {
    pub text: String,
}

impl StatusLineComponent {
    /// The field's text.
    pub fn to_string(&self) -> (r: String)
        ensures
            r@ == self.text@,
    {
        self.text.clone()
    }

    /// Replaces the field's text.
    pub fn update(&mut self, text: String)
        ensures
            final(self).text@ == text@,
    {
        self.text = text;
    }
}

/// The texts of a sequence of status line fields.
pub open spec fn component_texts(cs: Seq<StatusLineComponent>) -> Seq<Seq<char>> {
    Seq::new(cs.len(), |i: int| cs[i].text@)
}

/// The given texts joined by the separator.
pub open spec fn joined_texts(texts: Seq<Seq<char>>, sep: Seq<char>) -> Seq<char>
    decreases texts.len(),
{
    if texts.len() == 0 {
        Seq::empty()
    } else if texts.len() == 1 {
        texts[0]
    } else {
        joined_texts(texts.drop_last(), sep) + sep + texts.last()
    }
}

/// `s` padded with spaces on the right and cut to exactly `width`
/// characters.
pub open spec fn width_clamped(s: Seq<char>, width: int) -> Seq<char>
    recommends
        width >= 0,
{
    (s + Seq::new(if width >= 0 {
        width as nat
    } else {
        0
    }, |i: int| ' ')).take(if width >= 0 {
        width
    } else {
        0
    })
}

/// The status line as a whole: its fields in order, a separator, and the
/// width to which the joined text is padded or cut.
pub struct StatusLine {
    pub components: Vec<StatusLineComponent>,
    pub separator: String,
    pub width: usize,
}

impl Default for StatusLine {
    /// A status line with no fields, an empty separator and zero width.
    fn default() -> (r: StatusLine)
        ensures
            r.components@.len() == 0,
            r.separator@ == Seq::<char>::empty(),
            r.width == 0,
    {
        StatusLine { components: Vec::new(), separator: String::new(), width: 0 }
    }
}

impl StatusLine {
    /// Adds a field at the end.
    pub fn push(&mut self, component: StatusLineComponent)
        ensures
            final(self).components@ == old(self).components@.push(component),
            final(self).separator@ == old(self).separator@,
            final(self).width == old(self).width,
    {
        self.components.push(component)
    }

    /// Replaces the separator drawn between fields.
    pub fn set_separator(&mut self, separator: &str)
        ensures
            final(self).separator@ == separator@,
            final(self).components@ == old(self).components@,
            final(self).width == old(self).width,
    {
        self.separator = separator.to_owned()
    }

    /// Replaces the width the line is clamped to.
    pub fn set_width(&mut self, width: usize)
        ensures
            final(self).width == width,
            final(self).components@ == old(self).components@,
            final(self).separator@ == old(self).separator@,
    {
        self.width = width
    }

    /// The line's text: the fields joined by the separator, padded with
    /// spaces and cut to exactly the line's width.
    pub fn to_string(&self) -> (r: String)
        ensures
            r@ == width_clamped(
                joined_texts(component_texts(self.components@), self.separator@),
                self.width as int,
            ),
    {
        let ghost texts = component_texts(self.components@);
        let sep = str_to_chars(self.separator.as_str());
        let mut out: Vec<char> = Vec::new();
        let mut i: usize = 0;
        proof {
            assert(texts.take(0) =~= Seq::<Seq<char>>::empty());
        }
        while i < self.components.len()
            invariant
                i <= self.components@.len(),
                texts == component_texts(self.components@),
                sep@ == self.separator@,
                out@ == joined_texts(texts.take(i as int), sep@),
            decreases self.components@.len() - i,
        {
            if i > 0 {
                let mut k: usize = 0;
                let ghost out_before = out@;
                while k < sep.len()
                    invariant
                        k <= sep@.len(),
                        out@ == out_before + sep@.take(k as int),
                    decreases sep@.len() - k,
                {
                    out.push(sep[k]);
                    proof {
                        assert(out_before + sep@.take(k + 1) =~= (out_before + sep@.take(
                            k as int,
                        )).push(sep@[k as int]));
                    }
                    k = k + 1;
                }
                proof {
                    assert(sep@.take(sep@.len() as int) =~= sep@);
                }
            }
            let ghost with_sep = out@;
            let text = str_to_chars(self.components[i].text.as_str());
            let mut j: usize = 0;
            while j < text.len()
                invariant
                    j <= text@.len(),
                    text@ == texts[i as int],
                    i < texts.len(),
                    out@ == with_sep + text@.take(j as int),
                decreases text@.len() - j,
            {
                out.push(text[j]);
                proof {
                    assert(with_sep + text@.take(j + 1) =~= (with_sep + text@.take(
                        j as int,
                    )).push(text@[j as int]));
                }
                j = j + 1;
            }
            proof {
                assert(text@.take(text@.len() as int) =~= text@);
                assert(texts.take(i + 1).drop_last() =~= texts.take(i as int));
                assert(texts.take(i + 1).last() == texts[i as int]);
                if i == 0 {
                    assert(out@ =~= texts[0]);
                    assert(joined_texts(texts.take(1), sep@) == texts.take(1)[0]);
                } else {
                    assert(out@ =~= (joined_texts(texts.take(i as int), sep@) + sep@)
                        + texts[i as int]);
                }
            }
            i = i + 1;
        }
        proof {
            assert(texts.take(texts.len() as int) =~= texts);
        }
        let ghost joined = out@;
        let mut p: usize = 0;
        while p < self.width
            invariant
                p <= self.width,
                out@ == joined + Seq::new(p as nat, |k: int| ' '),
            decreases self.width - p,
        {
            out.push(' ');
            proof {
                assert(joined + Seq::new((p + 1) as nat, |k: int| ' ') =~= (joined + Seq::new(
                    p as nat,
                    |k: int| ' ',
                )).push(' '));
            }
            p = p + 1;
        }
        out.truncate(self.width);
        proof {
            let padded = joined + Seq::new(self.width as nat, |k: int| ' ');
            assert(out@ =~= padded.take(self.width as int));
        }
        chars_to_string(&out)
    }
}

/// The "(modified)" marker, shown only while the buffer is dirty.
pub struct StatusLineModifiedComponent {}

impl StatusLineModifiedComponent {
    /// The marker field for the given dirty state.
    pub fn new(is_dirty: bool) -> (r: StatusLineComponent)
        ensures
            r.text@ == if is_dirty {
                "(modified)"@
            } else {
                ""@
            },
    {
        let text = if is_dirty {
            "(modified)"
        } else {
            ""
        };
        StatusLineComponent { text: text.to_owned() }
    }
}

/// The file name field: the name cut to twenty characters, or a
/// placeholder for an untitled buffer.
pub struct StatusLineFileNameComponent {}

impl StatusLineFileNameComponent {
    /// The file name field for the given identity.
    pub fn new(file_name: Option<String>) -> (r: StatusLineComponent)
        ensures
            r.text@ == match file_name {
                Some(name) => if name@.len() > 20 {
                    name@.take(20)
                } else {
                    name@
                },
                None => "[No Name]"@,
            },
    {
        match file_name {
            Some(name) => {
                let mut chars = str_to_chars(name.as_str());
                out_truncate_20(&mut chars);
                StatusLineComponent { text: chars_to_string(&chars) }
            },
            None => StatusLineComponent { text: "[No Name]".to_owned() },
        }
    }
}

/// Cuts a name down to at most twenty characters.
fn out_truncate_20(chars: &mut Vec<char>)
    ensures
        final(chars)@ == if old(chars)@.len() > 20 {
            old(chars)@.take(20)
        } else {
            old(chars)@
        },
{
    chars.truncate(20);
    proof {
        if old(chars)@.len() > 20 {
            assert(old(chars)@.subrange(0, 20) =~= old(chars)@.take(20));
        }
    }
}

/// The cursor line indicator, "current/total" in decimal.
pub struct StatusLineLineIndicatorComponent {}

impl StatusLineLineIndicatorComponent {
    /// The indicator for a cursor on row `cursor_y` (counted from zero) of
    /// `document_len` rows.
    pub fn new(cursor_y: usize, document_len: usize) -> (r: StatusLineComponent)
        ensures
            r.text@ == spec_decimal(cursor_y.saturating_add(1) as nat) + "/"@ + spec_decimal(
                document_len as nat,
            ),
    {
        let mut text = decimal_string(cursor_y.saturating_add(1));
        text.append("/");
        text.append(decimal_string(document_len).as_str());
        StatusLineComponent { text }
    }
}

} // verus!
