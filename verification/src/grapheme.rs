//! Grapheme-cluster segmentation of text.
//!
//! Every cursor offset, insertion point and slice bound in this crate counts
//! grapheme clusters, not bytes or code points. Segmentation itself is done
//! by the `unicode-segmentation` crate; `graphemes_of` names its result, and
//! everything the rest of the crate knows about it is stated on the one
//! wrapper below: the clusters are non-empty and concatenate back to the
//! text they segment.

use unicode_segmentation::UnicodeSegmentation;
use vstd::prelude::*;
use vstd::seq_lib::lemma_flatten_concat;
use vstd::string::StrSliceExecFns;

verus! {

/// The grapheme clusters of a text, in order (extended grapheme clusters of
/// Unicode Standard Annex #29, as `unicode-segmentation` computes them).
pub uninterp spec fn graphemes_of(s: Seq<char>) -> Seq<Seq<char>>;

/// Relies on `unicode_segmentation::UnicodeSegmentation::graphemes` (with
/// `is_extended` true): the returned clusters partition the input, so each
/// is non-empty and in order they concatenate back to the input.
#[verifier::external_body]
pub(crate) fn split_graphemes(text: &Vec<char>) -> (r: Vec<Vec<char>>)
    ensures
        r.deep_view() == graphemes_of(text@),
        r.deep_view().flatten() == text@,
        forall|i: int| 0 <= i < r.deep_view().len() ==> r.deep_view()[i].len() > 0,
{
    let s: String = text.iter().collect();
    s.graphemes(true).map(|g| g.chars().collect()).collect()
}

/// Relies on std's `String::push`: appends the character to the end of the
/// string (vstd gives `push` no specification of its own).
#[verifier::external_body]
pub(crate) fn push_char(s: &mut String, c: char)
    ensures
        final(s)@ == old(s)@.push(c),
{
    s.push(c);
}

/// Builds the string holding exactly the given characters.
pub fn chars_to_string(chars: &Vec<char>) -> (r: String)
    ensures
        r@ == chars@,
{
    let mut r = String::new();
    let mut i: usize = 0;
    while i < chars.len()
        invariant
            i <= chars@.len(),
            r@ == chars@.take(i as int),
        decreases chars@.len() - i,
    {
        push_char(&mut r, chars[i]);
        proof {
            assert(chars@.take(i as int).push(chars@[i as int]) =~= chars@.take(i + 1));
        }
        i = i + 1;
    }
    proof {
        assert(chars@.take(chars@.len() as int) =~= chars@);
    }
    r
}

/// Collects the characters of a string slice into a vector.
pub fn str_to_chars(s: &str) -> (r: Vec<char>)
    ensures
        r@ == s@,
{
    let n = s.unicode_len();
    let mut r: Vec<char> = Vec::new();
    let mut i: usize = 0;
    while i < n
        invariant
            n == s@.len(),
            i <= n,
            r@ == s@.take(i as int),
        decreases n - i,
    {
        r.push(s.get_char(i));
        proof {
            assert(s@.take(i as int).push(s@[i as int]) =~= s@.take(i + 1));
        }
        i = i + 1;
    }
    proof {
        assert(s@.take(n as int) =~= s@);
    }
    r
}

/// Splitting a sequence of parts anywhere splits its flattening there too.
pub proof fn lemma_flatten_split(gs: Seq<Seq<char>>, k: int)
    requires
        0 <= k <= gs.len(),
    ensures
        gs.flatten() == gs.subrange(0, k).flatten() + gs.subrange(
            k,
            gs.len() as int,
        ).flatten(),
{
    lemma_flatten_concat(gs.subrange(0, k), gs.subrange(k, gs.len() as int));
    assert(gs.subrange(0, k) + gs.subrange(k, gs.len() as int) =~= gs);
}

} // verus!
