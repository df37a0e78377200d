//! Splitting text into lines and joining lines back into text.
//!
//! A document's rows come from splitting file content on line breaks; saving
//! joins them with line breaks again. A final line break closes the last
//! line: it never opens a trailing empty one. On text without a trailing
//! line break the two directions are exact inverses
//! (`lemma_lines_round_trip`).

use vstd::prelude::*;

verus! {

/// The segments of `s` split on '\n', always including the final (possibly
/// empty) segment after the last line break.
pub open spec fn split_nl(s: Seq<char>) -> Seq<Seq<char>>
    decreases s.len(),
{
    if s.len() == 0 {
        seq![Seq::<char>::empty()]
    } else if s.last() == '\n' {
        split_nl(s.drop_last()).push(Seq::empty())
    } else {
        let r = split_nl(s.drop_last());
        r.update(r.len() - 1, r.last().push(s.last()))
    }
}

/// The lines of `s`: its '\n'-separated segments, except that a final line
/// break closes the last line rather than opening an empty one, so the
/// empty text has no lines at all.
pub open spec fn lines_of(s: Seq<char>) -> Seq<Seq<char>> {
    let r = split_nl(s);
    if r.last().len() == 0 {
        r.drop_last()
    } else {
        r
    }
}

/// The text of the given lines joined by single line breaks.
pub open spec fn join_lines(rows: Seq<Seq<char>>) -> Seq<char>
    decreases rows.len(),
{
    if rows.len() == 0 {
        Seq::empty()
    } else if rows.len() == 1 {
        rows[0]
    } else {
        join_lines(rows.drop_last()).push('\n') + rows.last()
    }
}

/// Splitting always yields at least one segment.
pub proof fn lemma_split_nl_len(s: Seq<char>)
    ensures
        split_nl(s).len() >= 1,
    decreases s.len(),
{
    if s.len() > 0 {
        lemma_split_nl_len(s.drop_last());
    }
}

/// The final segment is empty exactly for the empty text and for text that
/// ends with a line break.
pub proof fn lemma_split_nl_last(s: Seq<char>)
    ensures
        (split_nl(s).last().len() == 0) <==> (s.len() == 0 || s.last() == '\n'),
{
    if s.len() > 0 {
        lemma_split_nl_len(s.drop_last());
    }
}

/// Joining the segments of a split restores the text.
pub proof fn lemma_join_split_nl(s: Seq<char>)
    ensures
        join_lines(split_nl(s)) == s,
    decreases s.len(),
{
    if s.len() == 0 {
        assert(join_lines(split_nl(s)) == Seq::<char>::empty());
        assert(s =~= Seq::<char>::empty());
    } else {
        let p = s.drop_last();
        let c = s.last();
        lemma_join_split_nl(p);
        lemma_split_nl_len(p);
        let prev = split_nl(p);
        if c == '\n' {
            let r = prev.push(Seq::<char>::empty());
            assert(r.drop_last() =~= prev);
            assert(join_lines(r) == join_lines(prev).push('\n') + Seq::<char>::empty());
            assert(join_lines(prev).push('\n') + Seq::<char>::empty() =~= p.push('\n'));
            assert(p.push('\n') =~= s);
        } else {
            let r = prev.update(prev.len() - 1, prev.last().push(c));
            assert(r.last() == prev.last().push(c));
            if prev.len() == 1 {
                assert(join_lines(prev) == prev[0]);
                assert(join_lines(r) == r[0]);
                assert(r[0] == prev[0].push(c));
                assert(prev[0].push(c) =~= s);
            } else {
                assert(r.drop_last() =~= prev.drop_last());
                assert(join_lines(r) == join_lines(prev.drop_last()).push('\n')
                    + prev.last().push(c));
                assert(join_lines(prev.drop_last()).push('\n') + prev.last().push(c)
                    =~= (join_lines(prev.drop_last()).push('\n') + prev.last()).push(c));
                assert((join_lines(prev.drop_last()).push('\n') + prev.last()).push(c)
                    == p.push(c));
                assert(p.push(c) =~= s);
            }
        }
    }
}

/// Splitting a text into lines and joining them again restores the text,
/// for every text that does not end with a line break.
pub proof fn lemma_lines_round_trip(s: Seq<char>)
    requires
        s.len() == 0 || s.last() != '\n',
    ensures
        join_lines(lines_of(s)) == s,
{
    lemma_join_split_nl(s);
    lemma_split_nl_last(s);
    if s.len() == 0 {
        assert(lines_of(s) =~= Seq::<Seq<char>>::empty());
    }
}

} // verus!
