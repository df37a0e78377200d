//! A single line of text, addressed by grapheme-cluster offsets.

use vstd::prelude::*;

use crate::grapheme::chars_to_string;
use crate::grapheme::graphemes_of;
use crate::grapheme::lemma_flatten_split;
use crate::grapheme::split_graphemes;
use crate::grapheme::str_to_chars;
use vstd::seq_lib::lemma_flatten_concat;

verus! {

/// One line of a document. All offsets given to its operations count
/// grapheme clusters (`graphemes_of`), never bytes.
pub struct Row {
    content: Vec<char>,
}

impl View for Row {
    type V = Seq<char>;

    closed spec fn view(&self) -> Seq<char> {
        self.content@
    }
}

/// The characters of the first `at` grapheme clusters of `s` (all of `s` if
/// it has no more than `at` clusters).
pub open spec fn row_prefix(s: Seq<char>, at: int) -> Seq<char> {
    let gs = graphemes_of(s);
    let k = if at > gs.len() {
        gs.len() as int
    } else {
        at
    };
    gs.subrange(0, k).flatten()
}

/// The characters of `s` from its `at`-th grapheme cluster on.
pub open spec fn row_suffix(s: Seq<char>, at: int) -> Seq<char> {
    let gs = graphemes_of(s);
    let k = if at > gs.len() {
        gs.len() as int
    } else {
        at
    };
    gs.subrange(k, gs.len() as int).flatten()
}

/// The text after inserting character `c` at grapheme offset `at`: appended
/// if `at` is past the last cluster, otherwise placed on the boundary before
/// the `at`-th cluster.
pub open spec fn row_insert(s: Seq<char>, at: int, c: char) -> Seq<char> {
    if at >= graphemes_of(s).len() {
        s.push(c)
    } else {
        row_prefix(s, at).push(c) + row_suffix(s, at)
    }
}

/// The text after deleting the grapheme cluster at offset `at`; deleting
/// past the end changes nothing.
pub open spec fn row_delete(s: Seq<char>, at: int) -> Seq<char> {
    if at >= graphemes_of(s).len() {
        s
    } else {
        row_prefix(s, at) + row_suffix(s, at + 1)
    }
}

/// How one grapheme cluster is displayed: a tab becomes two spaces, any
/// other cluster is shown as it is.
pub open spec fn rendered_grapheme(g: Seq<char>) -> Seq<char> {
    if g == seq!['\t'] {
        seq![' ', ' ']
    } else {
        g
    }
}

/// The concatenated display forms of a run of grapheme clusters.
pub open spec fn render_clusters(gs: Seq<Seq<char>>) -> Seq<char>
    decreases gs.len(),
{
    if gs.len() == 0 {
        Seq::empty()
    } else {
        rendered_grapheme(gs.first()) + render_clusters(gs.drop_first())
    }
}

/// The visible text of the clusters in `[start, end)`, with `end` clamped to
/// the cluster count and `start` clamped to `end`.
pub open spec fn row_render(s: Seq<char>, start: int, end: int) -> Seq<char> {
    let gs = graphemes_of(s);
    let e = if end > gs.len() {
        gs.len() as int
    } else {
        end
    };
    let st = if start > e {
        e
    } else {
        start
    };
    render_clusters(gs.subrange(st, e))
}

/// Displaying one more cluster appends that cluster's display form.
pub proof fn lemma_render_clusters_push(gs: Seq<Seq<char>>, g: Seq<char>)
    ensures
        render_clusters(gs.push(g)) == render_clusters(gs) + rendered_grapheme(g),
    decreases gs.len(),
{
    if gs.len() == 0 {
        assert(gs.push(g).drop_first() =~= Seq::<Seq<char>>::empty());
        assert(render_clusters(Seq::<Seq<char>>::empty()) == Seq::<char>::empty());
        assert(render_clusters(gs.push(g)) =~= rendered_grapheme(g) + Seq::<char>::empty());
        assert(rendered_grapheme(g) + Seq::<char>::empty() =~= rendered_grapheme(g));
        assert(render_clusters(gs) + rendered_grapheme(g) =~= rendered_grapheme(g));
    } else {
        assert(gs.push(g).drop_first() =~= gs.drop_first().push(g));
        lemma_render_clusters_push(gs.drop_first(), g);
        assert(rendered_grapheme(gs.first()) + (render_clusters(gs.drop_first())
            + rendered_grapheme(g)) =~= (rendered_grapheme(gs.first()) + render_clusters(
            gs.drop_first(),
        )) + rendered_grapheme(g));
    }
}

impl Row {
    /// The number of grapheme clusters on the row.
    pub open spec fn spec_len(self) -> nat {
        graphemes_of(self@).len()
    }

    /// A row holding the given text.
    pub fn from_str(s: &str) -> (r: Row)
        ensures
            r@ == s@,
    {
        Row { content: str_to_chars(s) }
    }

    /// An empty row.
    pub fn new() -> (r: Row)
        ensures
            r@ == Seq::<char>::empty(),
    {
        Row { content: Vec::new() }
    }

    /// A row owning the given characters.
    pub(crate) fn from_chars(content: Vec<char>) -> (r: Row)
        ensures
            r@ == content@,
    {
        Row { content }
    }

    /// The row's characters.
    pub(crate) fn chars(&self) -> (r: &Vec<char>)
        ensures
            r@ == self@,
    {
        &self.content
    }

    /// The row's text as a string.
    pub fn to_string(&self) -> (r: String)
        ensures
            r@ == self@,
    {
        chars_to_string(&self.content)
    }

    /// The grapheme-cluster count of the row.
    pub fn len(&self) -> (r: usize)
        ensures
            r == self.spec_len(),
    {
        let gs = split_graphemes(&self.content);
        proof {
            assert(gs.deep_view().len() == gs@.len());
        }
        gs.len()
    }

    /// Whether the row holds no text at all.
    pub fn is_empty(&self) -> (r: bool)
        ensures
            r == (self@.len() == 0),
    {
        self.content.len() == 0
    }
}

/// The character offset of the boundary before the `at`-th grapheme cluster:
/// the summed character length of the clusters before it.
fn grapheme_boundary(gs: &Vec<Vec<char>>, at: usize) -> (b: usize)
    requires
        at <= gs.deep_view().len(),
        gs.deep_view().flatten().len() <= usize::MAX,
    ensures
        b == gs.deep_view().subrange(0, at as int).flatten().len(),
{
    let mut b: usize = 0;
    let mut i: usize = 0;
    while i < at
        invariant
            i <= at <= gs.deep_view().len(),
            gs.deep_view().flatten().len() <= usize::MAX,
            b == gs.deep_view().subrange(0, i as int).flatten().len(),
        decreases at - i,
    {
        proof {
            let g = gs.deep_view();
            assert(g.subrange(0, i as int).push(g[i as int]) =~= g.subrange(0, i + 1));
            g.subrange(0, i as int).lemma_flatten_push(g[i as int]);
            lemma_flatten_split(g, i + 1);
            assert(g.subrange(i + 1, g.len() as int).flatten().len() >= 0);
        }
        b = b + gs[i].len();
        i = i + 1;
    }
    b
}

impl Row {
    /// Inserts `c` at grapheme offset `at`, appending when `at` is at or
    /// past the end of the row.
    pub fn insert(&mut self, at: usize, c: char)
        ensures
            final(self)@ == row_insert(old(self)@, at as int, c),
    {
        let total = self.content.len();
        let gs = split_graphemes(&self.content);
        if at >= gs.len() {
            self.content.push(c);
        } else {
            proof {
                assert(gs.deep_view().flatten().len() == total);
                lemma_flatten_split(gs.deep_view(), at as int);
            }
            let b = grapheme_boundary(&gs, at);
            self.content.insert(b, c);
            proof {
                let g = gs.deep_view();
                let pre = g.subrange(0, at as int).flatten();
                let suf = g.subrange(at as int, g.len() as int).flatten();
                assert(old(self)@ == pre + suf);
                assert(self.content@ =~= pre.push(c) + suf);
            }
        }
    }

    /// Deletes the grapheme cluster at offset `at`; past the end this is a
    /// no-op, not an error.
    pub fn delete(&mut self, at: usize)
        ensures
            final(self)@ == row_delete(old(self)@, at as int),
    {
        let total = self.content.len();
        let gs = split_graphemes(&self.content);
        if at < gs.len() {
            proof {
                assert(gs.deep_view().flatten().len() == total);
                lemma_flatten_split(gs.deep_view(), at as int);
            }
            let b = grapheme_boundary(&gs, at);
            let glen = gs[at].len();
            let ghost g = gs.deep_view();
            let ghost pre = g.subrange(0, at as int).flatten();
            let ghost post = g.subrange(at + 1, g.len() as int).flatten();
            proof {
                assert(g.subrange(at as int, g.len() as int) =~= seq![g[at as int]]
                    + g.subrange(at + 1, g.len() as int));
                lemma_flatten_concat(seq![g[at as int]], g.subrange(at + 1, g.len() as int));
                seq![g[at as int]].lemma_flatten_singleton();
                assert(old(self)@ =~= pre + g[at as int] + post);
                assert(g[at as int] == gs@[at as int]@);
            }
            let mut j: usize = 0;
            while j < glen
                invariant
                    j <= glen,
                    glen == g[at as int].len(),
                    b == pre.len(),
                    self.content@ =~= pre + g[at as int].skip(j as int) + post,
                decreases glen - j,
            {
                self.content.remove(b);
                proof {
                    let mid = g[at as int].skip(j as int);
                    assert((pre + mid + post).remove(b as int) =~= pre + mid.drop_first()
                        + post);
                    assert(mid.drop_first() =~= g[at as int].skip(j + 1));
                }
                j = j + 1;
            }
            proof {
                assert(g[at as int].skip(glen as int) =~= Seq::<char>::empty());
                assert(self.content@ =~= pre + post);
            }
        }
    }

    /// Appends the other row's text to this one.
    pub fn append(&mut self, other: &Row)
        ensures
            final(self)@ == old(self)@ + other@,
    {
        let mut i: usize = 0;
        while i < other.content.len()
            invariant
                i <= other.content@.len(),
                self.content@ == old(self).content@ + other.content@.take(i as int),
            decreases other.content@.len() - i,
        {
            self.content.push(other.content[i]);
            proof {
                assert(old(self).content@ + other.content@.take(i + 1) =~= (old(
                    self,
                ).content@ + other.content@.take(i as int)).push(other.content@[i as int]));
            }
            i = i + 1;
        }
        proof {
            assert(other.content@.take(other.content@.len() as int) =~= other.content@);
        }
    }

    /// Splits the row at grapheme offset `at`: the text before the boundary
    /// stays here, the rest is returned as a new row.
    pub fn split(&mut self, at: usize) -> (r: Row)
        ensures
            final(self)@ == row_prefix(old(self)@, at as int),
            r@ == row_suffix(old(self)@, at as int),
    {
        let total = self.content.len();
        let gs = split_graphemes(&self.content);
        let k = if at > gs.len() {
            gs.len()
        } else {
            at
        };
        proof {
            assert(gs.deep_view().flatten().len() == total);
            lemma_flatten_split(gs.deep_view(), k as int);
        }
        let b = grapheme_boundary(&gs, k);
        let tail = self.content.split_off(b);
        Row { content: tail }
    }

    /// The visible text of the grapheme clusters in `[start, end)`, bounds
    /// clamped; a tab cluster is shown as two spaces.
    pub fn render(&self, start: usize, end: usize) -> (r: String)
        ensures
            r@ == row_render(self@, start as int, end as int),
    {
        let gs = split_graphemes(&self.content);
        let e = if end > gs.len() {
            gs.len()
        } else {
            end
        };
        let st = if start > e {
            e
        } else {
            start
        };
        let ghost g = gs.deep_view();
        let mut out: Vec<char> = Vec::new();
        let mut i: usize = st;
        proof {
            assert(g.subrange(st as int, st as int) =~= Seq::<Seq<char>>::empty());
        }
        while i < e
            invariant
                st <= i <= e <= g.len(),
                g == gs.deep_view(),
                gs@.len() == g.len(),
                forall|k: int| 0 <= k < g.len() ==> g[k] == gs@[k]@,
                out@ == render_clusters(g.subrange(st as int, i as int)),
            decreases e - i,
        {
            let cluster = &gs[i];
            if cluster.len() == 1 && cluster[0] == '\t' {
                out.push(' ');
                out.push(' ');
                proof {
                    assert(g[i as int] =~= seq!['\t']);
                }
            } else {
                let ghost out_before = out@;
                let mut j: usize = 0;
                while j < cluster.len()
                    invariant
                        j <= cluster@.len(),
                        cluster@ == g[i as int],
                        out@ == out_before + g[i as int].take(j as int),
                    decreases cluster@.len() - j,
                {
                    out.push(cluster[j]);
                    proof {
                        assert(out_before + g[i as int].take(j + 1) =~= (out_before
                            + g[i as int].take(j as int)).push(g[i as int][j as int]));
                    }
                    j = j + 1;
                }
                proof {
                    assert(g[i as int].take(g[i as int].len() as int) =~= g[i as int]);
                    assert(g[i as int] != seq!['\t']);
                    assert(out@ == out_before + rendered_grapheme(g[i as int]));
                }
            }
            proof {
                assert(g.subrange(st as int, i + 1) =~= g.subrange(st as int, i as int).push(
                    g[i as int],
                ));
                lemma_render_clusters_push(g.subrange(st as int, i as int), g[i as int]);
            }
            i = i + 1;
        }
        chars_to_string(&out)
    }
}

} // verus!
