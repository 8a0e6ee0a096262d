//! Proofs about the splitting of text: that it loses no character, and
//! that any run of consecutive pieces of a text is split the same way when
//! it stands alone.

use crate::ansi::{
    canonical, escape_len, first_len, first_piece, flatten, pieces, run_len, spec_in_body, Body,
    Piece, ESC,
};
use vstd::prelude::*;

verus! {

/// A run stays inside the text, and the character after it, if there is
/// one, cannot continue it.
pub proof fn lemma_run_len_bounds(s: Seq<char>, from: int, kind: Body)
    requires
        0 <= from <= s.len(),
    ensures
        0 <= run_len(s, from, kind) <= s.len() - from,
        from + run_len(s, from, kind) < s.len() ==> !spec_in_body(
            kind,
            s[from + run_len(s, from, kind)],
        ),
    decreases s.len() - from,
{
    if from < s.len() && spec_in_body(kind, s[from]) {
        lemma_run_len_bounds(s, from + 1, kind);
    }
}

/// Cutting the text after `m` characters cuts a run at the same place and
/// changes nothing else of it.
pub proof fn lemma_run_len_take(s: Seq<char>, m: int, from: int, kind: Body)
    requires
        0 <= from <= m <= s.len(),
    ensures
        run_len(s.take(m), from, kind) == if run_len(s, from, kind) <= m - from {
            run_len(s, from, kind)
        } else {
            m - from
        },
    decreases m - from,
{
    lemma_run_len_bounds(s, from, kind);
    if from < m {
        if spec_in_body(kind, s[from]) {
            lemma_run_len_take(s, m, from + 1, kind);
        }
    }
}

/// A run in the text without its first `i` characters is the run of the
/// whole text, `i` places further on.
pub proof fn lemma_run_len_skip(s: Seq<char>, i: int, from: int, kind: Body)
    requires
        0 <= i <= s.len(),
        0 <= from,
    ensures
        run_len(s.skip(i), from, kind) == run_len(s, i + from, kind),
    decreases s.len() - i - from,
{
    if from < s.len() - i {
        if spec_in_body(kind, s[i + from]) {
            lemma_run_len_skip(s, i, from + 1, kind);
        }
    }
}

/// An escape sequence lies inside the text and has at least two characters.
pub proof fn lemma_escape_len_bounds(s: Seq<char>)
    ensures
        0 <= escape_len(s) <= s.len(),
        escape_len(s) != 1,
        s.len() > 0 ==> 1 <= first_len(s) <= s.len(),
{
    if s.len() >= 2 {
        lemma_run_len_bounds(s, 2, Body::Csi);
        lemma_run_len_bounds(s, 2, Body::Osc);
        lemma_run_len_bounds(s, 1, Body::Intermediate);
    }
}

/// Cutting the text after `m` characters keeps the leading escape sequence
/// if it ends before the cut, and leaves none otherwise.
pub proof fn lemma_escape_len_take(s: Seq<char>, m: int)
    requires
        0 <= m <= s.len(),
    ensures
        escape_len(s.take(m)) == if escape_len(s) <= m {
            escape_len(s)
        } else {
            0
        },
{
    lemma_escape_len_bounds(s);
    if m >= 2 && s[0] == ESC {
        lemma_run_len_take(s, m, 2, Body::Csi);
        lemma_run_len_take(s, m, 2, Body::Osc);
        lemma_run_len_take(s, m, 1, Body::Intermediate);
        lemma_run_len_bounds(s, 2, Body::Csi);
        lemma_run_len_bounds(s, 2, Body::Osc);
        lemma_run_len_bounds(s, 1, Body::Intermediate);
    }
}

/// The characters of two runs of pieces, one after the other.
pub proof fn lemma_flatten_concat(a: Seq<Piece>, b: Seq<Piece>)
    ensures
        flatten(a + b) == flatten(a) + flatten(b),
    decreases b.len(),
{
    if b.len() > 0 {
        assert((a + b).drop_last() == a + b.drop_last());
        lemma_flatten_concat(a, b.drop_last());
    }
}

/// The characters of a single piece.
pub proof fn lemma_flatten_one(p: Piece)
    ensures
        flatten(seq![p]) == p.text,
{
    let one = seq![p];
    assert(flatten(one.drop_last()) == Seq::<char>::empty());
}

/// The characters of a run of pieces with one more piece at its end.
pub proof fn lemma_flatten_push(ps: Seq<Piece>, p: Piece)
    ensures
        flatten(ps.push(p)) == flatten(ps) + p.text,
{
    assert(ps.push(p).drop_last() == ps);
}

/// Splitting a text loses nothing: the characters of its pieces are the text.
pub proof fn lemma_pieces_keep_text(s: Seq<char>)
    ensures
        flatten(pieces(s)) == s,
        canonical(pieces(s)),
    decreases s.len(),
{
    if s.len() > 0 {
        let n = first_len(s);
        lemma_pieces_keep_text(s.skip(n));
        lemma_flatten_concat(seq![first_piece(s)], pieces(s.skip(n)));
        lemma_flatten_one(first_piece(s));
    }
}

/// The first of a canonical run of pieces is what its characters start
/// with, and the rest of the run is canonical too.
pub proof fn lemma_canonical_skip_first(ps: Seq<Piece>)
    requires
        canonical(ps),
        ps.len() > 0,
    ensures
        canonical(ps.skip(1)),
        flatten(ps).len() > 0,
        ps[0] == first_piece(flatten(ps)),
        ps[0].text.len() == first_len(flatten(ps)),
        flatten(ps) == ps[0].text + flatten(ps.skip(1)),
{
    let t = flatten(ps);
    lemma_flatten_one(ps[0]);
    lemma_flatten_concat(seq![ps[0]], ps.skip(1));
    assert(t.len() > 0);
    let n = first_len(t);
    assert(pieces(t).skip(1) == pieces(t.skip(n)));
    assert(t.skip(n) == flatten(ps.skip(1)));
}

/// A canonical run of pieces without its last piece is canonical.
pub proof fn lemma_canonical_drop_last(ps: Seq<Piece>)
    requires
        canonical(ps),
        ps.len() > 0,
    ensures
        canonical(ps.drop_last()),
    decreases ps.len(),
{
    let front = ps.drop_last();
    if front.len() == 0 {
        assert(front == Seq::<Piece>::empty());
    } else {
        let t = flatten(ps);
        let cut = flatten(front);
        let m = cut.len() as int;
        assert(cut == t.take(m));
        lemma_canonical_skip_first(ps);
        let rest = ps.skip(1);
        lemma_canonical_drop_last(rest);
        assert(rest.drop_last() == front.skip(1));
        // the characters of `front` start with those of its first piece
        assert(seq![front[0]] + front.skip(1) == front);
        let n = ps[0].text.len() as int;
        lemma_escape_len_take(t, m);
        assert(first_piece(cut) == ps[0]) by {
            assert(cut.take(n) =~= t.take(n));
        }
        assert(cut.skip(n) == flatten(front.skip(1)));
    }
}

/// Every run of consecutive pieces of a canonical run is canonical.
pub proof fn lemma_canonical_subrange(ps: Seq<Piece>, from: int, to: int)
    requires
        canonical(ps),
        0 <= from <= to <= ps.len(),
    ensures
        canonical(ps.subrange(from, to)),
    decreases ps.len(),
{
    if to < ps.len() {
        lemma_canonical_drop_last(ps);
        lemma_canonical_subrange(ps.drop_last(), from, to);
        assert(ps.drop_last().subrange(from, to) == ps.subrange(from, to));
    } else if from > 0 {
        lemma_canonical_skip_first(ps);
        lemma_canonical_subrange(ps.skip(1), from - 1, to - 1);
        assert(ps.skip(1).subrange(from - 1, to - 1) == ps.subrange(from, to));
    } else {
        assert(ps.subrange(from, to) == ps);
    }
}

} // verus!
