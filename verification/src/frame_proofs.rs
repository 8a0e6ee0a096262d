//! Proofs that writing keeps a frame well formed.

use crate::ansi::{flatten, pieces};
use crate::ansi_proofs::{lemma_canonical_subrange, lemma_flatten_push};
use crate::frame_model::{is_line_break, tokens_unbroken, unbroken, FrameView, RowView};
use crate::geometry::TerminalSize;
use crate::hasher::absorb_tokens;
use crate::style::{StyleSheet, Token};
use crate::units::{
    lemma_visual_units_well_split, spec_visual_units, unit_pieces, well_split, Unit,
};
use vstd::prelude::*;

verus! {

/// A token without text adds nothing to the hash.
pub proof fn lemma_absorb_empty_token(state: u64, tokens: Seq<Token>, style: StyleSheet)
    ensures
        absorb_tokens(state, tokens.push(Token { text: Seq::empty(), style })) == absorb_tokens(
            state,
            tokens,
        ),
{
    let token = Token { text: Seq::<char>::empty(), style };
    assert(tokens.push(token).drop_last() == tokens);
}

/// The empty frame is well formed.
pub proof fn lemma_fresh_wf(size: TerminalSize)
    ensures
        FrameView::fresh(size).wf(),
{
    let v = FrameView::fresh(size);
    lemma_absorb_empty_token(0, v.pending, v.current.style);
}

/// Breaking the line keeps hash and rows in step, and leaves the current
/// token without text.
pub proof fn lemma_break_line_in_step(v: FrameView)
    requires
        v.hash_in_step(),
        v.rows_in_step(),
        v.text_in_step(),
    ensures
        v.break_line().wf(),
{
    let w = v.break_line();
    lemma_absorb_empty_token(0, Seq::<Token>::empty(), v.current.style);
    if v.current.text.len() == 0 {
        lemma_absorb_empty_token(0, v.pending, v.current.style);
        assert(v.current.text == Seq::<char>::empty());
    }
    assert forall|i: int| 0 <= i < w.rows.len() implies (#[trigger] w.rows[i]).hash
        == absorb_tokens(0, w.rows[i].tokens) && tokens_unbroken(w.rows[i].tokens) by {
        if i == v.rows.len() {
            let tokens = v.closing_tokens();
            assert forall|k: int| 0 <= k < tokens.len() implies unbroken(
                (#[trigger] tokens[k]).text,
            ) by {
                if k < v.pending.len() {
                    assert(tokens[k] == v.pending[k]);
                }
            }
        }
    }
}

/// Closing a row keeps hash and rows in step, and leaves the current token
/// without text.
pub proof fn lemma_commit_row_in_step(v: FrameView)
    requires
        v.hash_in_step(),
        v.rows_in_step(),
        v.text_in_step(),
    ensures
        v.commit_row().wf(),
{
    lemma_absorb_empty_token(0, Seq::<Token>::empty(), v.current.style);
    if v.closing_tokens().len() > 0 {
        lemma_break_line_in_step(v);
    } else {
        lemma_absorb_empty_token(0, v.pending, v.current.style);
        assert(v.current.text == Seq::<char>::empty());
    }
}

/// Appending a unit that is no line break keeps hash and text in step, if
/// the pieces of the text of the current token, with the unit behind it, are
/// the pieces before and the unit.
pub proof fn lemma_append_in_step(v: FrameView, unit: Unit)
    requires
        v.hash_in_step(),
        v.text_in_step(),
        !unit.is_newline(),
        pieces(v.current.text + unit.text) == pieces(v.current.text).push(unit.piece()),
    ensures
        v.append(unit).hash_in_step(),
        v.append(unit).text_in_step(),
{
    let w = v.append(unit);
    assert(v.pending.push(v.current).drop_last() == v.pending);
    assert(w.pending.push(w.current).drop_last() == v.pending);
    assert(pieces(w.current.text).drop_last() == pieces(v.current.text));
    assert forall|k: int| 0 <= k < pieces(w.current.text).len() implies !is_line_break(
        #[trigger] pieces(w.current.text)[k],
    ) by {
        if k < pieces(v.current.text).len() {
            assert(pieces(w.current.text)[k] == pieces(v.current.text)[k]);
        }
    }
}

/// Writing the first `j` of a run of well-split units keeps hash and rows
/// in step. The result `a` is the index of the unit that the current token
/// starts with: the text of the token spells the units from `a` to `j`.
pub proof fn lemma_put_all_in_step(v: FrameView, units: Seq<Unit>, j: int) -> (a: int)
    requires
        v.hash_in_step(),
        v.rows_in_step(),
        v.text_in_step(),
        v.current.text.len() == 0,
        well_split(units),
        0 <= j <= units.len(),
    ensures
        0 <= a <= j,
        v.put_all(units.take(j)).hash_in_step(),
        v.put_all(units.take(j)).rows_in_step(),
        v.put_all(units.take(j)).text_in_step(),
        v.put_all(units.take(j)).current.text == flatten(unit_pieces(units).subrange(a, j)),
    decreases j,
{
    let ps = unit_pieces(units);
    if j == 0 {
        0
    } else {
        let before = lemma_put_all_in_step(v, units, j - 1);
        let w = v.put_all(units.take(j - 1));
        let unit = units[j - 1];
        assert(units.take(j).drop_last() == units.take(j - 1));
        if !unit.escape && unit.is_newline() {
            lemma_break_line_in_step(w);
            j
        } else {
            let closes = !unit.escape && w.overflows(unit.width);
            let base = if closes {
                w.commit_row()
            } else {
                w
            };
            let a = if closes {
                j - 1
            } else {
                before
            };
            if closes {
                lemma_commit_row_in_step(w);
            }
            lemma_canonical_subrange(ps, a, j - 1);
            lemma_canonical_subrange(ps, a, j);
            assert(ps.subrange(a, j) == ps.subrange(a, j - 1).push(unit.piece()));
            lemma_flatten_push(ps.subrange(a, j - 1), unit.piece());
            lemma_append_in_step(base, unit);
            a
        }
    }
}

/// Writing well-split units keeps a frame well formed.
pub proof fn lemma_write_units_wf(v: FrameView, units: Seq<Unit>, style: StyleSheet)
    requires
        v.wf(),
        well_split(units),
    ensures
        v.write_units(units, style).wf(),
{
    if units.len() > 0 {
        let start = FrameView { current: Token { text: v.current.text, style }, ..v };
        lemma_absorb_empty_token(0, v.pending, v.current.style);
        lemma_absorb_empty_token(0, v.pending, style);
        assert(v.current.text == Seq::<char>::empty());
        let _ = lemma_put_all_in_step(start, units, units.len() as int);
        assert(units.take(units.len() as int) == units);
        let done = start.put_all(units);
        if done.current.text.len() > 0 {
            lemma_absorb_empty_token(0, done.pending.push(done.current), StyleSheet::spec_empty());
        }
    }
}

/// Writing a text keeps a frame well formed.
pub proof fn lemma_write_wf(v: FrameView, text: Seq<char>, style: StyleSheet)
    requires
        v.wf(),
    ensures
        v.write(text, style).wf(),
{
    lemma_visual_units_well_split(text);
    lemma_write_units_wf(v, spec_visual_units(text), style);
}

/// Writing tokens keeps a frame well formed.
pub proof fn lemma_write_tokens_wf(v: FrameView, tokens: Seq<Token>)
    requires
        v.wf(),
    ensures
        v.write_tokens(tokens).wf(),
    decreases tokens.len(),
{
    if tokens.len() > 0 {
        lemma_write_tokens_wf(v, tokens.drop_last());
        lemma_write_wf(
            v.write_tokens(tokens.drop_last()),
            tokens.last().text,
            tokens.last().style,
        );
    }
}

/// Writing the tokens of rows keeps a frame well formed.
pub proof fn lemma_write_rows_wf(v: FrameView, rows: Seq<RowView>)
    requires
        v.wf(),
    ensures
        v.write_rows(rows).wf(),
    decreases rows.len(),
{
    if rows.len() > 0 {
        lemma_write_rows_wf(v, rows.drop_last());
        lemma_write_tokens_wf(v.write_rows(rows.drop_last()), rows.last().tokens);
    }
}

/// Fitting a frame to another terminal size keeps it well formed.
pub proof fn law_fitting_keeps_frames_well_formed(v: FrameView, new_size: TerminalSize)
    requires
        v.wf(),
    ensures
        v.fit(new_size).wf(),
{
    if !v.fits(new_size) {
        lemma_fresh_wf(new_size);
        lemma_write_rows_wf(FrameView::fresh(new_size), v.rows);
        lemma_write_tokens_wf(FrameView::fresh(new_size).write_rows(v.rows), v.pending);
    }
}

} // verus!
