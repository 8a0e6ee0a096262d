//! Render operations: what a widget asks of a frame, as data. A widget is
//! described by the list of operations that it performs.

use crate::frame_model::FrameView;
use crate::frame_proofs::lemma_write_wf;
use crate::style::{StyleSheet, Token};
use vstd::prelude::*;

verus! {

/// One operation on the frame that is being written.
pub enum RenderOp {
    /// Write a token.
    Write(Token),
    /// Mark the place so many columns after the cursor as the place where
    /// the cursor is to be shown.
    MarkCursor(isize),
}

/// The operation that writes `text` without style.
pub open spec fn plain(text: Seq<char>) -> RenderOp {
    RenderOp::Write(Token { text, style: StyleSheet::spec_empty() })
}

/// The operation that writes `text` in the given style.
pub open spec fn styled(text: Seq<char>, style: StyleSheet) -> RenderOp {
    RenderOp::Write(Token { text, style })
}

/// The operation that writes a space without style.
pub open spec fn space() -> RenderOp {
    plain(seq![' '])
}

/// The operation that ends the line.
pub open spec fn new_line() -> RenderOp {
    plain(seq!['\n'])
}

impl FrameView {
    /// The frame after one operation.
    #[verifier::opaque]
    pub open spec fn apply(self, op: RenderOp) -> FrameView {
        match op {
            RenderOp::Write(token) => self.write(token.text, token.style),
            RenderOp::MarkCursor(offset) => self.mark_cursor(offset),
        }
    }

    /// The frame after the operations, one after the other.
    #[verifier::opaque]
    pub open spec fn apply_all(self, ops: Seq<RenderOp>) -> FrameView
        decreases ops.len(),
    {
        if ops.len() == 0 {
            self
        } else {
            self.apply_all(ops.drop_last()).apply(ops.last())
        }
    }
}

/// No operation changes nothing.
pub proof fn lemma_apply_none(v: FrameView)
    ensures
        v.apply_all(Seq::empty()) == v,
{
    reveal_with_fuel(FrameView::apply_all, 1);
}

/// What writing a token does to a frame.
pub proof fn lemma_apply_write(v: FrameView, token: Token)
    ensures
        v.apply(RenderOp::Write(token)) == v.write(token.text, token.style),
{
    reveal(FrameView::apply);
}

/// What marking the cursor does to a frame.
pub proof fn lemma_apply_mark(v: FrameView, offset: isize)
    ensures
        v.apply(RenderOp::MarkCursor(offset)) == v.mark_cursor(offset),
{
    reveal(FrameView::apply);
}

/// A list of one operation is that operation.
pub proof fn lemma_apply_one(v: FrameView, op: RenderOp)
    ensures
        v.apply_all(seq![op]) == v.apply(op),
{
    reveal_with_fuel(FrameView::apply_all, 2);
}

/// Two lists of operations, one after the other.
pub proof fn lemma_apply_concat(v: FrameView, a: Seq<RenderOp>, b: Seq<RenderOp>)
    ensures
        v.apply_all(a + b) == v.apply_all(a).apply_all(b),
    decreases b.len(),
{
    reveal_with_fuel(FrameView::apply_all, 1);
    if b.len() > 0 {
        assert((a + b).drop_last() == a + b.drop_last());
        lemma_apply_concat(v, a, b.drop_last());
    }
}

/// Operations keep a frame well formed.
pub proof fn law_operations_keep_frames_well_formed(v: FrameView, ops: Seq<RenderOp>)
    requires
        v.wf(),
    ensures
        v.apply_all(ops).wf(),
    decreases ops.len(),
{
    reveal_with_fuel(FrameView::apply_all, 1);
    reveal(FrameView::apply);
    if ops.len() > 0 {
        law_operations_keep_frames_well_formed(v, ops.drop_last());
        match ops.last() {
            RenderOp::Write(token) => {
                lemma_write_wf(v.apply_all(ops.drop_last()), token.text, token.style);
            },
            RenderOp::MarkCursor(_) => {},
        }
    }
}

} // verus!
