//! The content hash of a row, computed by the Fx hasher of the `fxhash`
//! crate: every piece of the row goes into the hash with the style it is
//! shown in, so that rows with the same hash show the same, as far as a hash
//! can tell.

use crate::ansi::{pieces, Piece};
use crate::style::{spec_style_code, Token};
use fxhash::FxHasher64;
use std::hash::Hasher;
use vstd::prelude::*;

verus! {

/// The hasher `fxhash::FxHasher64`, which computes with 64 bits on every
/// machine.
#[verifier::external_type_specification]
#[verifier::external_body]
pub struct ExFxHasher64(FxHasher64);

/// The 64-bit state that an Fx hasher holds: all that it knows of what
/// went into it.
pub uninterp spec fn hasher_state(h: FxHasher64) -> u64;

/// One round of the Fx hash: rotate the state left by five bits, xor the
/// word in, and multiply by the Fx seed, modulo 2^64.
pub open spec fn fx_mix(state: u64, word: u64) -> u64 {
    ((((state << 5) | (state >> 59)) ^ word) as int * 0x517c_c1b7_2722_0a95) as u64
}

/// Calls `FxHasher64::default`.
///
/// Trusted: a new hasher starts from state zero.
#[verifier::external_body]
pub(crate) fn new_hasher() -> (h: FxHasher64)
    ensures
        hasher_state(h) == 0,
{
    FxHasher64::default()
}

/// Calls `FxHasher64::write_u64`.
///
/// Trusted: the state advances by one Fx round over `word`.
#[verifier::external_body]
pub(crate) fn feed_word(h: &mut FxHasher64, word: u64)
    ensures
        hasher_state(*final(h)) == fx_mix(hasher_state(*old(h)), word),
{
    h.write_u64(word)
}

/// Calls `FxHasher64::finish`.
///
/// Trusted: the digest is the state itself.
#[verifier::external_body]
pub(crate) fn digest(h: &FxHasher64) -> (d: u64)
    ensures
        d == hasher_state(*h),
{
    h.finish()
}

/// The word that follows the characters of a piece in the hash, and tells
/// an escape sequence from a character.
pub open spec fn spec_kind_word(escape: bool) -> u64 {
    if escape {
        0x1_0000_0001
    } else {
        0x1_0000_0000
    }
}

/// The state after the characters of `text` went into the hash, one word
/// each.
pub open spec fn absorb_text(state: u64, text: Seq<char>) -> u64
    decreases text.len(),
{
    if text.len() == 0 {
        state
    } else {
        fx_mix(absorb_text(state, text.drop_last()), text.last() as u64)
    }
}

/// The state after one piece went into the hash: its characters, the word
/// for its kind, and the code of the style it is shown in.
pub open spec fn absorb_piece(state: u64, piece: Piece, code: u64) -> u64 {
    fx_mix(fx_mix(absorb_text(state, piece.text), spec_kind_word(piece.escape)), code)
}

/// The state after a run of pieces went into the hash, all in one style.
pub open spec fn absorb_pieces(state: u64, ps: Seq<Piece>, code: u64) -> u64
    decreases ps.len(),
{
    if ps.len() == 0 {
        state
    } else {
        absorb_piece(absorb_pieces(state, ps.drop_last(), code), ps.last(), code)
    }
}

/// The state after a token went into the hash: the pieces of its text, in
/// its style. A token without text leaves the state as it is.
pub open spec fn absorb_token(state: u64, token: Token) -> u64 {
    absorb_pieces(state, pieces(token.text), spec_style_code(token.style))
}

/// The state after a run of tokens went into the hash.
pub open spec fn absorb_tokens(state: u64, tokens: Seq<Token>) -> u64
    decreases tokens.len(),
{
    if tokens.len() == 0 {
        state
    } else {
        absorb_token(absorb_tokens(state, tokens.drop_last()), tokens.last())
    }
}

/// The content hash of a row: a function of the text and the style of its
/// tokens, and of nothing else.
pub open spec fn row_digest(tokens: Seq<Token>) -> u64 {
    absorb_tokens(0, tokens)
}

/// Feeds the characters of `text` into the hash.
pub(crate) fn feed_text(h: &mut FxHasher64, text: &str)
    ensures
        hasher_state(*final(h)) == absorb_text(hasher_state(*old(h)), text@),
{
    for c in it: text.chars()
        invariant
            it.seq() == text@,
            hasher_state(*h) == absorb_text(hasher_state(*old(h)), text@.take(it.index() as int)),
    {
        assert(text@.take(it.index() + 1).drop_last() == text@.take(it.index() as int));
        feed_word(h, c as u64);
    }
    assert(text@.take(text@.len() as int) == text@);
}

/// Feeds a single character, shown in the style with code `code`, into the
/// hash.
pub(crate) fn feed_char(h: &mut FxHasher64, c: char, code: u64)
    ensures
        hasher_state(*final(h)) == absorb_piece(
            hasher_state(*old(h)),
            Piece { escape: false, text: seq![c] },
            code,
        ),
{
    assert(seq![c].drop_last() == Seq::<char>::empty());
    assert(absorb_text(hasher_state(*old(h)), seq![c]) == fx_mix(hasher_state(*old(h)), c as u64))
        by {
        assert(absorb_text(hasher_state(*old(h)), Seq::<char>::empty()) == hasher_state(*old(h)));
    }
    feed_word(h, c as u64);
    feed_word(h, 0x1_0000_0000);
    feed_word(h, code);
}

/// Feeds an escape sequence, met in the style with code `code`, into the
/// hash.
pub(crate) fn feed_escape(h: &mut FxHasher64, sequence: &str, code: u64)
    ensures
        hasher_state(*final(h)) == absorb_piece(
            hasher_state(*old(h)),
            Piece { escape: true, text: sequence@ },
            code,
        ),
{
    feed_text(h, sequence);
    feed_word(h, 0x1_0000_0001);
    feed_word(h, code);
}

} // verus!
