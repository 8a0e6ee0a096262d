//! Splitting text into characters and terminal escape sequences.
//!
//! An escape sequence starts with the escape character and is one of:
//! a control sequence (`ESC [`, any number of characters from space to `?`,
//! one character from `@` to `~`), an operating system command (`ESC ]`, any
//! number of characters other than escape and bell, then bell or `ESC \`),
//! or a plain sequence (`ESC`, any number of characters from space to `/`,
//! one character from `0` to `~`). An escape character that starts none of
//! these is an ordinary character.

use crate::ansi_proofs::lemma_run_len_skip;
use crate::chars::{char_at, to_chars, to_string};
use vstd::prelude::*;

verus! {

/// The escape character.
pub const ESC: char = '\u{1b}';

/// The bell character.
pub const BEL: char = '\u{7}';

/// The three groups of characters that may fill the middle of an escape
/// sequence.
#[derive(Clone, Copy, Debug, PartialEq, Eq, Structural)]
pub enum Body {
    /// Parameters and intermediates of a control sequence.
    Csi,
    /// Payload of an operating system command.
    Osc,
    /// Intermediates of a plain sequence.
    Intermediate,
}

/// Whether `c` may stand in the middle of a sequence of the given kind.
pub open spec fn spec_in_body(kind: Body, c: char) -> bool {
    match kind {
        Body::Csi => 0x20 <= c as u32 <= 0x3f,
        Body::Osc => c != ESC && c != BEL,
        Body::Intermediate => 0x20 <= c as u32 <= 0x2f,
    }
}

/// Whether `c` ends a control sequence.
pub open spec fn spec_is_csi_final(c: char) -> bool {
    0x40 <= c as u32 <= 0x7e
}

/// Whether `c` ends a plain sequence.
pub open spec fn spec_is_plain_final(c: char) -> bool {
    0x30 <= c as u32 <= 0x7e
}

/// Number of characters of `s`, counted from index `from`, that may stand in
/// the middle of a sequence of the given kind.
pub open spec fn run_len(s: Seq<char>, from: int, kind: Body) -> int
    decreases s.len() - from,
{
    if 0 <= from < s.len() && spec_in_body(kind, s[from]) {
        1 + run_len(s, from + 1, kind)
    } else {
        0
    }
}

/// Length of the escape sequence that `s` starts with, and zero if it starts
/// with none.
pub open spec fn escape_len(s: Seq<char>) -> int {
    if s.len() < 2 || s[0] != ESC {
        0
    } else if s[1] == '[' {
        let k = run_len(s, 2, Body::Csi);
        if 2 + k < s.len() && spec_is_csi_final(s[2 + k]) {
            3 + k
        } else {
            0
        }
    } else if s[1] == ']' {
        let k = run_len(s, 2, Body::Osc);
        if 2 + k < s.len() && s[2 + k] == BEL {
            3 + k
        } else if 3 + k < s.len() && s[2 + k] == ESC && s[3 + k] == '\\' {
            4 + k
        } else {
            0
        }
    } else {
        let k = run_len(s, 1, Body::Intermediate);
        if 1 + k < s.len() && spec_is_plain_final(s[1 + k]) {
            2 + k
        } else {
            0
        }
    }
}

/// One piece of a text: a single character, or a whole escape sequence.
pub struct Piece {
    /// Whether the piece is an escape sequence.
    pub escape: bool,
    /// The characters of the piece: one character, or the whole sequence.
    pub text: Seq<char>,
}

/// Number of characters of the first piece of a text that is not empty.
pub open spec fn first_len(s: Seq<char>) -> int {
    if 0 < escape_len(s) <= s.len() {
        escape_len(s)
    } else {
        1
    }
}

/// The first piece of a text that is not empty.
pub open spec fn first_piece(s: Seq<char>) -> Piece {
    Piece { escape: 0 < escape_len(s) <= s.len(), text: s.take(first_len(s)) }
}

/// The pieces of `s`, from left to right: every escape sequence is one piece,
/// every other character is a piece of its own.
pub open spec fn pieces(s: Seq<char>) -> Seq<Piece>
    decreases s.len(),
{
    if s.len() == 0 {
        Seq::empty()
    } else {
        seq![first_piece(s)] + pieces(s.skip(first_len(s)))
    }
}

/// The characters of all the pieces, in order.
pub open spec fn flatten(ps: Seq<Piece>) -> Seq<char>
    decreases ps.len(),
{
    if ps.len() == 0 {
        Seq::empty()
    } else {
        flatten(ps.drop_last()) + ps.last().text
    }
}

/// Whether splitting the characters of the pieces gives the same pieces
/// back. The pieces of any text are of this kind, and so is every run of
/// consecutive pieces among them.
pub open spec fn canonical(ps: Seq<Piece>) -> bool {
    pieces(flatten(ps)) == ps
}

/// A character of a text, or an escape sequence in it.
#[derive(Clone, Debug, PartialEq, Eq)]
pub enum AnsiAwareChar {
    Char(char),
    AnsiEscapeSequence(String),
}

impl View for AnsiAwareChar {
    type V = Piece;

    open spec fn view(&self) -> Piece {
        match self {
            AnsiAwareChar::Char(c) => Piece { escape: false, text: seq![*c] },
            AnsiAwareChar::AnsiEscapeSequence(t) => Piece { escape: true, text: t@ },
        }
    }
}

/// What a list of characters and escape sequences says, piece by piece.
pub open spec fn pieces_of(v: Seq<AnsiAwareChar>) -> Seq<Piece> {
    v.map_values(|p: AnsiAwareChar| p@)
}

/// Whether `c` may stand in the middle of a sequence of the given kind.
pub fn in_body(kind: Body, c: char) -> (b: bool)
    ensures
        b == spec_in_body(kind, c),
{
    let code: u32 = c as u32;
    match kind {
        Body::Csi => 0x20 <= code && code <= 0x3f,
        Body::Osc => c != ESC && c != BEL,
        Body::Intermediate => 0x20 <= code && code <= 0x2f,
    }
}

/// Number of characters from index `from` on that may stand in the middle
/// of a sequence of the given kind.
pub fn scan_run(chars: &Vec<char>, from: usize, kind: Body) -> (k: usize)
    requires
        from <= chars.len(),
    ensures
        k == run_len(chars@, from as int, kind),
        from + k <= chars.len(),
{
    let mut k: usize = 0;
    while from + k < chars.len() && in_body(kind, chars[from + k])
        invariant
            from + k <= chars.len(),
            run_len(chars@, from as int, kind) == k + run_len(chars@, from + k, kind),
        decreases chars.len() - from - k,
    {
        k = k + 1;
    }
    k
}

/// Length of the escape sequence that starts at index `start`, and zero if
/// none starts there.
pub fn escape_length(chars: &Vec<char>, start: usize) -> (n: usize)
    requires
        start <= chars.len(),
    ensures
        n == escape_len(chars@.skip(start as int)),
        start + n <= chars.len(),
{
    let len = chars.len();
    proof {
        lemma_run_len_skip(chars@, start as int, 2, Body::Csi);
        lemma_run_len_skip(chars@, start as int, 2, Body::Osc);
        lemma_run_len_skip(chars@, start as int, 1, Body::Intermediate);
    }
    if len - start < 2 || chars[start] != ESC {
        return 0;
    }
    let second = chars[start + 1];
    if second == '[' {
        let k = scan_run(chars, start + 2, Body::Csi);
        let end = start + 2 + k;
        if end < len && 0x40 <= chars[end] as u32 && chars[end] as u32 <= 0x7e {
            k + 3
        } else {
            0
        }
    } else if second == ']' {
        let k = scan_run(chars, start + 2, Body::Osc);
        let end = start + 2 + k;
        if end < len && chars[end] == BEL {
            k + 3
        } else if len - end >= 2 && chars[end] == ESC && chars[end + 1] == '\\' {
            k + 4
        } else {
            0
        }
    } else {
        let k = scan_run(chars, start + 1, Body::Intermediate);
        let end = start + 1 + k;
        if end < len && 0x30 <= chars[end] as u32 && chars[end] as u32 <= 0x7e {
            k + 2
        } else {
            0
        }
    }
}

/// Splits a text into its characters and escape sequences.
pub fn ansi_aware_chars(text: &str) -> (list: Vec<AnsiAwareChar>)
    ensures
        pieces_of(list@) == pieces(text@),
{
    let chars = to_chars(text);
    let mut list: Vec<AnsiAwareChar> = Vec::new();
    let mut i: usize = 0;
    assert(chars@.skip(0) == chars@);
    while i < chars.len()
        invariant
            i <= chars.len(),
            chars@ == text@,
            pieces_of(list@) + pieces(chars@.skip(i as int)) == pieces(chars@),
        decreases chars.len() - i,
    {
        let ghost rest = chars@.skip(i as int);
        let n = escape_length(&chars, i);
        if n > 0 {
            let sequence = to_string(&chars, i, i + n);
            assert(sequence@ == rest.take(n as int));
            list.push(AnsiAwareChar::AnsiEscapeSequence(sequence));
            i = i + n;
        } else {
            assert(seq![chars@[i as int]] == rest.take(1));
            list.push(AnsiAwareChar::Char(char_at(&chars, i)));
            i = i + 1;
        }
        assert(chars@.skip(i as int) == rest.skip(first_len(rest)));
    }
    list
}

} // verus!
