//! Visual units: what a text puts on the screen, piece by piece, with the
//! number of columns that each piece takes.

use crate::ansi::{
    ansi_aware_chars, canonical, flatten, pieces, pieces_of, AnsiAwareChar, Piece, ESC,
};
use crate::ansi_proofs::{lemma_flatten_concat, lemma_flatten_one, lemma_pieces_keep_text};
use crate::width::{char_columns, spec_char_columns};
use vstd::prelude::*;

verus! {

/// What a visual unit says: an escape sequence, which takes no column, or a
/// character with the number of columns it takes.
pub struct Unit {
    /// Whether the unit is an escape sequence.
    pub escape: bool,
    /// The characters of the unit.
    pub text: Seq<char>,
    /// The columns that the unit takes; not looked at for an escape sequence.
    pub width: u16,
}

impl Unit {
    /// The unit without its width.
    pub open spec fn piece(self) -> Piece {
        Piece { escape: self.escape, text: self.text }
    }

    /// Whether the unit is a line break.
    pub open spec fn is_newline(self) -> bool {
        !self.escape && self.text == seq!['\n']
    }
}

/// A visual unit of a text.
#[derive(Clone, Debug, PartialEq, Eq)]
pub enum VisualUnit {
    /// A character and the number of columns it takes.
    Printable { ch: char, width: u16 },
    /// An escape sequence, handed to the terminal as it is.
    Control { sequence: String },
}

impl View for VisualUnit {
    type V = Unit;

    open spec fn view(&self) -> Unit {
        match self {
            VisualUnit::Printable { ch, width } => Unit {
                escape: false,
                text: seq![*ch],
                width: *width,
            },
            VisualUnit::Control { sequence } => Unit { escape: true, text: sequence@, width: 0 },
        }
    }
}

/// What a list of visual units says, unit by unit.
pub open spec fn units_of(v: Seq<VisualUnit>) -> Seq<Unit> {
    v.map_values(|u: VisualUnit| u@)
}

/// The units without their widths.
pub open spec fn unit_pieces(us: Seq<Unit>) -> Seq<Piece> {
    us.map_values(|u: Unit| u.piece())
}

/// A piece with the number of columns it takes: none for an escape
/// sequence, the Unicode width for a character.
pub open spec fn measured(p: Piece) -> Unit {
    Unit {
        escape: p.escape,
        text: p.text,
        width: if p.escape {
            0
        } else {
            spec_char_columns(p.text[0])
        },
    }
}

/// The visual units of a text.
pub open spec fn spec_visual_units(s: Seq<char>) -> Seq<Unit> {
    pieces(s).map_values(|p: Piece| measured(p))
}

/// Whether the units are the pieces of the text that they spell, whatever
/// their widths. The visual units of any text are of this kind.
pub open spec fn well_split(us: Seq<Unit>) -> bool {
    canonical(unit_pieces(us))
}

/// Whether `c` is a printable ASCII character.
pub open spec fn printable_ascii(c: char) -> bool {
    0x20 <= c as u32 && (c as u32) < 0x7f
}

/// Whether `c` is a control character: below the space, or from DEL to the
/// end of the C1 controls.
pub open spec fn control_char(c: char) -> bool {
    (c as u32) < 0x20 || (0x7f <= c as u32 && (c as u32) < 0xa0)
}

/// The visual units of a text are the pieces of that text.
pub proof fn lemma_visual_units_well_split(s: Seq<char>)
    ensures
        unit_pieces(spec_visual_units(s)) == pieces(s),
        well_split(spec_visual_units(s)),
{
    lemma_pieces_keep_text(s);
    assert(unit_pieces(spec_visual_units(s)) =~= pieces(s));
}

/// Whether every unit is a single character other than the escape
/// character.
pub open spec fn escape_free(us: Seq<Unit>) -> bool {
    forall|i: int|
        0 <= i < us.len() ==> !(#[trigger] us[i]).escape && us[i].text.len() == 1 && us[i].text[0]
            != ESC
}

/// Units that are single characters, none of them the escape character,
/// are well split.
pub proof fn lemma_escape_free_units_well_split(us: Seq<Unit>)
    requires
        escape_free(us),
    ensures
        well_split(us),
    decreases us.len(),
{
    let ps = unit_pieces(us);
    if us.len() == 0 {
        assert(pieces(flatten(ps)) == ps);
    } else {
        let rest = us.skip(1);
        assert(escape_free(rest)) by {
            assert forall|i: int| 0 <= i < rest.len() implies !(#[trigger] rest[i]).escape
                && rest[i].text.len() == 1 && rest[i].text[0] != ESC by {
            }
        }
        lemma_escape_free_units_well_split(rest);
        assert(unit_pieces(rest) == ps.skip(1));
        assert(seq![ps[0]] + ps.skip(1) == ps);
        lemma_flatten_one(ps[0]);
        lemma_flatten_concat(seq![ps[0]], ps.skip(1));
        let text = flatten(ps);
        assert(text.take(1) == us[0].text);
        assert(text.skip(1) == flatten(ps.skip(1)));
    }
}

/// Splits a text into its visual units and measures each of them.
pub fn visual_units(text: &str) -> (units: Vec<VisualUnit>)
    ensures
        units_of(units@) == spec_visual_units(text@),
        well_split(units_of(units@)),
        forall|i: int|
            0 <= i < units.len() ==> (#[trigger] units[i] matches VisualUnit::Printable {
                ch,
                width,
            } ==> width <= 3 && (printable_ascii(ch) ==> width == 1) && (control_char(ch)
                ==> width == 0)),
{
    let list = ansi_aware_chars(text);
    let mut units: Vec<VisualUnit> = Vec::new();
    let mut i: usize = 0;
    while i < list.len()
        invariant
            i <= list.len(),
            units.len() == i,
            pieces_of(list@) == pieces(text@),
            forall|j: int| 0 <= j < i ==> (#[trigger] units[j])@ == measured(list[j]@),
            forall|j: int|
                0 <= j < i ==> (#[trigger] units[j] matches VisualUnit::Printable {
                    ch,
                    width,
                } ==> width <= 3 && (printable_ascii(ch) ==> width == 1) && (control_char(ch)
                    ==> width == 0)),
        decreases list.len() - i,
    {
        let unit = match &list[i] {
            AnsiAwareChar::Char(c) => VisualUnit::Printable { ch: *c, width: char_columns(*c) },
            AnsiAwareChar::AnsiEscapeSequence(sequence) => VisualUnit::Control {
                sequence: sequence.clone(),
            },
        };
        units.push(unit);
        i = i + 1;
    }
    proof {
        assert forall|j: int| 0 <= j < units.len() implies units_of(units@)[j]
            == spec_visual_units(text@)[j] by {
        }
        lemma_visual_units_well_split(text@);
    }
    units
}

} // verus!
