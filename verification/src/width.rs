//! Display width of a single character.

use unicode_width::UnicodeWidthChar;
use vstd::prelude::*;

verus! {

/// What `unicode_width::UnicodeWidthChar::width` returns for `c`: the number
/// of columns that the character takes, or `None` for a control character.
pub uninterp spec fn unicode_width_of(c: char) -> Option<usize>;

/// Calls `UnicodeWidthChar::width` of the `unicode-width` crate.
///
/// Trusted: the result is a function of the character alone; the printable
/// ASCII characters take one column, the C0 and C1 control characters and DEL
/// have no width, and no character takes more than three columns.
#[verifier::external_body]
pub(crate) fn unicode_width(c: char) -> (w: Option<usize>)
    ensures
        w == unicode_width_of(c),
        0x20 <= c as u32 && (c as u32) < 0x7f ==> w == Some(1usize),
        (c as u32) < 0x20 || (0x7f <= c as u32 && (c as u32) < 0xa0) ==> w is None,
        w matches Some(n) ==> n <= 3,
{
    UnicodeWidthChar::width(c)
}

/// Number of columns a character advances the cursor by: its Unicode width,
/// and zero where it has none.
pub open spec fn spec_char_columns(c: char) -> u16 {
    match unicode_width_of(c) {
        Some(n) => n as u16,
        None => 0u16,
    }
}

/// Number of columns `c` advances the cursor by.
pub fn char_columns(c: char) -> (w: u16)
    ensures
        w == spec_char_columns(c),
        w <= 3,
        0x20 <= c as u32 && (c as u32) < 0x7f ==> w == 1,
        (c as u32) < 0x20 || (0x7f <= c as u32 && (c as u32) < 0xa0) ==> w == 0,
{
    match unicode_width(c) {
        Some(n) => n as u16,
        None => 0u16,
    }
}

} // verus!
