//! Colors, text attributes, style sheets and styled tokens.

use vstd::prelude::*;

verus! {

/// A terminal color.
#[derive(Clone, Copy, Debug, PartialEq, Eq, Structural)]
pub enum Color {
    Black,
    LightRed,
    DarkRed,
    LightGreen,
    DarkGreen,
    LightYellow,
    DarkYellow,
    LightBlue,
    DarkBlue,
    LightMagenta,
    DarkMagenta,
    LightCyan,
    DarkCyan,
    White,
    Grey,
    DarkGrey,
    /// A color given by its red, green and blue parts.
    Rgb { r: u8, g: u8, b: u8 },
    /// A color of the 256-color palette.
    AnsiValue(u8),
}

/// A set of text attributes, one bit each.
#[derive(Clone, Copy, Debug, PartialEq, Eq, Structural)]
pub struct Attributes {
    pub bits: u8,
}

/// The bit of the bold attribute.
pub const BOLD_BIT: u8 = 1;

/// The bit of the italic attribute.
pub const ITALIC_BIT: u8 = 2;

impl Attributes {
    /// No attribute.
    pub fn empty() -> (a: Attributes)
        ensures
            a.bits == 0,
    {
        Attributes { bits: 0 }
    }

    /// The bold attribute alone.
    pub fn bold() -> (a: Attributes)
        ensures
            a.bits == BOLD_BIT,
    {
        Attributes { bits: BOLD_BIT }
    }

    /// The italic attribute alone.
    pub fn italic() -> (a: Attributes)
        ensures
            a.bits == ITALIC_BIT,
    {
        Attributes { bits: ITALIC_BIT }
    }

    /// Whether no attribute is set.
    pub fn is_empty(&self) -> (b: bool)
        ensures
            b == (self.bits == 0),
    {
        self.bits == 0
    }

    /// Whether every attribute of `other` is set in `self`.
    pub fn contains(&self, other: Attributes) -> (b: bool)
        ensures
            b == (self.bits & other.bits == other.bits),
    {
        self.bits & other.bits == other.bits
    }

    /// The attributes of `self` together with those of `other`.
    pub fn union(self, other: Attributes) -> (a: Attributes)
        ensures
            a.bits == self.bits | other.bits,
    {
        Attributes { bits: self.bits | other.bits }
    }
}

/// Foreground color, background color and attributes of a piece of text.
#[derive(Clone, Copy, Debug, PartialEq, Eq, Structural)]
pub struct StyleSheet {
    pub fg: Option<Color>,
    pub bg: Option<Color>,
    pub att: Attributes,
}

impl StyleSheet {
    /// The style that changes nothing: no colors, no attributes.
    pub open spec fn spec_empty() -> StyleSheet {
        StyleSheet { fg: None, bg: None, att: Attributes { bits: 0 } }
    }

    /// Whether the style changes nothing.
    pub open spec fn spec_is_empty(&self) -> bool {
        self.fg is None && self.bg is None && self.att.bits == 0
    }

    /// The style that changes nothing.
    pub fn new() -> (s: StyleSheet)
        ensures
            s == StyleSheet::spec_empty(),
    {
        StyleSheet { fg: None, bg: None, att: Attributes::empty() }
    }

    /// The style that changes nothing.
    pub fn empty() -> (s: StyleSheet)
        ensures
            s == StyleSheet::spec_empty(),
    {
        StyleSheet::new()
    }

    /// Whether the style changes nothing.
    #[verifier::when_used_as_spec(spec_is_empty)]
    pub fn is_empty(&self) -> (b: bool)
        ensures
            b == self.spec_is_empty(),
    {
        self.fg.is_none() && self.bg.is_none() && self.att.is_empty()
    }

    /// The same style with the foreground color `fg`.
    pub fn with_fg(self, fg: Color) -> (s: StyleSheet)
        ensures
            s == (StyleSheet { fg: Some(fg), ..self }),
    {
        StyleSheet { fg: Some(fg), bg: self.bg, att: self.att }
    }

    /// The same style with the background color `bg`.
    pub fn with_bg(self, bg: Color) -> (s: StyleSheet)
        ensures
            s == (StyleSheet { bg: Some(bg), ..self }),
    {
        StyleSheet { fg: self.fg, bg: Some(bg), att: self.att }
    }

    /// The same style with the attributes of `att` added.
    pub fn with_attr(self, att: Attributes) -> (s: StyleSheet)
        ensures
            s == (StyleSheet { att: Attributes { bits: self.att.bits | att.bits }, ..self }),
    {
        StyleSheet { fg: self.fg, bg: self.bg, att: self.att.union(att) }
    }
}

/// Number that stands for a color: zero for none, 1 to 16 for the named
/// colors, then the palette colors, then the RGB colors.
pub open spec fn spec_color_code(c: Option<Color>) -> u64 {
    match c {
        None => 0,
        Some(Color::Black) => 1,
        Some(Color::LightRed) => 2,
        Some(Color::DarkRed) => 3,
        Some(Color::LightGreen) => 4,
        Some(Color::DarkGreen) => 5,
        Some(Color::LightYellow) => 6,
        Some(Color::DarkYellow) => 7,
        Some(Color::LightBlue) => 8,
        Some(Color::DarkBlue) => 9,
        Some(Color::LightMagenta) => 10,
        Some(Color::DarkMagenta) => 11,
        Some(Color::LightCyan) => 12,
        Some(Color::DarkCyan) => 13,
        Some(Color::White) => 14,
        Some(Color::Grey) => 15,
        Some(Color::DarkGrey) => 16,
        Some(Color::AnsiValue(v)) => (0x100 + v) as u64,
        Some(Color::Rgb { r, g, b }) => (0x100_0000 + r * 0x1_0000 + g * 0x100 + b) as u64,
    }
}

/// Number that stands for a color.
pub fn color_code(c: Option<Color>) -> (code: u64)
    ensures
        code == spec_color_code(c),
        code < 0x200_0000,
{
    match c {
        None => 0,
        Some(Color::Black) => 1,
        Some(Color::LightRed) => 2,
        Some(Color::DarkRed) => 3,
        Some(Color::LightGreen) => 4,
        Some(Color::DarkGreen) => 5,
        Some(Color::LightYellow) => 6,
        Some(Color::DarkYellow) => 7,
        Some(Color::LightBlue) => 8,
        Some(Color::DarkBlue) => 9,
        Some(Color::LightMagenta) => 10,
        Some(Color::DarkMagenta) => 11,
        Some(Color::LightCyan) => 12,
        Some(Color::DarkCyan) => 13,
        Some(Color::White) => 14,
        Some(Color::Grey) => 15,
        Some(Color::DarkGrey) => 16,
        Some(Color::AnsiValue(v)) => 0x100 + v as u64,
        Some(Color::Rgb { r, g, b }) => 0x100_0000 + r as u64 * 0x1_0000 + g as u64 * 0x100
            + b as u64,
    }
}

/// Number that stands for a style in the content hash of a row: the
/// foreground code, the background code and the attribute bits, side by side.
pub open spec fn spec_style_code(s: StyleSheet) -> u64 {
    (spec_color_code(s.fg) * 0x2_0000_0000 + spec_color_code(s.bg) * 0x100 + s.att.bits) as u64
}

/// Number that stands for a style in the content hash of a row.
pub fn style_code(s: StyleSheet) -> (code: u64)
    ensures
        code == spec_style_code(s),
{
    let fg: u64 = color_code(s.fg);
    let bg: u64 = color_code(s.bg);
    fg * 0x2_0000_0000 + bg * 0x100 + s.att.bits as u64
}

/// Different colors have different codes.
pub proof fn lemma_colors_have_distinct_codes(a: Option<Color>, b: Option<Color>)
    requires
        spec_color_code(a) == spec_color_code(b),
    ensures
        a == b,
{
}

/// Different styles have different codes, so the content hash of a row sees
/// every change of style.
pub proof fn law_styles_have_distinct_codes(a: StyleSheet, b: StyleSheet)
    requires
        spec_style_code(a) == spec_style_code(b),
    ensures
        a == b,
{
    let (fa, ba) = (spec_color_code(a.fg), spec_color_code(a.bg));
    let (fb, bb) = (spec_color_code(b.fg), spec_color_code(b.bg));
    lemma_colors_have_distinct_codes(a.fg, b.fg);
    lemma_colors_have_distinct_codes(a.bg, b.bg);
}

/// A piece of text with the style it is shown in.
#[derive(Clone, Debug, PartialEq, Eq)]
pub struct Styled {
    pub content: String,
    pub style: StyleSheet,
}

/// What a styled token says: its characters and its style.
pub struct Token {
    pub text: Seq<char>,
    pub style: StyleSheet,
}

impl View for Styled {
    type V = Token;

    open spec fn view(&self) -> Token {
        Token { text: self.content@, style: self.style }
    }
}

impl Styled {
    /// The text `content` in the empty style.
    pub fn new(content: &str) -> (t: Styled)
        ensures
            t@ == (Token { text: content@, style: StyleSheet::spec_empty() }),
    {
        Styled { content: content.to_owned(), style: StyleSheet::new() }
    }

    /// The same text in the style `style`.
    pub fn with_style_sheet(self, style: StyleSheet) -> (t: Styled)
        ensures
            t@ == (Token { text: self@.text, style }),
    {
        Styled { content: self.content, style }
    }

    /// The same text with the foreground color `fg`.
    pub fn with_fg(self, fg: Color) -> (t: Styled)
        ensures
            t@ == (Token { text: self@.text, style: StyleSheet { fg: Some(fg), ..self.style } }),
    {
        Styled { content: self.content, style: self.style.with_fg(fg) }
    }

    /// The same text with the background color `bg`.
    pub fn with_bg(self, bg: Color) -> (t: Styled)
        ensures
            t@ == (Token { text: self@.text, style: StyleSheet { bg: Some(bg), ..self.style } }),
    {
        Styled { content: self.content, style: self.style.with_bg(bg) }
    }

    /// The same text with the attributes of `att` added.
    pub fn with_attr(self, att: Attributes) -> (t: Styled)
        ensures
            t@ == (Token {
                text: self@.text,
                style: StyleSheet {
                    att: Attributes { bits: self.style.att.bits | att.bits },
                    ..self.style
                },
            }),
    {
        Styled { content: self.content, style: self.style.with_attr(att) }
    }

    /// The text `content` in the style of `self`.
    pub fn with_content(self, content: &str) -> (t: Styled)
        ensures
            t@ == (Token { text: content@, style: self.style }),
    {
        Styled { content: content.to_owned(), style: self.style }
    }

    /// A copy of the token.
    pub fn duplicate(&self) -> (t: Styled)
        ensures
            t@ == self@,
    {
        Styled { content: self.content.clone(), style: self.style }
    }
}

} // verus!
