use inquire::style::{color_code, style_code, Attributes, Color, StyleSheet, Styled};

#[test]
fn empty_style_sheet_is_empty() {
    assert!(StyleSheet::new().is_empty());
    assert!(StyleSheet::empty().is_empty());
    assert!(!StyleSheet::new().with_fg(Color::Black).is_empty());
    assert!(!StyleSheet::new().with_bg(Color::White).is_empty());
    assert!(!StyleSheet::new().with_attr(Attributes::italic()).is_empty());
}

#[test]
fn attributes_are_bits() {
    let both = Attributes::bold().union(Attributes::italic());
    assert_eq!(both.bits, 3);
    assert!(both.contains(Attributes::bold()));
    assert!(both.contains(Attributes::italic()));
    assert!(!Attributes::bold().contains(Attributes::italic()));
    assert!(Attributes::empty().is_empty());
    assert!(!both.is_empty());
    let style = StyleSheet::new().with_attr(Attributes::bold()).with_attr(Attributes::italic());
    assert_eq!(style.att, both);
}

#[test]
fn color_codes_are_distinct() {
    assert_eq!(color_code(None), 0);
    assert_eq!(color_code(Some(Color::Black)), 1);
    assert_eq!(color_code(Some(Color::DarkGrey)), 16);
    assert_eq!(color_code(Some(Color::AnsiValue(0))), 0x100);
    assert_eq!(color_code(Some(Color::AnsiValue(255))), 0x1ff);
    assert_eq!(color_code(Some(Color::Rgb { r: 0, g: 0, b: 0 })), 0x100_0000);
    assert_eq!(color_code(Some(Color::Rgb { r: 1, g: 2, b: 3 })), 0x101_0203);
}

#[test]
fn style_code_holds_colors_and_attributes_side_by_side() {
    assert_eq!(style_code(StyleSheet::new()), 0);
    let style = StyleSheet::new()
        .with_fg(Color::LightRed)
        .with_bg(Color::AnsiValue(7))
        .with_attr(Attributes::italic());
    assert_eq!(style_code(style), 2 * 0x2_0000_0000 + 0x107 * 0x100 + 2);
    let brightest = StyleSheet::new()
        .with_fg(Color::Rgb { r: 255, g: 255, b: 255 })
        .with_bg(Color::Rgb { r: 255, g: 255, b: 255 })
        .with_attr(Attributes { bits: 255 });
    assert_eq!(style_code(brightest), 0x1ff_ffff * 0x2_0000_0000 + 0x1ff_ffff * 0x100 + 255);
}

#[test]
fn styled_builders() {
    let token = Styled::new("hi");
    assert_eq!(token.content, "hi");
    assert!(token.style.is_empty());
    let red = StyleSheet::new().with_fg(Color::DarkRed);
    assert_eq!(Styled::new("hi").with_style_sheet(red).style, red);
    assert_eq!(Styled::new("hi").with_fg(Color::DarkRed).style, red);
    assert_eq!(Styled::new("hi").with_bg(Color::Grey).style.bg, Some(Color::Grey));
    assert_eq!(Styled::new("hi").with_attr(Attributes::bold()).style.att, Attributes::bold());
    let other = Styled::new("hi").with_style_sheet(red).with_content("ho");
    assert_eq!(other.content, "ho");
    assert_eq!(other.style, red);
    assert_eq!(other.duplicate(), other);
}
