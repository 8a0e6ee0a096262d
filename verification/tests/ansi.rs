use inquire::ansi::{ansi_aware_chars, escape_length, scan_run, AnsiAwareChar, Body};
use inquire::chars::{char_at, to_chars, to_string};
use inquire::units::{visual_units, VisualUnit};
use inquire::width::char_columns;

fn escape(text: &str) -> AnsiAwareChar {
    AnsiAwareChar::AnsiEscapeSequence(text.to_string())
}

#[test]
fn plain_text_is_split_into_characters() {
    assert_eq!(
        ansi_aware_chars("ab\n"),
        vec![AnsiAwareChar::Char('a'), AnsiAwareChar::Char('b'), AnsiAwareChar::Char('\n')]
    );
    assert!(ansi_aware_chars("").is_empty());
}

#[test]
fn control_sequence_is_one_piece() {
    assert_eq!(
        ansi_aware_chars("a\u{1b}[1;31mb"),
        vec![AnsiAwareChar::Char('a'), escape("\u{1b}[1;31m"), AnsiAwareChar::Char('b')]
    );
    assert_eq!(ansi_aware_chars("\u{1b}[m"), vec![escape("\u{1b}[m")]);
}

#[test]
fn operating_system_command_ends_with_bell_or_string_terminator() {
    assert_eq!(
        ansi_aware_chars("\u{1b}]0;title\u{7}x"),
        vec![escape("\u{1b}]0;title\u{7}"), AnsiAwareChar::Char('x')]
    );
    assert_eq!(
        ansi_aware_chars("\u{1b}]8;;http://a\u{1b}\\x"),
        vec![escape("\u{1b}]8;;http://a\u{1b}\\"), AnsiAwareChar::Char('x')]
    );
}

#[test]
fn plain_escape_sequences_are_one_piece() {
    assert_eq!(ansi_aware_chars("\u{1b}7"), vec![escape("\u{1b}7")]);
    assert_eq!(ansi_aware_chars("\u{1b}(B!"), vec![escape("\u{1b}(B"), AnsiAwareChar::Char('!')]);
}

#[test]
fn unfinished_escape_sequence_is_ordinary_text() {
    assert_eq!(
        ansi_aware_chars("\u{1b}[12"),
        vec![
            AnsiAwareChar::Char('\u{1b}'),
            AnsiAwareChar::Char('['),
            AnsiAwareChar::Char('1'),
            AnsiAwareChar::Char('2'),
        ]
    );
    assert_eq!(ansi_aware_chars("\u{1b}"), vec![AnsiAwareChar::Char('\u{1b}')]);
    assert_eq!(
        ansi_aware_chars("\u{1b}\n"),
        vec![AnsiAwareChar::Char('\u{1b}'), AnsiAwareChar::Char('\n')]
    );
    assert_eq!(
        ansi_aware_chars("\u{1b}]0;t"),
        vec![
            AnsiAwareChar::Char('\u{1b}'),
            AnsiAwareChar::Char(']'),
            AnsiAwareChar::Char('0'),
            AnsiAwareChar::Char(';'),
            AnsiAwareChar::Char('t'),
        ]
    );
}

#[test]
fn escape_length_counts_the_whole_sequence() {
    let chars = to_chars("ab\u{1b}[31mcd");
    assert_eq!(escape_length(&chars, 0), 0);
    assert_eq!(escape_length(&chars, 2), 5);
    assert_eq!(escape_length(&chars, 3), 0);
    assert_eq!(escape_length(&chars, chars.len()), 0);
}

#[test]
fn scan_run_stops_at_the_first_other_character() {
    let chars = to_chars("12;3m");
    assert_eq!(scan_run(&chars, 0, Body::Csi), 4);
    assert_eq!(scan_run(&chars, 4, Body::Csi), 0);
    assert_eq!(scan_run(&chars, 0, Body::Osc), 5);
    assert_eq!(scan_run(&chars, 0, Body::Intermediate), 0);
}

#[test]
fn characters_and_strings_convert_back_and_forth() {
    let chars = to_chars("h\u{e9}llo");
    assert_eq!(chars, vec!['h', '\u{e9}', 'l', 'l', 'o']);
    assert_eq!(to_string(&chars, 1, 4), "\u{e9}ll");
    assert_eq!(to_string(&chars, 2, 2), "");
    assert_eq!(char_at(&chars, 1), '\u{e9}');
}

#[test]
fn pieces_spell_the_text() {
    let text = "a\u{1b}[1mb\u{1b}c\u{1b}]x\u{7}\u{1b}";
    let spelled: String = ansi_aware_chars(text)
        .iter()
        .map(|piece| match piece {
            AnsiAwareChar::Char(c) => c.to_string(),
            AnsiAwareChar::AnsiEscapeSequence(sequence) => sequence.clone(),
        })
        .collect();
    assert_eq!(spelled, text);
}

#[test]
fn characters_have_their_unicode_width() {
    assert_eq!(char_columns('a'), 1);
    assert_eq!(char_columns(' '), 1);
    assert_eq!(char_columns('~'), 1);
    assert_eq!(char_columns('\u{4e16}'), 2);
    assert_eq!(char_columns('\u{301}'), 0);
    assert_eq!(char_columns('\n'), 0);
    assert_eq!(char_columns('\u{1b}'), 0);
    assert_eq!(char_columns('\u{7f}'), 0);
    assert_eq!(char_columns('\u{9f}'), 0);
    assert_eq!(char_columns('\u{17d8}'), 3);
}

#[test]
fn visual_units_carry_widths() {
    assert_eq!(
        visual_units("a\u{4e16}\u{1b}[0m\n"),
        vec![
            VisualUnit::Printable { ch: 'a', width: 1 },
            VisualUnit::Printable { ch: '\u{4e16}', width: 2 },
            VisualUnit::Control { sequence: "\u{1b}[0m".to_string() },
            VisualUnit::Printable { ch: '\n', width: 0 },
        ]
    );
}
