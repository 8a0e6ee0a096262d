use inquire::command::TerminalCommand;
use inquire::frame::{FrameRow, FrameState};
use inquire::geometry::{Dimension, Position, TerminalSize};
use inquire::style::{Attributes, Color, StyleSheet, Styled};
use inquire::units::{visual_units, VisualUnit};

fn mix(state: u64, word: u64) -> u64 {
    (state.rotate_left(5) ^ word).wrapping_mul(0x517c_c1b7_2722_0a95)
}

fn hash_of(tokens: &[(&str, u64)]) -> u64 {
    let mut state = 0u64;
    for (text, code) in tokens {
        for c in text.chars() {
            state = mix(state, c as u64);
            state = mix(state, 0x1_0000_0000);
            state = mix(state, *code);
        }
    }
    state
}

fn row_texts(frame: &FrameState) -> Vec<String> {
    frame
        .finished_rows()
        .iter()
        .map(|row| row.get_content().iter().map(|t| t.content.as_str()).collect::<String>())
        .collect()
}

fn frame_with(width: u16, height: u16, text: &str) -> FrameState {
    let mut frame = FrameState::new(TerminalSize::new(width, height));
    frame.write(&Styled::new(text));
    frame.finish();
    frame
}

#[test]
fn frame_row_keeps_content_and_hash() {
    let row = FrameRow::new(vec![Styled::new("ab"), Styled::new("cd")], 42);
    assert_eq!(row.hash(), 42);
    assert_eq!(row.get_content().len(), 2);
    assert_eq!(row.get_content()[0].content, "ab");
    assert_eq!(row.get_content()[1].content, "cd");
}

#[test]
fn default_frame_row_is_empty() {
    let row = FrameRow::default();
    assert_eq!(row.hash(), 0);
    assert!(row.get_content().is_empty());
}

#[test]
fn default_position_is_the_origin() {
    assert_eq!(Position::default(), Position { row: 0, col: 0 });
}

#[test]
fn new_frame_is_empty() {
    let frame = FrameState::new(TerminalSize::new(80, 24));
    assert_eq!(frame.terminal_size(), TerminalSize::new(80, 24));
    assert_eq!(frame.frame_size(), Dimension::new(0, 0));
    assert_eq!(frame.cursor_position(), Position { row: 0, col: 0 });
    assert_eq!(frame.expected_cursor_position(), None);
    assert!(frame.finished_rows().is_empty());
}

#[test]
fn empty_frame_has_no_rows() {
    let mut frame = FrameState::new(TerminalSize::new(80, 24));
    frame.finish();
    assert_eq!(frame.finished_rows().len(), 0);
    assert_eq!(frame.cursor_position(), Position { row: 0, col: 0 });
}

#[test]
fn empty_fragment_changes_nothing() {
    let mut frame = FrameState::new(TerminalSize::new(80, 24));
    let red = StyleSheet::new().with_fg(Color::LightRed);
    frame.write(&Styled::new("").with_style_sheet(red));
    frame.finish();
    assert_eq!(frame.finished_rows().len(), 0);
}

#[test]
fn one_line_is_one_row() {
    let frame = frame_with(80, 24, "hello");
    assert_eq!(row_texts(&frame), vec!["hello"]);
    assert_eq!(frame.cursor_position(), Position { row: 1, col: 0 });
    assert_eq!(frame.frame_size(), Dimension::new(5, 1));
}

#[test]
fn cursor_follows_the_text() {
    let mut frame = FrameState::new(TerminalSize::new(80, 24));
    frame.write(&Styled::new("hello"));
    assert_eq!(frame.cursor_position(), Position { row: 0, col: 5 });
    assert!(frame.finished_rows().is_empty());
}

#[test]
fn newline_closes_the_row() {
    let frame = frame_with(80, 24, "ab\ncd\n");
    assert_eq!(row_texts(&frame), vec!["ab", "cd"]);
    assert_eq!(frame.cursor_position(), Position { row: 2, col: 0 });
}

#[test]
fn newline_in_an_empty_row_adds_a_blank_row() {
    let frame = frame_with(80, 24, "ab\n\ncd");
    assert_eq!(row_texts(&frame), vec!["ab", "", "cd"]);
    assert_eq!(frame.cursor_position(), Position { row: 3, col: 0 });
    assert!(frame.finished_rows()[1].get_content().is_empty());
    assert_eq!(frame.finished_rows()[1].hash(), 0);
}

#[test]
fn newline_alone_moves_the_cursor_to_the_next_row() {
    let mut frame = FrameState::new(TerminalSize::new(80, 24));
    frame.write(&Styled::new("\n"));
    assert_eq!(frame.cursor_position(), Position { row: 1, col: 0 });
    assert_eq!(frame.finished_rows().len(), 1);
    frame.finish();
    assert_eq!(frame.finished_rows().len(), 1);
    assert_eq!(frame.cursor_position(), Position { row: 1, col: 0 });
}

#[test]
fn cursor_row_counts_the_rows() {
    let mut frame = FrameState::new(TerminalSize::new(3, 24));
    for text in ["abcd", "\n", "\n\nxy", "\u{1b}[0m\n", "0123456789"] {
        frame.write(&Styled::new(text));
        assert_eq!(frame.cursor_position().row as usize, frame.finished_rows().len());
    }
    frame.finish();
    assert_eq!(frame.cursor_position().row as usize, frame.finished_rows().len());
}

#[test]
fn styled_text_ending_in_newline_leaves_a_styled_row_behind() {
    let mut frame = FrameState::new(TerminalSize::new(80, 24));
    let red = StyleSheet::new().with_fg(Color::LightRed);
    frame.write(&Styled::new("a\n").with_style_sheet(red));
    frame.finish();
    assert_eq!(frame.finished_rows().len(), 2);
    let last = &frame.finished_rows()[1];
    assert_eq!(last.get_content().len(), 1);
    assert_eq!(last.get_content()[0].content, "");
    assert_eq!(last.get_content()[0].style, red);
    assert_eq!(last.hash(), 0);
}

#[test]
fn long_text_wraps_at_the_terminal_width() {
    let frame = frame_with(4, 24, "abcdefghij");
    assert_eq!(row_texts(&frame), vec!["abcd", "efgh", "ij"]);
    assert_eq!(frame.frame_size(), Dimension::new(4, 3));
}

#[test]
fn wrap_gives_rows_rounded_up() {
    for (length, width, rows) in
        [(0usize, 5u16, 0usize), (1, 5, 1), (5, 5, 1), (6, 5, 2), (10, 5, 2), (11, 5, 3), (7, 1, 7)]
    {
        let text = "x".repeat(length);
        let frame = frame_with(width, 24, &text);
        assert_eq!(frame.finished_rows().len(), rows, "{length} characters in {width} columns");
        assert_eq!(row_texts(&frame).concat(), text);
    }
}

#[test]
fn full_row_wraps_only_when_more_comes() {
    let mut frame = FrameState::new(TerminalSize::new(4, 24));
    frame.write(&Styled::new("abcd"));
    assert_eq!(frame.cursor_position(), Position { row: 0, col: 4 });
    assert!(frame.finished_rows().is_empty());
    frame.write(&Styled::new("e"));
    assert_eq!(frame.cursor_position(), Position { row: 1, col: 1 });
    assert_eq!(frame.finished_rows().len(), 1);
}

#[test]
fn wide_character_that_does_not_fit_goes_to_the_next_row() {
    let frame = frame_with(3, 24, "ab\u{4e16}");
    assert_eq!(row_texts(&frame), vec!["ab", "\u{4e16}"]);
    assert_eq!(frame.frame_size(), Dimension::new(2, 2));
}

#[test]
fn escape_sequences_take_no_column_and_stay_in_the_text() {
    let mut frame = FrameState::new(TerminalSize::new(4, 24));
    frame.write(&Styled::new("\u{1b}[1mabcd\u{1b}[0m"));
    assert_eq!(frame.cursor_position(), Position { row: 0, col: 4 });
    frame.finish();
    assert_eq!(row_texts(&frame), vec!["\u{1b}[1mabcd\u{1b}[0m"]);
}

#[test]
fn escape_sequences_count_in_the_hash() {
    let plain = frame_with(80, 24, "abc");
    let bold = frame_with(80, 24, "\u{1b}[1mabc");
    assert_ne!(plain.finished_rows()[0].hash(), bold.finished_rows()[0].hash());
}

#[test]
fn row_hash_is_the_fx_hash_of_text_and_style() {
    let frame = frame_with(80, 24, "a");
    assert_eq!(frame.finished_rows()[0].hash(), 0x03f7_83d8_8964_2552);
    let frame = frame_with(80, 24, "hello");
    assert_eq!(frame.finished_rows()[0].hash(), 0xb2e8_f384_114d_1290);
    assert_eq!(frame.finished_rows()[0].hash(), hash_of(&[("hello", 0)]));
}

#[test]
fn row_hash_sees_the_style() {
    let red = StyleSheet::new().with_fg(Color::LightRed);
    let mut frame = FrameState::new(TerminalSize::new(80, 24));
    frame.write(&Styled::new("a").with_style_sheet(red));
    frame.finish();
    assert_eq!(frame.finished_rows()[0].hash(), 0x676f_5984_8964_2552);
    assert_eq!(frame.finished_rows()[0].hash(), hash_of(&[("a", 2 * 0x2_0000_0000)]));
}

#[test]
fn row_hash_depends_on_content_alone() {
    // the same row, written in one piece and in two, in second and in first place
    let mut first = FrameState::new(TerminalSize::new(80, 24));
    first.write(&Styled::new("top\nsame row"));
    first.finish();
    let mut second = FrameState::new(TerminalSize::new(40, 10));
    second.write(&Styled::new("same "));
    second.write(&Styled::new("row"));
    second.finish();
    assert_eq!(first.finished_rows()[1].hash(), second.finished_rows()[0].hash());
    assert_eq!(second.finished_rows()[0].hash(), hash_of(&[("same row", 0)]));
}

#[test]
fn wrapped_rows_hash_their_own_characters() {
    let frame = frame_with(2, 24, "abcd");
    assert_eq!(frame.finished_rows()[0].hash(), hash_of(&[("ab", 0)]));
    assert_eq!(frame.finished_rows()[1].hash(), hash_of(&[("cd", 0)]));
}

#[test]
fn tokens_keep_their_styles() {
    let bold = StyleSheet::new().with_attr(Attributes::bold());
    let mut frame = FrameState::new(TerminalSize::new(80, 24));
    frame.write(&Styled::new("a"));
    frame.write(&Styled::new("b").with_style_sheet(bold));
    frame.finish();
    let row = &frame.finished_rows()[0];
    assert_eq!(row.get_content().len(), 2);
    assert_eq!(row.get_content()[0], Styled::new("a"));
    assert_eq!(row.get_content()[1], Styled::new("b").with_style_sheet(bold));
}

#[test]
fn mark_cursor_position_on_the_same_row() {
    let mut frame = FrameState::new(TerminalSize::new(10, 24));
    frame.write(&Styled::new("abc"));
    frame.mark_cursor_position(4);
    assert_eq!(frame.expected_cursor_position(), Some(Position { row: 0, col: 7 }));
    assert_eq!(frame.cursor_position(), Position { row: 0, col: 3 });
}

#[test]
fn mark_cursor_position_wraps_to_the_next_row() {
    for (written, offset, width, row, col) in
        [(3usize, 7isize, 10u16, 1u16, 0u16), (3, 9, 10, 1, 2), (10, 0, 10, 1, 0), (12, 9, 10, 2, 1)]
    {
        let mut frame = FrameState::new(TerminalSize::new(width, 24));
        frame.write(&Styled::new(&"x".repeat(written)));
        frame.mark_cursor_position(offset);
        let total = written as u16 + offset as u16;
        assert_eq!((row, col), (total / width, total % width));
        assert_eq!(frame.expected_cursor_position(), Some(Position { row, col }));
    }
}

#[test]
fn mark_cursor_position_wraps_as_often_as_the_width_fits() {
    let mut frame = FrameState::new(TerminalSize::new(10, 24));
    frame.write(&Styled::new("abcde"));
    frame.mark_cursor_position(20);
    assert_eq!(frame.expected_cursor_position(), Some(Position { row: 2, col: 5 }));
    frame.mark_cursor_position(95);
    assert_eq!(frame.expected_cursor_position(), Some(Position { row: 10, col: 0 }));
}

#[test]
fn mark_cursor_position_in_a_terminal_without_columns() {
    let mut frame = FrameState::new(TerminalSize::new(0, 24));
    frame.mark_cursor_position(3);
    assert_eq!(frame.expected_cursor_position(), Some(Position { row: 1, col: 3 }));
}

#[test]
fn fit_to_a_larger_terminal_keeps_the_rows() {
    let mut frame = frame_with(4, 24, "abcdefghij");
    frame.fit_to_terminal(TerminalSize::new(40, 30));
    assert_eq!(frame.terminal_size(), TerminalSize::new(40, 30));
    assert_eq!(row_texts(&frame), vec!["abcd", "efgh", "ij"]);
}

#[test]
fn fit_to_a_narrower_terminal_wraps_anew() {
    for (length, old_width, new_width) in [(10usize, 10u16, 4u16), (8, 20, 4), (5, 5, 1), (9, 10, 8)] {
        let text: String = ('a'..='z').take(length).collect();
        let mut frame = frame_with(old_width, 24, &text);
        assert_eq!(frame.finished_rows().len(), 1);
        frame.fit_to_terminal(TerminalSize::new(new_width, 24));
        frame.finish();
        let rows = (length + new_width as usize - 1) / new_width as usize;
        assert_eq!(frame.finished_rows().len(), rows);
        assert_eq!(row_texts(&frame).concat(), text);
    }
}

#[test]
fn fit_to_a_narrower_terminal_leaves_the_last_row_open() {
    let mut frame = frame_with(10, 24, "abcdefghij");
    frame.fit_to_terminal(TerminalSize::new(4, 24));
    assert_eq!(row_texts(&frame), vec!["abcd", "efgh"]);
    assert_eq!(frame.cursor_position(), Position { row: 2, col: 2 });
}

#[test]
fn fit_to_a_narrower_terminal_keeps_escape_sequences() {
    let text = "\u{1b}[31mabcdef\u{1b}[0m";
    let mut frame = frame_with(10, 24, text);
    frame.fit_to_terminal(TerminalSize::new(4, 24));
    frame.finish();
    assert_eq!(row_texts(&frame), vec!["\u{1b}[31mabcd", "ef\u{1b}[0m"]);
}

fn styled_chars(frame: &FrameState) -> Vec<(char, StyleSheet)> {
    frame
        .finished_rows()
        .iter()
        .flat_map(|row| row.get_content().iter())
        .flat_map(|token| token.content.chars().map(|c| (c, token.style)))
        .collect()
}

#[test]
fn fit_keeps_every_character_in_its_style() {
    let red = StyleSheet::new().with_fg(Color::LightRed);
    let bold = StyleSheet::new().with_attr(Attributes::bold());
    for (width, height) in [(3u16, 24u16), (2, 24), (1, 24), (40, 1), (5, 2), (40, 24)] {
        let mut frame = FrameState::new(TerminalSize::new(12, 24));
        frame.write(&Styled::new("ab").with_style_sheet(red));
        frame.write(&Styled::new("\u{4e16}\u{754c}c\n"));
        frame.write(&Styled::new("\u{1b}[4mdef\u{301}gh\n\n").with_style_sheet(bold));
        frame.write(&Styled::new("0123456789abcdef"));
        frame.finish();
        let before = styled_chars(&frame);
        assert_eq!(before.len(), 2 + 3 + 4 + 6 + 16);
        frame.fit_to_terminal(TerminalSize::new(width, height));
        frame.finish();
        assert_eq!(styled_chars(&frame), before, "fitted to {width} by {height}");
    }
}

#[test]
fn fit_to_a_lower_terminal_writes_anew() {
    let mut frame = frame_with(10, 24, "ab\ncd\nef");
    frame.fit_to_terminal(TerminalSize::new(10, 2));
    frame.finish();
    assert_eq!(row_texts(&frame), vec!["abcdef"]);
}

#[test]
fn write_units_places_units_by_their_widths() {
    let mut frame = FrameState::new(TerminalSize::new(4, 24));
    let units = vec![
        VisualUnit::Printable { ch: 'a', width: 2 },
        VisualUnit::Printable { ch: 'b', width: 2 },
        VisualUnit::Printable { ch: 'c', width: 1 },
    ];
    frame.write_units(&units, StyleSheet::new());
    assert_eq!(frame.cursor_position(), Position { row: 1, col: 1 });
    frame.finish();
    assert_eq!(row_texts(&frame), vec!["ab", "c"]);
}

#[test]
fn write_is_write_units_of_the_visual_units() {
    let text = "ab\u{1b}[1m\u{4e16}\ncd";
    let mut written = FrameState::new(TerminalSize::new(3, 24));
    written.write(&Styled::new(text));
    written.finish();
    let mut placed = FrameState::new(TerminalSize::new(3, 24));
    placed.write_units(&visual_units(text), StyleSheet::new());
    placed.finish();
    assert_eq!(row_texts(&written), row_texts(&placed));
    assert_eq!(row_texts(&written), vec!["ab\u{1b}[1m", "\u{4e16}", "cd"]);
}

#[test]
fn write_all_writes_token_after_token() {
    let mut frame = FrameState::new(TerminalSize::new(80, 24));
    frame.write_all(&[Styled::new("ab"), Styled::new("cd\n"), Styled::new("ef")]);
    frame.finish();
    assert_eq!(row_texts(&frame), vec!["abcd", "ef"]);
}

#[test]
fn cursor_is_placed_at_the_mark() {
    let mut frame = FrameState::new(TerminalSize::new(10, 24));
    frame.write(&Styled::new("ab"));
    frame.mark_cursor_position(1);
    frame.write(&Styled::new("cd\nef\n"));
    frame.finish();
    assert_eq!(frame.cursor_position(), Position { row: 2, col: 0 });
    let commands = frame.placement_commands();
    frame.settle_cursor();
    assert_eq!(
        commands,
        vec![
            TerminalCommand::CursorUp(2),
            TerminalCommand::CursorMoveToColumn(3),
            TerminalCommand::CursorShow,
            TerminalCommand::Flush,
        ]
    );
    assert_eq!(frame.cursor_position(), Position { row: 0, col: 3 });
    assert_eq!(
        frame.end_position_commands(),
        vec![TerminalCommand::CursorMoveToColumn(0), TerminalCommand::CursorDown(2)]
    );
}

#[test]
fn frame_without_a_mark_places_no_cursor() {
    let mut frame = frame_with(10, 24, "ab");
    assert!(frame.placement_commands().is_empty());
    frame.settle_cursor();
    assert_eq!(frame.cursor_position(), Position { row: 1, col: 0 });
}
