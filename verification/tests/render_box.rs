use inquire::command::{line_advance, TerminalCommand};
use inquire::geometry::{Position, TerminalSize};
use inquire::render_box::{push_paint, push_row_commands, UntitledRenderBoxAbstraction};
use inquire::style::{Color, StyleSheet, Styled};

use TerminalCommand::{
    ClearCurrentLine, ClearUntilNewLine, CursorDown, CursorHide, CursorMoveToColumn, CursorShow,
    CursorUp, Flush, Write, WriteStyled,
};

fn size() -> TerminalSize {
    TerminalSize::new(20, 10)
}

fn newline() -> TerminalCommand {
    Write("\n".to_string())
}

fn token(text: &str) -> TerminalCommand {
    WriteStyled(Styled::new(text))
}

fn redraw(render_box: &mut UntitledRenderBoxAbstraction, size: TerminalSize) -> Vec<TerminalCommand> {
    let commands = render_box.finish_current_frame(size);
    render_box.swap_frames(size);
    commands
}

fn draw(render_box: &mut UntitledRenderBoxAbstraction, text: &str) -> Vec<TerminalCommand> {
    render_box.write(text);
    redraw(render_box, size())
}

fn touches_content(command: &TerminalCommand) -> bool {
    matches!(command, WriteStyled(_) | ClearCurrentLine | ClearUntilNewLine)
}

#[test]
fn line_advance_writes_a_line_break() {
    assert_eq!(line_advance(), newline());
}

#[test]
fn cursor_and_flush_commands() {
    let render_box = UntitledRenderBoxAbstraction::new(size());
    assert_eq!(render_box.show_cursor(), CursorShow);
    assert_eq!(render_box.hide_cursor(), CursorHide);
    assert_eq!(render_box.flush(), Flush);
}

#[test]
fn first_frame_is_written_in_full() {
    let mut render_box = UntitledRenderBoxAbstraction::new(size());
    let commands = draw(&mut render_box, "ab\ncd\n");
    assert_eq!(
        commands,
        vec![
            CursorUp(0),
            CursorMoveToColumn(0),
            token("ab"),
            newline(),
            CursorMoveToColumn(0),
            token("cd"),
            newline(),
            Flush,
        ]
    );
    assert_eq!(render_box.last_rendered_frame().finished_rows().len(), 2);
    assert!(render_box.current_frame().finished_rows().is_empty());
    assert_eq!(render_box.current_frame().terminal_size(), size());
}

#[test]
fn same_content_again_writes_nothing() {
    let mut render_box = UntitledRenderBoxAbstraction::new(size());
    draw(&mut render_box, "ab\ncd\nef\n");
    let commands = draw(&mut render_box, "ab\ncd\nef\n");
    assert_eq!(
        commands,
        vec![
            CursorUp(3),
            CursorMoveToColumn(0),
            newline(),
            CursorMoveToColumn(0),
            newline(),
            CursorMoveToColumn(0),
            newline(),
            Flush,
        ]
    );
    assert!(!commands.iter().any(touches_content));
}

#[test]
fn same_content_in_other_pieces_writes_nothing() {
    let mut render_box = UntitledRenderBoxAbstraction::new(size());
    draw(&mut render_box, "ab\ncd\n");
    render_box.write("a");
    render_box.write("b\nc");
    render_box.write("d\n");
    let commands = redraw(&mut render_box, size());
    assert!(!commands.iter().any(touches_content));
}

#[test]
fn only_the_changed_row_is_written_again() {
    let mut render_box = UntitledRenderBoxAbstraction::new(size());
    draw(&mut render_box, "ab\ncd\nef\n");
    let commands = draw(&mut render_box, "ab\nXY\nef\n");
    assert_eq!(
        commands,
        vec![
            CursorUp(3),
            CursorMoveToColumn(0),
            newline(),
            CursorMoveToColumn(0),
            token("XY"),
            ClearUntilNewLine,
            newline(),
            CursorMoveToColumn(0),
            newline(),
            Flush,
        ]
    );
}

#[test]
fn changed_style_is_a_changed_row() {
    let mut render_box = UntitledRenderBoxAbstraction::new(size());
    draw(&mut render_box, "ab\n");
    let red = Styled::new("ab\n").with_style_sheet(StyleSheet::new().with_fg(Color::DarkRed));
    render_box.write_styled(&red);
    let commands = redraw(&mut render_box, size());
    assert!(commands.iter().any(|command| matches!(command, WriteStyled(_))));
}

#[test]
fn rows_that_are_gone_are_cleared() {
    let mut render_box = UntitledRenderBoxAbstraction::new(size());
    draw(&mut render_box, "ab\ncd\nef\n");
    let commands = draw(&mut render_box, "ab\nXY\n");
    assert_eq!(
        commands,
        vec![
            CursorUp(3),
            CursorMoveToColumn(0),
            newline(),
            CursorMoveToColumn(0),
            token("XY"),
            ClearUntilNewLine,
            newline(),
            CursorMoveToColumn(0),
            ClearCurrentLine,
            newline(),
            Flush,
        ]
    );
}

#[test]
fn new_rows_are_written_without_clearing() {
    let mut render_box = UntitledRenderBoxAbstraction::new(size());
    draw(&mut render_box, "ab\n");
    let commands = draw(&mut render_box, "ab\ncd\n");
    assert_eq!(
        commands,
        vec![
            CursorUp(1),
            CursorMoveToColumn(0),
            newline(),
            CursorMoveToColumn(0),
            token("cd"),
            newline(),
            Flush,
        ]
    );
}

#[test]
fn empty_frame_clears_every_row() {
    let mut render_box = UntitledRenderBoxAbstraction::new(size());
    draw(&mut render_box, "ab\ncd\n");
    let commands = redraw(&mut render_box, size());
    assert_eq!(
        commands,
        vec![
            CursorUp(2),
            CursorMoveToColumn(0),
            ClearCurrentLine,
            newline(),
            CursorMoveToColumn(0),
            ClearCurrentLine,
            newline(),
            Flush,
        ]
    );
    assert!(render_box.last_rendered_frame().finished_rows().is_empty());
}

#[test]
fn empty_frame_after_empty_frame_does_nothing_to_rows() {
    let mut render_box = UntitledRenderBoxAbstraction::new(size());
    assert_eq!(redraw(&mut render_box, size()), vec![CursorUp(0), Flush]);
}

#[test]
fn narrower_terminal_lays_the_frame_on_screen_out_anew() {
    let mut render_box = UntitledRenderBoxAbstraction::new(size());
    draw(&mut render_box, "abcdefgh");
    let commands = redraw(&mut render_box, TerminalSize::new(4, 10));
    // the row on screen is one full row of four and an open rest now
    assert_eq!(
        commands,
        vec![CursorUp(1), CursorMoveToColumn(0), ClearCurrentLine, newline(), Flush]
    );
    assert_eq!(render_box.current_frame().terminal_size(), TerminalSize::new(4, 10));
}

#[test]
fn frame_taller_than_the_terminal_is_written_again_in_full() {
    let low = TerminalSize::new(20, 2);
    let mut render_box = UntitledRenderBoxAbstraction::new(low);
    render_box.write("ab\ncd\nef\n");
    redraw(&mut render_box, low);
    render_box.write("ab\ncd\nef\n");
    let commands = redraw(&mut render_box, low);
    // the frame on screen no longer fits, is laid out anew, and has no finished row then
    assert_eq!(
        commands,
        vec![
            CursorUp(0),
            CursorMoveToColumn(0),
            token("ab"),
            newline(),
            CursorMoveToColumn(0),
            token("cd"),
            newline(),
            CursorMoveToColumn(0),
            token("ef"),
            newline(),
            Flush,
        ]
    );
}

#[test]
fn redraw_that_was_not_carried_out_keeps_the_frame_on_screen() {
    let mut render_box = UntitledRenderBoxAbstraction::new(size());
    draw(&mut render_box, "ab\ncd\n");
    render_box.write("ab\nXY\n");
    let failed = render_box.finish_current_frame(size());
    // nothing was swapped: the frame on screen is the one of the last redraw
    let on_screen = render_box.last_rendered_frame();
    assert_eq!(on_screen.finished_rows().len(), 2);
    assert_eq!(on_screen.finished_rows()[1].get_content()[0].content, "cd");
    assert_eq!(render_box.current_frame().finished_rows()[1].get_content()[0].content, "XY");
    // asked again, the redraw is the same
    assert_eq!(render_box.finish_current_frame(size()), failed);
    render_box.swap_frames(size());
    assert_eq!(
        render_box.last_rendered_frame().finished_rows()[1].get_content()[0].content,
        "XY"
    );
    assert!(render_box.current_frame().finished_rows().is_empty());
}

#[test]
fn mark_goes_to_the_frame_that_is_written() {
    let mut render_box = UntitledRenderBoxAbstraction::new(size());
    render_box.write("ab");
    render_box.mark_cursor_position(3);
    assert_eq!(
        render_box.current_frame().expected_cursor_position(),
        Some(Position { row: 0, col: 5 })
    );
    assert_eq!(render_box.last_rendered_frame().expected_cursor_position(), None);
}

#[test]
fn cursor_is_placed_at_the_mark_and_brought_back() {
    let mut render_box = UntitledRenderBoxAbstraction::new(size());
    render_box.write("name: ");
    render_box.mark_cursor_position(2);
    render_box.write("abcd\nhelp\n");
    render_box.finish_current_frame(size());
    assert_eq!(
        render_box.placement_commands(),
        vec![CursorUp(2), CursorMoveToColumn(8), CursorShow, Flush]
    );
    render_box.swap_frames(size());
    render_box.settle_cursor();
    assert_eq!(
        render_box.last_rendered_frame().cursor_position(),
        Position { row: 0, col: 8 }
    );
    assert_eq!(
        render_box.move_cursor_to_end_position(size()),
        vec![CursorMoveToColumn(0), CursorDown(2)]
    );
    // the next redraw starts from the row of the mark
    let commands = draw(&mut render_box, "name: abcd\nhelp\n");
    assert_eq!(commands[0], CursorUp(0));
}

#[test]
fn end_position_of_a_frame_without_mark_is_where_the_cursor_is() {
    let mut render_box = UntitledRenderBoxAbstraction::new(size());
    draw(&mut render_box, "ab\ncd\n");
    render_box.settle_cursor();
    assert_eq!(render_box.move_cursor_to_end_position(size()), vec![CursorMoveToColumn(0)]);
}

#[test]
fn push_paint_appends_one_command_for_each_token() {
    let mut commands = vec![Flush];
    push_paint(&mut commands, &[Styled::new("a"), Styled::new("b")]);
    assert_eq!(commands, vec![Flush, token("a"), token("b")]);
}

#[test]
fn push_row_commands_for_a_row_that_neither_frame_has() {
    let mut commands = Vec::new();
    push_row_commands(&mut commands, None, None);
    assert_eq!(commands, vec![CursorMoveToColumn(0), newline()]);
}
