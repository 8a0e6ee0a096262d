use inquire::backend::{
    Backend, CommonBackend, CustomTypeBackend, EditorBackend, MultiSelectBackend,
    PasswordBackend, SelectBackend, TextBackend,
};
use inquire::command::TerminalCommand;
use inquire::config::{IndexPrefix, RenderConfig};
use inquire::geometry::{Position, TerminalSize};
use inquire::input::Input;
use inquire::list_option::{ErrorMessage, ListOption, Page};
use inquire::style::{Color, StyleSheet, Styled};
use std::collections::BTreeSet;

fn size() -> TerminalSize {
    TerminalSize::new(80, 24)
}

fn backend_with(config: RenderConfig) -> Backend {
    let (mut backend, command) = Backend::new(size(), config);
    assert_eq!(command, TerminalCommand::CursorHide);
    assert!(!backend.is_frame_open());
    assert_eq!(backend.frame_setup(), vec![TerminalCommand::CursorHide]);
    assert!(backend.is_frame_open());
    backend
}

fn backend() -> Backend {
    backend_with(RenderConfig::empty())
}

fn show(backend: &mut Backend) -> Vec<TerminalCommand> {
    let commands = backend.frame_finish(size());
    assert!(backend.is_frame_open());
    backend.frame_committed(size());
    assert!(!backend.is_frame_open());
    commands
}

fn finish(backend: &mut Backend) -> Vec<String> {
    show(backend);
    rows(backend)
}

fn rows(backend: &Backend) -> Vec<String> {
    backend
        .render_box()
        .last_rendered_frame()
        .finished_rows()
        .iter()
        .map(|row| row.get_content().iter().map(|t| t.content.as_str()).collect::<String>())
        .collect()
}

fn tokens(backend: &Backend, row: usize) -> Vec<Styled> {
    backend.render_box().last_rendered_frame().finished_rows()[row].get_content().to_vec()
}

fn page(values: &[&str], cursor: Option<usize>, first: bool, last: bool) -> Page {
    Page {
        first,
        last,
        content: values.iter().enumerate().map(|(i, v)| ListOption::new(i, v)).collect(),
        cursor,
        total: values.len(),
    }
}

#[test]
fn empty_render_config() {
    let config = RenderConfig::empty();
    assert_eq!(config.prompt_prefix, Styled::new("?"));
    assert_eq!(config.canceled_prompt_indicator, Styled::new("<canceled>"));
    assert_eq!(config.error_message.prefix, Styled::new("#"));
    assert_eq!(config.error_message.default_message, "Invalid input.");
    assert_eq!(config.password_mask, '*');
    assert_eq!(config.option_index_prefix, IndexPrefix::Hidden);
    assert_eq!(config.calendar.prefix, Styled::new(">"));
}

#[test]
fn input_keeps_text_and_cursor() {
    let input = Input::new();
    assert!(input.is_empty());
    assert_eq!((input.cursor(), input.length()), (0, 0));
    let input = Input::new_with("h\u{e9}llo");
    assert_eq!(input.content(), "h\u{e9}llo");
    assert_eq!((input.cursor(), input.length()), (5, 5));
    assert_eq!(input.placeholder(), None);
    let input = input.with_cursor(2).with_placeholder("name");
    assert_eq!(input.cursor(), 2);
    assert_eq!(input.placeholder(), Some("name"));
}

#[test]
fn canceled_prompt() {
    let mut backend = backend();
    backend.render_canceled_prompt("Name?");
    assert_eq!(finish(&mut backend), vec!["? Name? <canceled>"]);
}

#[test]
fn prompt_with_answer() {
    let mut config = RenderConfig::empty();
    config.answered_prompt_prefix = Styled::new(">");
    config.answer = StyleSheet::new().with_fg(Color::LightCyan);
    let mut backend = backend_with(config);
    backend.render_prompt_with_answer("Name?", "Ada");
    assert_eq!(finish(&mut backend), vec!["> Name? Ada"]);
    assert_eq!(
        tokens(&backend, 0),
        vec![
            Styled::new(">"),
            Styled::new(" "),
            Styled::new("Name?"),
            Styled::new(" "),
            Styled::new("Ada").with_fg(Color::LightCyan),
        ]
    );
}

#[test]
fn error_messages() {
    let mut backend = backend();
    backend.render_error_message(&ErrorMessage::Default);
    backend.render_error_message(&ErrorMessage::Custom("Too short".to_string()));
    assert_eq!(finish(&mut backend), vec!["# Invalid input.", "# Too short"]);
}

#[test]
fn help_message() {
    let mut config = RenderConfig::empty();
    config.help_message = StyleSheet::new().with_fg(Color::DarkCyan);
    let mut backend = backend_with(config);
    backend.render_help_message("type to filter");
    assert_eq!(finish(&mut backend), vec!["[type to filter]"]);
    assert_eq!(
        tokens(&backend, 0),
        vec![
            Styled::new("[").with_fg(Color::DarkCyan),
            Styled::new("type to filter").with_fg(Color::DarkCyan),
            Styled::new("]").with_fg(Color::DarkCyan),
        ]
    );
}

#[test]
fn text_prompt_with_default_and_input() {
    let mut backend = backend();
    let input = Input::new_with("Ada").with_cursor(1);
    TextBackend::render_prompt(&mut backend, "Name?", Some("Eve"), &input);
    show(&mut backend);
    assert_eq!(rows(&backend), vec!["? Name? (Eve) Ada"]);
    // the cursor is shown before the second character of the input
    assert_eq!(
        backend.render_box().last_rendered_frame().cursor_position(),
        Position { row: 0, col: 15 }
    );
}

#[test]
fn text_prompt_with_cursor_at_the_end_gets_a_space_to_stand_on() {
    let mut backend = backend();
    TextBackend::render_prompt(&mut backend, "Name?", None, &Input::new_with("Ada"));
    assert_eq!(finish(&mut backend), vec!["? Name? Ada "]);
}

#[test]
fn text_prompt_shows_the_placeholder_while_nothing_is_typed() {
    let mut backend = backend();
    let input = Input::new().with_placeholder("your name");
    TextBackend::render_prompt(&mut backend, "Name?", None, &input);
    let empty = Input::new().with_placeholder("");
    CustomTypeBackend::render_prompt(&mut backend, "Age?", None, &empty);
    assert_eq!(finish(&mut backend), vec!["? Name? your name ", "? Age?  "]);
}

#[test]
fn frame_finish_redraws_and_places_the_cursor() {
    let mut backend = backend();
    let input = Input::new_with("Ada").with_cursor(1);
    TextBackend::render_prompt(&mut backend, "Name?", None, &input);
    let commands = show(&mut backend);
    assert_eq!(commands.first(), Some(&TerminalCommand::CursorUp(0)));
    assert_eq!(
        commands[commands.len() - 5..].to_vec(),
        vec![
            TerminalCommand::Flush,
            TerminalCommand::CursorUp(1),
            TerminalCommand::CursorMoveToColumn(9),
            TerminalCommand::CursorShow,
            TerminalCommand::Flush,
        ]
    );
}

#[test]
fn suggestions() {
    let mut backend = backend();
    backend.render_suggestions(&page(&["ant", "bee", "cat"], Some(1), true, false));
    assert_eq!(finish(&mut backend), vec!["  ant", "> bee", "v cat"]);
}

#[test]
fn select_prompt_and_options() {
    let mut backend = backend();
    backend.render_select_prompt("Pick", None);
    SelectBackend::render_options(&mut backend, &page(&["ant", "bee", "cat"], Some(2), false, true));
    assert_eq!(finish(&mut backend), vec!["? Pick^ ant", "  bee", "> cat"]);
}

#[test]
fn select_prompt_with_filter() {
    let mut backend = backend();
    backend.render_select_prompt("Pick", Some(&Input::new_with("b")));
    SelectBackend::render_options(&mut backend, &page(&["bee"], None, true, true));
    assert_eq!(finish(&mut backend), vec!["? Pick b ", "  bee"]);
}

#[test]
fn selected_option_has_its_own_style() {
    let mut config = RenderConfig::empty();
    let green = StyleSheet::new().with_fg(Color::LightGreen);
    config.selected_option = Some(green);
    let mut backend = backend_with(config);
    SelectBackend::render_options(&mut backend, &page(&["ant", "bee"], Some(1), true, true));
    finish(&mut backend);
    assert_eq!(tokens(&backend, 0)[2], Styled::new("ant"));
    assert_eq!(tokens(&backend, 1)[2], Styled::new("bee").with_style_sheet(green));
}

#[test]
fn option_index_prefixes() {
    let values: Vec<String> = (1..=12).map(|i| format!("o{i}")).collect();
    let values: Vec<&str> = values.iter().map(|v| v.as_str()).collect();
    for (prefix, first, last) in [
        (IndexPrefix::Hidden, "  o1", "  o12"),
        (IndexPrefix::Simple, "  1) o1", "  12) o12"),
        (IndexPrefix::SpacePadded, "   1) o1", "  12) o12"),
        (IndexPrefix::ZeroPadded, "  01) o1", "  12) o12"),
    ] {
        let mut config = RenderConfig::empty();
        config.option_index_prefix = prefix;
        let mut backend = backend_with(config);
        SelectBackend::render_options(&mut backend, &page(&values, None, true, true));
        let rows = finish(&mut backend);
        assert_eq!(rows.len(), 12);
        assert_eq!(rows[0], first);
        assert_eq!(rows[11], last);
    }
}

#[test]
fn multiselect_options() {
    let mut backend = backend();
    let checked: BTreeSet<usize> = [0, 2].into_iter().collect();
    backend.render_multiselect_prompt("Pick", None);
    MultiSelectBackend::render_options(
        &mut backend,
        &page(&["ant", "bee", "cat"], Some(0), true, true),
        &checked,
    );
    assert_eq!(finish(&mut backend), vec!["? Pick> [x] ant", "  [ ] bee", "  [x] cat"]);
}

#[test]
fn multiselect_checkbox_under_the_cursor_takes_the_selected_style() {
    let mut config = RenderConfig::empty();
    let green = StyleSheet::new().with_fg(Color::LightGreen);
    config.selected_option = Some(green);
    let mut backend = backend_with(config);
    MultiSelectBackend::render_options(
        &mut backend,
        &page(&["ant", "bee"], Some(0), true, true),
        &BTreeSet::new(),
    );
    finish(&mut backend);
    assert_eq!(tokens(&backend, 0)[2], Styled::new("[ ]").with_style_sheet(green));
    assert_eq!(tokens(&backend, 1)[2], Styled::new("[ ]"));
}

#[test]
fn editor_prompt() {
    let mut backend = backend();
    EditorBackend::render_prompt(&mut backend, "Text", "vim");
    assert_eq!(finish(&mut backend), vec!["? Text [(e) to open vim, (enter) to submit]"]);
}

#[test]
fn password_prompts() {
    let mut backend = backend();
    let input = Input::new_with("s3cr\u{e9}t").with_cursor(2);
    PasswordBackend::render_prompt(&mut backend, "Password");
    backend.render_prompt_with_masked_input("Password", &input);
    backend.render_prompt_with_full_input("Password", &input);
    show(&mut backend);
    assert_eq!(rows(&backend), vec!["? Password", "? Password ******", "? Password s3cr\u{e9}t"]);
}
