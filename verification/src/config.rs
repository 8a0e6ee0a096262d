//! How the widgets look: the prefixes, marks and styles that they use.

use crate::style::{StyleSheet, Styled};
use vstd::prelude::*;

verus! {

/// How the index of an option is shown in front of it.
#[derive(Clone, Copy, Debug, PartialEq, Eq, Structural)]
pub enum IndexPrefix {
    /// Not at all.
    Hidden,
    /// As a plain number.
    Simple,
    /// As a number behind spaces, as wide as the largest index.
    SpacePadded,
    /// As a number behind zeros, as wide as the largest index.
    ZeroPadded,
}

/// How an error message looks.
#[derive(Debug)]
pub struct ErrorMessageRenderConfig {
    /// What stands in front of the message.
    pub prefix: Styled,
    /// Style of the space between prefix and message.
    pub separator: StyleSheet,
    /// Style of the message.
    pub message: StyleSheet,
    /// The message for an error that brings none of its own.
    pub default_message: String,
}

/// How a calendar looks.
#[derive(Debug)]
pub struct CalendarRenderConfig {
    /// What stands in front of every row of the calendar.
    pub prefix: Styled,
    /// Style of the row with month and year.
    pub header: StyleSheet,
    /// Style of the row with the days of the week.
    pub week_header: StyleSheet,
    /// Style of the selected day, if it has one of its own.
    pub selected_date: Option<StyleSheet>,
    /// Style of today.
    pub today_date: StyleSheet,
    /// Style of the days of the months before and after.
    pub different_month_date: StyleSheet,
    /// Style of the days that cannot be selected.
    pub unavailable_date: StyleSheet,
}

/// How the widgets look.
#[derive(Debug)]
pub struct RenderConfig {
    /// What stands in front of a prompt.
    pub prompt_prefix: Styled,
    /// What stands in front of a prompt that was answered.
    pub answered_prompt_prefix: Styled,
    /// Style of the prompt.
    pub prompt: StyleSheet,
    /// Style of the default value.
    pub default_value: StyleSheet,
    /// Style of the placeholder.
    pub placeholder: StyleSheet,
    /// Style of the help message.
    pub help_message: StyleSheet,
    /// The character that stands for each character of a password.
    pub password_mask: char,
    /// Style of what the user typed.
    pub text_input: StyleSheet,
    /// Style of the answer.
    pub answer: StyleSheet,
    /// What is shown in place of the answer of a canceled prompt.
    pub canceled_prompt_indicator: Styled,
    /// How an error message looks.
    pub error_message: ErrorMessageRenderConfig,
    /// What stands in front of the option under the cursor.
    pub highlighted_option_prefix: Styled,
    /// What stands in front of the first option shown, when there are
    /// options above it.
    pub scroll_up_prefix: Styled,
    /// What stands in front of the last option shown, when there are
    /// options below it.
    pub scroll_down_prefix: Styled,
    /// The box of a checked option.
    pub selected_checkbox: Styled,
    /// The box of an option that is not checked.
    pub unselected_checkbox: Styled,
    /// How the index of an option is shown.
    pub option_index_prefix: IndexPrefix,
    /// Style of an option.
    pub option: StyleSheet,
    /// Style of the option under the cursor, if it has one of its own.
    pub selected_option: Option<StyleSheet>,
    /// How a calendar looks.
    pub calendar: CalendarRenderConfig,
    /// Style of the hint of the editor prompt.
    pub editor_prompt: StyleSheet,
}

impl ErrorMessageRenderConfig {
    /// Error messages without style, behind `#`.
    pub fn empty() -> (config: ErrorMessageRenderConfig)
        ensures
            config.prefix@.text == seq!['#'],
            config.prefix@.style == StyleSheet::spec_empty(),
            config.separator == StyleSheet::spec_empty(),
            config.message == StyleSheet::spec_empty(),
            config.default_message@ == "Invalid input."@,
    {
        ErrorMessageRenderConfig {
            prefix: mark('#'),
            separator: StyleSheet::empty(),
            message: StyleSheet::empty(),
            default_message: "Invalid input.".to_owned(),
        }
    }
}

impl CalendarRenderConfig {
    /// A calendar without style, behind `>`.
    pub fn empty() -> (config: CalendarRenderConfig)
        ensures
            config.prefix@.text == seq!['>'],
            config.prefix@.style == StyleSheet::spec_empty(),
            config.header == StyleSheet::spec_empty(),
            config.week_header == StyleSheet::spec_empty(),
            config.selected_date is None,
            config.today_date == StyleSheet::spec_empty(),
            config.different_month_date == StyleSheet::spec_empty(),
            config.unavailable_date == StyleSheet::spec_empty(),
    {
        CalendarRenderConfig {
            prefix: mark('>'),
            header: StyleSheet::empty(),
            week_header: StyleSheet::empty(),
            selected_date: None,
            today_date: StyleSheet::empty(),
            different_month_date: StyleSheet::empty(),
            unavailable_date: StyleSheet::empty(),
        }
    }
}

impl RenderConfig {
    /// Widgets without any style: `?` in front of a prompt, `>` in front of
    /// the option under the cursor, `^` and `v` where the list goes on,
    /// `[x]` and `[ ]` as boxes, `*` as mask, no index in front of options.
    pub fn empty() -> (config: RenderConfig)
        ensures
            config.prompt_prefix@.text == seq!['?'],
            config.answered_prompt_prefix@.text == seq!['?'],
            config.highlighted_option_prefix@.text == seq!['>'],
            config.scroll_up_prefix@.text == seq!['^'],
            config.scroll_down_prefix@.text == seq!['v'],
            config.selected_checkbox@.text == "[x]"@,
            config.unselected_checkbox@.text == "[ ]"@,
            config.canceled_prompt_indicator@.text == "<canceled>"@,
            config.prompt_prefix@.style == StyleSheet::spec_empty(),
            config.answered_prompt_prefix@.style == StyleSheet::spec_empty(),
            config.highlighted_option_prefix@.style == StyleSheet::spec_empty(),
            config.scroll_up_prefix@.style == StyleSheet::spec_empty(),
            config.scroll_down_prefix@.style == StyleSheet::spec_empty(),
            config.selected_checkbox@.style == StyleSheet::spec_empty(),
            config.unselected_checkbox@.style == StyleSheet::spec_empty(),
            config.canceled_prompt_indicator@.style == StyleSheet::spec_empty(),
            config.prompt == StyleSheet::spec_empty(),
            config.default_value == StyleSheet::spec_empty(),
            config.placeholder == StyleSheet::spec_empty(),
            config.help_message == StyleSheet::spec_empty(),
            config.text_input == StyleSheet::spec_empty(),
            config.answer == StyleSheet::spec_empty(),
            config.option == StyleSheet::spec_empty(),
            config.editor_prompt == StyleSheet::spec_empty(),
            config.selected_option is None,
            config.option_index_prefix == IndexPrefix::Hidden,
            config.password_mask == '*',
    {
        RenderConfig {
            prompt_prefix: mark('?'),
            answered_prompt_prefix: mark('?'),
            prompt: StyleSheet::empty(),
            default_value: StyleSheet::empty(),
            placeholder: StyleSheet::empty(),
            help_message: StyleSheet::empty(),
            password_mask: '*',
            text_input: StyleSheet::empty(),
            answer: StyleSheet::empty(),
            canceled_prompt_indicator: Styled::new("<canceled>"),
            error_message: ErrorMessageRenderConfig::empty(),
            highlighted_option_prefix: mark('>'),
            scroll_up_prefix: mark('^'),
            scroll_down_prefix: mark('v'),
            selected_checkbox: Styled::new("[x]"),
            unselected_checkbox: Styled::new("[ ]"),
            option_index_prefix: IndexPrefix::Hidden,
            option: StyleSheet::empty(),
            selected_option: None,
            calendar: CalendarRenderConfig::empty(),
            editor_prompt: StyleSheet::empty(),
        }
    }
}

/// The token of the single character `c`, without style.
pub fn mark(c: char) -> (token: Styled)
    ensures
        token@.text == seq![c],
        token@.style == StyleSheet::spec_empty(),
{
    let mut content = String::new();
    content.push(c);
    Styled { content, style: StyleSheet::new() }
}

} // verus!
