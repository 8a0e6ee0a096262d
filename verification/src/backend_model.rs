//! What the widgets write: for every piece of a prompt, the list of render
//! operations that shows it.

use crate::config::{IndexPrefix, RenderConfig};
use crate::input::InputView;
use crate::list_option::{ErrorMessage, Page};
use crate::render_ops::{new_line, space, styled, RenderOp};
use crate::style::{StyleSheet, Token};
use crate::text::{spec_decimal, spec_int_log10, spec_pad_left, spec_repeat_char};
use vstd::prelude::*;

verus! {

/// A prompt behind a prefix: the prefix, a space, the prompt in its style.
pub open spec fn prompt_with_prefix_ops(
    config: RenderConfig,
    prefix: Token,
    prompt: Seq<char>,
) -> Seq<RenderOp> {
    seq![RenderOp::Write(prefix), space(), styled(prompt, config.prompt)]
}

/// A prompt behind the usual prefix.
pub open spec fn prompt_ops(config: RenderConfig, prompt: Seq<char>) -> Seq<RenderOp> {
    prompt_with_prefix_ops(config, config.prompt_prefix@, prompt)
}

/// The text of a default value: the value in round brackets.
pub open spec fn default_value_text(value: Seq<char>) -> Seq<char> {
    seq!['('] + value + seq![')']
}

/// A default value: the value in round brackets, in its style.
pub open spec fn default_value_ops(config: RenderConfig, value: Seq<char>) -> Seq<RenderOp> {
    seq![styled(default_value_text(value), config.default_value)]
}

/// The text of an input: what was typed; or, while nothing was typed, the
/// placeholder, if there is one that is not empty.
pub open spec fn input_text_ops(config: RenderConfig, input: InputView) -> Seq<RenderOp> {
    if input.content.len() == 0 {
        match input.placeholder {
            Some(text) => if text.len() == 0 {
                Seq::empty()
            } else {
                seq![styled(text, config.placeholder)]
            },
            None => Seq::empty(),
        }
    } else {
        seq![styled(input.content, config.text_input)]
    }
}

/// An input: a space, the mark for the cursor as many columns on as there
/// are characters before the cursor, the text, and one more space for the
/// cursor to stand on when it stands at the end.
pub open spec fn input_ops(config: RenderConfig, input: InputView) -> Seq<RenderOp> {
    seq![space(), RenderOp::MarkCursor(input.cursor as isize)] + input_text_ops(config, input) + (
    if input.cursor == input.content.len() {
        seq![space()]
    } else {
        Seq::empty()
    })
}

/// A space and a default value, where there is one.
pub open spec fn optional_default_ops(
    config: RenderConfig,
    default: Option<Seq<char>>,
) -> Seq<RenderOp> {
    match default {
        Some(value) => seq![space()] + default_value_ops(config, value),
        None => Seq::empty(),
    }
}

/// A prompt with its input: the prompt, the default value if there is
/// one, the input, and the end of the line.
pub open spec fn prompt_with_input_ops(
    config: RenderConfig,
    prompt: Seq<char>,
    default: Option<Seq<char>>,
    input: InputView,
) -> Seq<RenderOp> {
    prompt_ops(config, prompt) + optional_default_ops(config, default) + input_ops(config, input)
        + seq![new_line()]
}

/// A prompt on a line of its own.
pub open spec fn prompt_line_ops(config: RenderConfig, prompt: Seq<char>) -> Seq<RenderOp> {
    prompt_ops(config, prompt) + seq![new_line()]
}

/// A canceled prompt: the prompt, a space, the sign for a canceled prompt.
pub open spec fn canceled_prompt_ops(config: RenderConfig, prompt: Seq<char>) -> Seq<RenderOp> {
    prompt_ops(config, prompt) + seq![
        space(),
        RenderOp::Write(config.canceled_prompt_indicator@),
        new_line(),
    ]
}

/// An answered prompt: the prompt behind the prefix for answered prompts, a
/// space, the answer in its style.
pub open spec fn prompt_with_answer_ops(
    config: RenderConfig,
    prompt: Seq<char>,
    answer: Seq<char>,
) -> Seq<RenderOp> {
    prompt_with_prefix_ops(config, config.answered_prompt_prefix@, prompt) + seq![
        space(),
        styled(answer, config.answer),
        new_line(),
    ]
}

/// The text of an error: its own, or the one that the configuration holds.
pub open spec fn error_text(config: RenderConfig, error: ErrorMessage) -> Seq<char> {
    match error {
        ErrorMessage::Default => config.error_message.default_message@,
        ErrorMessage::Custom(text) => text@,
    }
}

/// An error message: the prefix, a space in the style of the separator,
/// the text of the error in its style.
pub open spec fn error_message_ops(config: RenderConfig, error: ErrorMessage) -> Seq<RenderOp> {
    seq![
        RenderOp::Write(config.error_message.prefix@),
        styled(seq![' '], config.error_message.separator),
        styled(error_text(config, error), config.error_message.message),
        new_line(),
    ]
}

/// A help message: the text in square brackets, all in the style of help
/// messages.
pub open spec fn help_message_ops(config: RenderConfig, help: Seq<char>) -> Seq<RenderOp> {
    seq![
        styled(seq!['['], config.help_message),
        styled(help, config.help_message),
        styled(seq![']'], config.help_message),
        new_line(),
    ]
}

/// The text of the hint of the editor prompt.
pub open spec fn editor_hint_text(editor_command: Seq<char>) -> Seq<char> {
    "[(e) to open "@ + editor_command + ", (enter) to submit]"@
}

/// The prompt that opens an editor: the prompt, a space, the hint.
pub open spec fn editor_prompt_ops(
    config: RenderConfig,
    prompt: Seq<char>,
    editor_command: Seq<char>,
) -> Seq<RenderOp> {
    prompt_ops(config, prompt) + seq![
        space(),
        styled(editor_hint_text(editor_command), config.editor_prompt),
        new_line(),
    ]
}

/// What stands in front of the option at index `idx` of the page: the mark
/// of the cursor; or the mark that the list goes on above the first, or
/// below the last, option of the page; or a space.
pub open spec fn option_prefix(config: RenderConfig, page: Page, idx: usize) -> Token {
    if page.cursor == Some(idx) {
        config.highlighted_option_prefix@
    } else if idx == 0 && !page.first {
        config.scroll_up_prefix@
    } else if idx + 1 == page.content.len() && !page.last {
        config.scroll_down_prefix@
    } else {
        Token { text: seq![' '], style: StyleSheet::spec_empty() }
    }
}

/// The style of the option at index `idx` of the page: the style of the
/// option under the cursor, if there is such a style and the cursor is on
/// the option; else the style of options.
pub open spec fn option_style(config: RenderConfig, page: Page, idx: usize) -> StyleSheet {
    match config.selected_option {
        Some(style) => if page.cursor == Some(idx) {
            style
        } else {
            config.option
        },
        None => config.option,
    }
}

/// `n + 1`, and the largest `usize` where that does not fit.
pub open spec fn next_index(n: usize) -> usize {
    if n == usize::MAX {
        n
    } else {
        (n + 1) as usize
    }
}

/// The text that shows the index of an option: the index, counted from
/// one, as the configuration says, and a closing bracket; none where
/// indexes are not shown.
pub open spec fn index_prefix_text(config: RenderConfig, index: usize, max_index: usize) -> Option<
    Seq<char>,
> {
    let number = spec_decimal(next_index(index) as nat);
    let width = spec_int_log10(next_index(max_index) as nat);
    match config.option_index_prefix {
        IndexPrefix::Hidden => None,
        IndexPrefix::Simple => Some(number.push(')')),
        IndexPrefix::SpacePadded => Some(spec_pad_left(number, width, ' ').push(')')),
        IndexPrefix::ZeroPadded => Some(spec_pad_left(number, width, '0').push(')')),
    }
}

/// The index of an option and a space behind it, where indexes are shown.
pub open spec fn index_prefix_ops(
    config: RenderConfig,
    index: usize,
    max_index: usize,
) -> Seq<RenderOp> {
    match index_prefix_text(config, index, max_index) {
        Some(text) => seq![styled(text, config.option), space()],
        None => Seq::empty(),
    }
}

/// The operations of `n` lines, from the first to the last.
pub open spec fn lines(n: nat, line: spec_fn(int) -> Seq<RenderOp>) -> Seq<RenderOp>
    decreases n,
{
    if n == 0 {
        Seq::empty()
    } else {
        lines((n - 1) as nat, line) + line(n - 1)
    }
}

/// The line of a suggestion: what stands in front of it, a space, its text.
pub open spec fn suggestion_ops(config: RenderConfig, page: Page, idx: int) -> Seq<RenderOp> {
    seq![
        RenderOp::Write(option_prefix(config, page, idx as usize)),
        space(),
        styled(page.content[idx].value@, option_style(config, page, idx as usize)),
        new_line(),
    ]
}

/// The lines of the suggestions of a page.
pub open spec fn suggestions_ops(config: RenderConfig, page: Page) -> Seq<RenderOp> {
    lines(page.content.len() as nat, |idx: int| suggestion_ops(config, page, idx))
}

/// The line of an option to select: what stands in front of it, a space,
/// its index where indexes are shown, its text.
pub open spec fn select_option_ops(config: RenderConfig, page: Page, idx: int) -> Seq<RenderOp> {
    seq![RenderOp::Write(option_prefix(config, page, idx as usize)), space()] + index_prefix_ops(
        config,
        page.content[idx].index,
        page.total,
    ) + seq![
        styled(page.content[idx].value@, option_style(config, page, idx as usize)),
        new_line(),
    ]
}

/// The lines of the options of a page to select from.
pub open spec fn select_options_ops(config: RenderConfig, page: Page) -> Seq<RenderOp> {
    lines(page.content.len() as nat, |idx: int| select_option_ops(config, page, idx))
}

/// The box of the option at index `idx` of the page: checked or not, and
/// in the style of the option under the cursor if there is such a style and
/// the cursor is on the option.
pub open spec fn checkbox(
    config: RenderConfig,
    page: Page,
    checked: Set<usize>,
    idx: int,
) -> Token {
    let shown = if checked.contains(page.content[idx].index) {
        config.selected_checkbox@
    } else {
        config.unselected_checkbox@
    };
    match config.selected_option {
        Some(style) => if page.cursor == Some(idx as usize) {
            Token { text: shown.text, style }
        } else {
            shown
        },
        None => shown,
    }
}

/// The line of an option to check: what stands in front of it, a space,
/// its index where indexes are shown, its box, a space, its text.
pub open spec fn multiselect_option_ops(
    config: RenderConfig,
    page: Page,
    checked: Set<usize>,
    idx: int,
) -> Seq<RenderOp> {
    seq![RenderOp::Write(option_prefix(config, page, idx as usize)), space()] + index_prefix_ops(
        config,
        page.content[idx].index,
        page.total,
    ) + seq![
        RenderOp::Write(checkbox(config, page, checked, idx)),
        space(),
        styled(page.content[idx].value@, option_style(config, page, idx as usize)),
        new_line(),
    ]
}

/// The lines of the options of a page to check.
pub open spec fn multiselect_options_ops(
    config: RenderConfig,
    page: Page,
    checked: Set<usize>,
) -> Seq<RenderOp> {
    lines(page.content.len() as nat, |idx: int| multiselect_option_ops(config, page, checked, idx))
}

/// The input that hides what was typed: the mask, once for every
/// character, and the cursor where it was.
pub open spec fn masked_input(config: RenderConfig, input: InputView) -> InputView {
    InputView {
        content: spec_repeat_char(config.password_mask, input.content.len()),
        placeholder: None,
        cursor: input.cursor,
    }
}

} // verus!
