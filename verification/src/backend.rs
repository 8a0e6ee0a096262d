//! The widgets: what each kind of prompt writes into the frame, and the
//! cycle of setting a frame up, writing it, and finishing it.

use crate::backend_model::{
    canceled_prompt_ops, checkbox, default_value_ops, default_value_text, editor_hint_text,
    editor_prompt_ops, error_message_ops, error_text, help_message_ops, index_prefix_ops,
    index_prefix_text, input_ops, input_text_ops, lines, masked_input, multiselect_option_ops,
    multiselect_options_ops, option_prefix, option_style, optional_default_ops, prompt_line_ops,
    prompt_ops, prompt_with_answer_ops, prompt_with_input_ops, prompt_with_prefix_ops,
    select_option_ops, select_options_ops, suggestion_ops, suggestions_ops,
};
use crate::command::{commands_of, CommandView, TerminalCommand};
use crate::config::{IndexPrefix, RenderConfig};
use crate::frame_model::FrameView;
use crate::geometry::TerminalSize;
use crate::input::Input;
use crate::list_option::{ErrorMessage, ListOption, Page};
use crate::render_box::UntitledRenderBoxAbstraction;
use crate::render_model::{
    commit_commands, end_position_commands, placed, placement_commands, RenderBoxView,
};
use crate::render_ops::{
    lemma_apply_concat, lemma_apply_mark, lemma_apply_none, lemma_apply_one, lemma_apply_write,
    new_line, space, styled, RenderOp,
};
use crate::style::{StyleSheet, Styled};
use crate::text::{decimal, int_log10, pad_left, repeat_char};
use std::collections::BTreeSet;
use vstd::prelude::*;

verus! {

/// What every widget can do: set a frame up, finish it, and show the
/// outcome of a prompt, an error and a help message. Widgets write between
/// the setup of a frame and its finish.
pub trait CommonBackend {
    /// Whether a frame was set up and not finished yet.
    spec fn frame_open(&self) -> bool;

    /// Sets a frame up, and hands out what the terminal has to do before
    /// anything is drawn.
    fn frame_setup(&mut self) -> (commands: Vec<TerminalCommand>)
        ensures
            final(self).frame_open(),
    ;

    /// Finishes the frame for a terminal of the given size, and hands out
    /// what the terminal has to do to show it. The frame stays open until
    /// `frame_committed` says that the terminal did it.
    fn frame_finish(&mut self, terminal_size: TerminalSize) -> (commands: Vec<TerminalCommand>)
        requires
            old(self).frame_open(),
        ensures
            final(self).frame_open(),
    ;

    /// Closes the frame, once the terminal did all that `frame_finish`
    /// handed out for it.
    fn frame_committed(&mut self, terminal_size: TerminalSize)
        requires
            old(self).frame_open(),
        ensures
            !final(self).frame_open(),
    ;

    /// Shows a prompt that was canceled.
    fn render_canceled_prompt(&mut self, prompt: &str)
        requires
            old(self).frame_open(),
        ensures
            final(self).frame_open(),
    ;

    /// Shows a prompt with the answer that was given.
    fn render_prompt_with_answer(&mut self, prompt: &str, answer: &str)
        requires
            old(self).frame_open(),
        ensures
            final(self).frame_open(),
    ;

    /// Shows an error message.
    fn render_error_message(&mut self, error: &ErrorMessage)
        requires
            old(self).frame_open(),
        ensures
            final(self).frame_open(),
    ;

    /// Shows a help message.
    fn render_help_message(&mut self, help: &str)
        requires
            old(self).frame_open(),
        ensures
            final(self).frame_open(),
    ;
}

/// What a text prompt needs.
pub trait TextBackend: CommonBackend {
    /// Shows the prompt, its default value and what was typed.
    fn render_prompt(&mut self, prompt: &str, default: Option<&str>, cur_input: &Input)
        requires
            old(self).frame_open(),
        ensures
            final(self).frame_open(),
    ;

    /// Shows the suggestions of a page.
    fn render_suggestions(&mut self, page: &Page)
        requires
            old(self).frame_open(),
        ensures
            final(self).frame_open(),
    ;
}

/// What a prompt that opens an editor needs.
pub trait EditorBackend: CommonBackend {
    /// Shows the prompt and the hint that names the editor.
    fn render_prompt(&mut self, prompt: &str, editor_command: &str)
        requires
            old(self).frame_open(),
        ensures
            final(self).frame_open(),
    ;
}

/// What a prompt to select one option needs.
pub trait SelectBackend: CommonBackend {
    /// Shows the prompt, with the filter that was typed if there is one.
    fn render_select_prompt(&mut self, prompt: &str, cur_input: Option<&Input>)
        requires
            old(self).frame_open(),
        ensures
            final(self).frame_open(),
    ;

    /// Shows the options of a page.
    fn render_options(&mut self, page: &Page)
        requires
            old(self).frame_open(),
        ensures
            final(self).frame_open(),
    ;
}

/// What a prompt to check any number of options needs.
pub trait MultiSelectBackend: CommonBackend {
    /// Shows the prompt, with the filter that was typed if there is one.
    fn render_multiselect_prompt(&mut self, prompt: &str, cur_input: Option<&Input>)
        requires
            old(self).frame_open(),
        ensures
            final(self).frame_open(),
    ;

    /// Shows the options of a page, each with its box; `checked` holds the
    /// indexes of the checked options.
    fn render_options(&mut self, page: &Page, checked: &BTreeSet<usize>)
        requires
            old(self).frame_open(),
        ensures
            final(self).frame_open(),
    ;
}

/// What a prompt for a value of some type needs.
pub trait CustomTypeBackend: CommonBackend {
    /// Shows the prompt, its default value and what was typed.
    fn render_prompt(&mut self, prompt: &str, default: Option<&str>, cur_input: &Input)
        requires
            old(self).frame_open(),
        ensures
            final(self).frame_open(),
    ;
}

/// What a password prompt needs.
pub trait PasswordBackend: CommonBackend {
    /// Shows the prompt alone.
    fn render_prompt(&mut self, prompt: &str)
        requires
            old(self).frame_open(),
        ensures
            final(self).frame_open(),
    ;

    /// Shows the prompt and, in place of every typed character, the mask.
    fn render_prompt_with_masked_input(&mut self, prompt: &str, cur_input: &Input)
        requires
            old(self).frame_open(),
        ensures
            final(self).frame_open(),
    ;

    /// Shows the prompt and what was typed.
    fn render_prompt_with_full_input(&mut self, prompt: &str, cur_input: &Input)
        requires
            old(self).frame_open(),
        ensures
            final(self).frame_open(),
    ;
}

/// The render box after the operations were performed on the frame that is
/// being written.
pub open spec fn performed(render_box: RenderBoxView, ops: Seq<RenderOp>) -> RenderBoxView {
    RenderBoxView { current: render_box.current.apply_all(ops), ..render_box }
}

/// Operations performed one list after the other are performed as one
/// list.
pub proof fn lemma_performed_concat(render_box: RenderBoxView, a: Seq<RenderOp>, b: Seq<RenderOp>)
    ensures
        performed(performed(render_box, a), b) == performed(render_box, a + b),
{
    lemma_apply_concat(render_box.current, a, b);
}

/// Writes a token.
fn put(render_box: &mut UntitledRenderBoxAbstraction, token: &Styled)
    ensures
        final(render_box)@ == performed(old(render_box)@, seq![RenderOp::Write(token@)]),
{
    render_box.write_styled(token);
    proof {
        lemma_apply_one(old(render_box)@.current, RenderOp::Write(token@));
        lemma_apply_write(old(render_box)@.current, token@);
    }
}

/// Writes a text in a style.
fn put_styled(render_box: &mut UntitledRenderBoxAbstraction, text: &str, style: StyleSheet)
    ensures
        final(render_box)@ == performed(old(render_box)@, seq![styled(text@, style)]),
{
    let token = Styled::new(text).with_style_sheet(style);
    put(render_box, &token);
}

/// Writes a single character in a style.
fn put_char(render_box: &mut UntitledRenderBoxAbstraction, c: char, style: StyleSheet)
    ensures
        final(render_box)@ == performed(old(render_box)@, seq![styled(seq![c], style)]),
{
    let mut content = String::new();
    content.push(c);
    let token = Styled { content, style };
    put(render_box, &token);
}

/// Writes a space without style.
fn put_space(render_box: &mut UntitledRenderBoxAbstraction)
    ensures
        final(render_box)@ == performed(old(render_box)@, seq![space()]),
{
    put_char(render_box, ' ', StyleSheet::new());
}

/// Marks the place of the cursor.
fn put_mark(render_box: &mut UntitledRenderBoxAbstraction, offset: isize)
    ensures
        final(render_box)@ == performed(old(render_box)@, seq![RenderOp::MarkCursor(offset)]),
{
    render_box.mark_cursor_position(offset);
    proof {
        lemma_apply_one(old(render_box)@.current, RenderOp::MarkCursor(offset));
        lemma_apply_mark(old(render_box)@.current, offset);
    }
}

/// The widgets of the prompts, drawing into a render box as a render
/// configuration says.
pub struct Backend {
    untitled_render_box_abstraction: UntitledRenderBoxAbstraction,
    render_config: RenderConfig,
    frame_open: bool,
}

/// What a backend says: its render box, its configuration, and whether a
/// frame is open.
pub struct BackendView {
    pub render_box: RenderBoxView,
    pub config: RenderConfig,
    pub frame_open: bool,
}

impl BackendView {
    /// The backend after the operations were performed on the frame that
    /// is being written.
    pub open spec fn performed(self, ops: Seq<RenderOp>) -> BackendView {
        BackendView { render_box: performed(self.render_box, ops), ..self }
    }
}

impl View for Backend {
    type V = BackendView;

    closed spec fn view(&self) -> BackendView {
        BackendView {
            render_box: self.untitled_render_box_abstraction@,
            config: self.render_config,
            frame_open: self.frame_open,
        }
    }
}

impl Backend {
    /// A backend for a terminal of the given size, and the command that
    /// hides the cursor before the first frame is drawn.
    pub fn new(terminal_size: TerminalSize, render_config: RenderConfig) -> (result: (
        Backend,
        TerminalCommand,
    ))
        ensures
            result.0@ == (BackendView {
                render_box: RenderBoxView {
                    last: FrameView::fresh(terminal_size),
                    current: FrameView::fresh(terminal_size),
                },
                config: render_config,
                frame_open: false,
            }),
            result.0@.render_box.wf(),
            result.1@ == CommandView::CursorHide,
    {
        let render_box = UntitledRenderBoxAbstraction::new(terminal_size);
        let command = render_box.hide_cursor();
        (
            Backend {
                untitled_render_box_abstraction: render_box,
                render_config,
                frame_open: false,
            },
            command,
        )
    }

    /// Whether a frame was set up and not finished yet.
    pub fn is_frame_open(&self) -> (open: bool)
        ensures
            open == self@.frame_open,
    {
        self.frame_open
    }

    /// The render box that the backend draws into.
    pub fn render_box(&self) -> (render_box: &UntitledRenderBoxAbstraction)
        ensures
            render_box@ == self@.render_box,
    {
        &self.untitled_render_box_abstraction
    }

    /// The configuration that the backend draws by.
    pub fn render_config(&self) -> (config: &RenderConfig)
        ensures
            *config == self@.config,
    {
        &self.render_config
    }

    /// Fits the frame on screen to the size that the terminal has now, and
    /// hands out the commands that bring the cursor behind all that is on
    /// screen: the first step of leaving the terminal in order.
    pub fn move_cursor_to_end_position(&mut self, terminal_size: TerminalSize) -> (commands: Vec<
        TerminalCommand,
    >)
        ensures
            commands_of(commands@) == end_position_commands(
                old(self)@.render_box.last.fit(terminal_size),
            ),
            final(self)@ == (BackendView {
                render_box: RenderBoxView {
                    last: old(self)@.render_box.last.fit(terminal_size),
                    ..old(self)@.render_box
                },
                ..old(self)@
            }),
    {
        self.untitled_render_box_abstraction.move_cursor_to_end_position(terminal_size)
    }

    /// The command that shows the cursor.
    pub fn show_cursor(&self) -> (command: TerminalCommand)
        ensures
            command@ == CommandView::CursorShow,
    {
        self.untitled_render_box_abstraction.show_cursor()
    }

    /// The command that sends what was written to the screen.
    pub fn flush(&self) -> (command: TerminalCommand)
        ensures
            command@ == CommandView::Flush,
    {
        self.untitled_render_box_abstraction.flush()
    }

    /// Writes a token.
    pub(crate) fn emit(&mut self, token: &Styled)
        ensures
            final(self)@ == old(self)@.performed(seq![RenderOp::Write(token@)]),
    {
        put(&mut self.untitled_render_box_abstraction, token);
    }

    /// Writes a text in a style.
    pub(crate) fn emit_styled(&mut self, text: &str, style: StyleSheet)
        ensures
            final(self)@ == old(self)@.performed(seq![styled(text@, style)]),
    {
        put_styled(&mut self.untitled_render_box_abstraction, text, style);
    }

    /// Writes a space without style.
    pub(crate) fn emit_space(&mut self)
        ensures
            final(self)@ == old(self)@.performed(seq![space()]),
    {
        put_space(&mut self.untitled_render_box_abstraction);
    }

    /// Marks the place of the cursor.
    pub(crate) fn emit_mark(&mut self, offset: isize)
        ensures
            final(self)@ == old(self)@.performed(seq![RenderOp::MarkCursor(offset)]),
    {
        put_mark(&mut self.untitled_render_box_abstraction, offset);
    }

    /// Ends the line.
    pub(crate) fn new_line(&mut self)
        ensures
            final(self)@ == old(self)@.performed(seq![new_line()]),
    {
        put_char(&mut self.untitled_render_box_abstraction, '\n', StyleSheet::new());
    }

    /// Writes a prompt behind the given prefix.
    fn print_prompt_with_prefix(&mut self, prefix: &Styled, prompt: &str)
        ensures
            final(self)@ == old(self)@.performed(
                prompt_with_prefix_ops(old(self)@.config, prefix@, prompt@),
            ),
    {
        let ghost start = self@.render_box;
        let ghost a = seq![RenderOp::Write(prefix@)];
        let ghost b = seq![space()];
        let ghost c = seq![styled(prompt@, self.render_config.prompt)];
        put(&mut self.untitled_render_box_abstraction, prefix);
        put_space(&mut self.untitled_render_box_abstraction);
        put_styled(&mut self.untitled_render_box_abstraction, prompt, self.render_config.prompt);
        proof {
            lemma_performed_concat(start, a, b);
            lemma_performed_concat(start, a + b, c);
            assert(a + b + c =~= prompt_with_prefix_ops(old(self)@.config, prefix@, prompt@));
        }
    }

    /// Writes a prompt behind the usual prefix.
    pub(crate) fn print_prompt(&mut self, prompt: &str)
        ensures
            final(self)@ == old(self)@.performed(prompt_ops(old(self)@.config, prompt@)),
    {
        let prefix = self.render_config.prompt_prefix.duplicate();
        self.print_prompt_with_prefix(&prefix, prompt);
    }

    /// Writes a default value, in round brackets.
    fn print_default_value(&mut self, value: &str)
        ensures
            final(self)@ == old(self)@.performed(default_value_ops(old(self)@.config, value@)),
    {
        let mut content = String::new();
        content.push('(');
        content.append(value);
        content.push(')');
        assert(content@ =~= default_value_text(value@));
        put_styled(
            &mut self.untitled_render_box_abstraction,
            content.as_str(),
            self.render_config.default_value,
        );
    }

    /// Writes what stands in front of the option at index
    /// `option_relative_index` of the page, whether the page holds such an
    /// option or not.
    fn print_option_prefix(&mut self, option_relative_index: usize, page: &Page)
        ensures
            final(self)@ == old(self)@.performed(
                seq![
                    RenderOp::Write(option_prefix(old(self)@.config, *page, option_relative_index)),
                ],
            ),
    {
        let highlighted = match page.cursor {
            Some(cursor) => cursor == option_relative_index,
            None => false,
        };
        if highlighted {
            put(
                &mut self.untitled_render_box_abstraction,
                &self.render_config.highlighted_option_prefix,
            );
        } else if option_relative_index == 0 && !page.first {
            put(&mut self.untitled_render_box_abstraction, &self.render_config.scroll_up_prefix);
        } else if page.content.len() > 0 && option_relative_index == page.content.len() - 1
            && !page.last {
            put(&mut self.untitled_render_box_abstraction, &self.render_config.scroll_down_prefix);
        } else {
            put_char(&mut self.untitled_render_box_abstraction, ' ', StyleSheet::new());
        }
    }

    /// Writes the text of the option at index `option_relative_index` of
    /// the page.
    fn print_option_value(&mut self, option_relative_index: usize, option: &ListOption, page: &Page)
        ensures
            final(self)@ == old(self)@.performed(
                seq![
                    styled(
                        option.value@,
                        option_style(old(self)@.config, *page, option_relative_index),
                    ),
                ],
            ),
    {
        let highlighted = match page.cursor {
            Some(cursor) => cursor == option_relative_index,
            None => false,
        };
        let stylesheet = match self.render_config.selected_option {
            Some(selected_option_style) => if highlighted {
                selected_option_style
            } else {
                self.render_config.option
            },
            None => self.render_config.option,
        };
        put_styled(&mut self.untitled_render_box_abstraction, option.value.as_str(), stylesheet);
    }

    /// Writes the index of an option and a space behind it, where indexes
    /// are shown; `index` counts from zero, and `max_index` is the number of
    /// options of the whole list.
    fn print_option_index_prefix(&mut self, index: usize, max_index: usize)
        ensures
            final(self)@ == old(self)@.performed(
                index_prefix_ops(old(self)@.config, index, max_index),
            ),
    {
        let number = decimal(index.saturating_add(1));
        let mut content = match self.render_config.option_index_prefix {
            IndexPrefix::Hidden => {
                proof {
                    lemma_apply_none(self@.render_box.current);
                }
                return ;
            },
            IndexPrefix::Simple => pad_left(&number, 0, ' '),
            IndexPrefix::SpacePadded => {
                let width = int_log10(max_index.saturating_add(1));
                pad_left(&number, width, ' ')
            },
            IndexPrefix::ZeroPadded => {
                let width = int_log10(max_index.saturating_add(1));
                pad_left(&number, width, '0')
            },
        };
        content.push(')');
        let ghost start = self@.render_box;
        let ghost text = index_prefix_text(self@.config, index, max_index)->0;
        assert(content@ == text);
        put_styled(
            &mut self.untitled_render_box_abstraction,
            content.as_str(),
            self.render_config.option,
        );
        put_space(&mut self.untitled_render_box_abstraction);
        proof {
            lemma_performed_concat(
                start,
                seq![styled(text, self.render_config.option)],
                seq![space()],
            );
            assert(seq![styled(text, self.render_config.option)] + seq![space()]
                =~= index_prefix_ops(old(self)@.config, index, max_index));
        }
    }

    /// Writes an input: a space, the mark of the cursor, the text or the
    /// placeholder, and a space for the cursor to stand on at the end.
    fn print_input(&mut self, input: &Input)
        ensures
            final(self)@ == old(self)@.performed(input_ops(old(self)@.config, input@)),
    {
        let ghost start = self@.render_box;
        let ghost config = self@.config;
        let ghost head = seq![space(), RenderOp::MarkCursor(input@.cursor as isize)];
        put_space(&mut self.untitled_render_box_abstraction);
        let cursor_offset = input.cursor();
        put_mark(
            &mut self.untitled_render_box_abstraction,
            #[verifier::truncate]
            (cursor_offset as isize),
        );
        proof {
            lemma_performed_concat(
                start,
                seq![space()],
                seq![RenderOp::MarkCursor(input@.cursor as isize)],
            );
            assert(seq![space()] + seq![RenderOp::MarkCursor(input@.cursor as isize)] =~= head);
        }
        if input.is_empty() {
            match input.placeholder() {
                None => {
                    proof {
                        lemma_apply_none(self@.render_box.current);
                    }
                },
                Some(placeholder) => {
                    if placeholder.unicode_len() == 0 {
                        proof {
                            lemma_apply_none(self@.render_box.current);
                        }
                    } else {
                        put_styled(
                            &mut self.untitled_render_box_abstraction,
                            placeholder,
                            self.render_config.placeholder,
                        );
                    }
                },
            }
        } else {
            put_styled(
                &mut self.untitled_render_box_abstraction,
                input.content(),
                self.render_config.text_input,
            );
        }
        proof {
            lemma_performed_concat(start, head, input_text_ops(config, input@));
        }
        let ghost body = head + input_text_ops(config, input@);
        if input.cursor() == input.length() {
            put_space(&mut self.untitled_render_box_abstraction);
            proof {
                lemma_performed_concat(start, body, seq![space()]);
            }
        } else {
            proof {
                assert(body + Seq::<RenderOp>::empty() =~= body);
            }
        }
    }

    /// Writes a prompt with its default value, if any, and its input, on a
    /// line.
    fn print_prompt_with_input(&mut self, prompt: &str, default: Option<&str>, input: &Input)
        ensures
            final(self)@ == old(self)@.performed(
                prompt_with_input_ops(
                    old(self)@.config,
                    prompt@,
                    match default {
                        Some(value) => Some(value@),
                        None => None,
                    },
                    input@,
                ),
            ),
    {
        let ghost start = self@.render_box;
        let ghost config = self@.config;
        let ghost default_view = match default {
            Some(value) => Some(value@),
            None => None,
        };
        let ghost a = prompt_ops(config, prompt@);
        let ghost b = optional_default_ops(config, default_view);
        let ghost c = input_ops(config, input@);
        self.print_prompt(prompt);
        match default {
            Some(value) => {
                put_space(&mut self.untitled_render_box_abstraction);
                self.print_default_value(value);
                proof {
                    lemma_performed_concat(start, a, seq![space()]);
                    lemma_performed_concat(
                        start,
                        a + seq![space()],
                        default_value_ops(config, value@),
                    );
                    assert(a + seq![space()] + default_value_ops(config, value@) =~= a + b);
                }
            },
            None => {
                proof {
                    assert(a + b =~= a);
                }
            },
        }
        self.print_input(input);
        self.new_line();
        proof {
            lemma_performed_concat(start, a + b, c);
            lemma_performed_concat(start, a + b + c, seq![new_line()]);
        }
    }

    /// Writes a prompt on a line of its own.
    pub(crate) fn print_prompt_line(&mut self, prompt: &str)
        ensures
            final(self)@ == old(self)@.performed(prompt_line_ops(old(self)@.config, prompt@)),
    {
        let ghost start = self@.render_box;
        self.print_prompt(prompt);
        self.new_line();
        proof {
            lemma_performed_concat(start, prompt_ops(self@.config, prompt@), seq![new_line()]);
        }
    }
}

impl CommonBackend for Backend {
    open spec fn frame_open(&self) -> bool {
        self@.frame_open
    }

    /// Opens a frame. The cursor is to be hidden while the frame is drawn.
    fn frame_setup(&mut self) -> (commands: Vec<TerminalCommand>)
        ensures
            commands_of(commands@) == seq![CommandView::CursorHide],
            final(self)@ == (BackendView { frame_open: true, ..old(self)@ }),
    {
        self.frame_open = true;
        let mut commands: Vec<TerminalCommand> = Vec::new();
        commands.push(self.untitled_render_box_abstraction.hide_cursor());
        assert(commands_of(commands@) =~= seq![CommandView::CursorHide]);
        commands
    }

    /// Finishes the frame: the commands redraw the screen and then show
    /// the cursor at the place that the frame marks, if it marks one. The
    /// frame on screen is fitted to the terminal and the written frame is
    /// finished; the one takes the place of the other in `frame_committed`.
    fn frame_finish(&mut self, terminal_size: TerminalSize) -> (commands: Vec<TerminalCommand>)
        ensures
            commands_of(commands@) == commit_commands(
                old(self)@.render_box.last.fit(terminal_size),
                old(self)@.render_box.current.finish(),
            ) + placement_commands(old(self)@.render_box.current.finish()),
            final(self)@ == (BackendView {
                render_box: old(self)@.render_box.finished(terminal_size),
                ..old(self)@
            }),
    {
        let mut commands = self.untitled_render_box_abstraction.finish_current_frame(
            terminal_size,
        );
        let ghost redraw = commands_of(commands@);
        let mut placement = self.untitled_render_box_abstraction.placement_commands();
        let ghost shown = commands_of(placement@);
        commands.append(&mut placement);
        assert(commands_of(commands@) =~= redraw + shown);
        commands
    }

    /// Closes the frame after its commands were carried out: the written
    /// frame is the frame on screen, with the cursor at the mark if it marks
    /// one, and an empty frame of the given size is the one to write next.
    fn frame_committed(&mut self, terminal_size: TerminalSize)
        ensures
            final(self)@ == (BackendView {
                render_box: RenderBoxView {
                    last: placed(old(self)@.render_box.current),
                    current: FrameView::fresh(terminal_size),
                },
                frame_open: false,
                ..old(self)@
            }),
    {
        self.untitled_render_box_abstraction.swap_frames(terminal_size);
        self.untitled_render_box_abstraction.settle_cursor();
        self.frame_open = false;
    }

    fn render_canceled_prompt(&mut self, prompt: &str)
        ensures
            final(self)@ == old(self)@.performed(canceled_prompt_ops(old(self)@.config, prompt@)),
    {
        let ghost start = self@.render_box;
        let ghost config = self@.config;
        let ghost a = prompt_ops(config, prompt@);
        let ghost b = seq![space()];
        let ghost c = seq![RenderOp::Write(config.canceled_prompt_indicator@)];
        self.print_prompt(prompt);
        put_space(&mut self.untitled_render_box_abstraction);
        put(
            &mut self.untitled_render_box_abstraction,
            &self.render_config.canceled_prompt_indicator,
        );
        self.new_line();
        proof {
            lemma_performed_concat(start, a, b);
            lemma_performed_concat(start, a + b, c);
            lemma_performed_concat(start, a + b + c, seq![new_line()]);
            assert(a + b + c + seq![new_line()] =~= canceled_prompt_ops(config, prompt@));
        }
    }

    fn render_prompt_with_answer(&mut self, prompt: &str, answer: &str)
        ensures
            final(self)@ == old(self)@.performed(
                prompt_with_answer_ops(old(self)@.config, prompt@, answer@),
            ),
    {
        let ghost start = self@.render_box;
        let ghost config = self@.config;
        let ghost a = prompt_with_prefix_ops(config, config.answered_prompt_prefix@, prompt@);
        let ghost b = seq![space()];
        let ghost c = seq![styled(answer@, config.answer)];
        let prefix = self.render_config.answered_prompt_prefix.duplicate();
        self.print_prompt_with_prefix(&prefix, prompt);
        put_space(&mut self.untitled_render_box_abstraction);
        put_styled(&mut self.untitled_render_box_abstraction, answer, self.render_config.answer);
        self.new_line();
        proof {
            lemma_performed_concat(start, a, b);
            lemma_performed_concat(start, a + b, c);
            lemma_performed_concat(start, a + b + c, seq![new_line()]);
            assert(a + b + c + seq![new_line()] =~= prompt_with_answer_ops(
                config,
                prompt@,
                answer@,
            ));
        }
    }

    fn render_error_message(&mut self, error: &ErrorMessage)
        ensures
            final(self)@ == old(self)@.performed(error_message_ops(old(self)@.config, *error)),
    {
        let ghost start = self@.render_box;
        let ghost config = self@.config;
        let ghost a = seq![RenderOp::Write(config.error_message.prefix@)];
        let ghost b = seq![styled(seq![' '], config.error_message.separator)];
        let ghost c = seq![styled(error_text(config, *error), config.error_message.message)];
        put(&mut self.untitled_render_box_abstraction, &self.render_config.error_message.prefix);
        put_char(
            &mut self.untitled_render_box_abstraction,
            ' ',
            self.render_config.error_message.separator,
        );
        match error {
            ErrorMessage::Default => {
                put_styled(
                    &mut self.untitled_render_box_abstraction,
                    self.render_config.error_message.default_message.as_str(),
                    self.render_config.error_message.message,
                );
            },
            ErrorMessage::Custom(message) => {
                put_styled(
                    &mut self.untitled_render_box_abstraction,
                    message.as_str(),
                    self.render_config.error_message.message,
                );
            },
        }
        self.new_line();
        proof {
            lemma_performed_concat(start, a, b);
            lemma_performed_concat(start, a + b, c);
            lemma_performed_concat(start, a + b + c, seq![new_line()]);
            assert(a + b + c + seq![new_line()] =~= error_message_ops(config, *error));
        }
    }

    fn render_help_message(&mut self, help: &str)
        ensures
            final(self)@ == old(self)@.performed(help_message_ops(old(self)@.config, help@)),
    {
        let ghost start = self@.render_box;
        let ghost config = self@.config;
        let ghost a = seq![styled(seq!['['], config.help_message)];
        let ghost b = seq![styled(help@, config.help_message)];
        let ghost c = seq![styled(seq![']'], config.help_message)];
        put_char(&mut self.untitled_render_box_abstraction, '[', self.render_config.help_message);
        put_styled(
            &mut self.untitled_render_box_abstraction,
            help,
            self.render_config.help_message,
        );
        put_char(&mut self.untitled_render_box_abstraction, ']', self.render_config.help_message);
        self.new_line();
        proof {
            lemma_performed_concat(start, a, b);
            lemma_performed_concat(start, a + b, c);
            lemma_performed_concat(start, a + b + c, seq![new_line()]);
            assert(a + b + c + seq![new_line()] =~= help_message_ops(config, help@));
        }
    }
}

impl TextBackend for Backend {
    fn render_prompt(&mut self, prompt: &str, default: Option<&str>, cur_input: &Input)
        ensures
            final(self)@ == old(self)@.performed(
                prompt_with_input_ops(
                    old(self)@.config,
                    prompt@,
                    match default {
                        Some(value) => Some(value@),
                        None => None,
                    },
                    cur_input@,
                ),
            ),
    {
        self.print_prompt_with_input(prompt, default, cur_input);
    }

    fn render_suggestions(&mut self, page: &Page)
        ensures
            final(self)@ == old(self)@.performed(suggestions_ops(old(self)@.config, *page)),
    {
        let ghost start = self@;
        let ghost config = self@.config;
        let ghost line = |idx: int| suggestion_ops(config, *page, idx);
        let mut idx: usize = 0;
        proof {
            lemma_apply_none(start.render_box.current);
        }
        while idx < page.content.len()
            invariant
                idx <= page.content.len(),
                self@ == start.performed(lines(idx as nat, line)),
                start.config == config,
                line == |idx: int| suggestion_ops(config, *page, idx),
            decreases page.content.len() - idx,
        {
            self.print_suggestion(idx, page);
            proof {
                lemma_performed_concat(
                    start.render_box,
                    lines(idx as nat, line),
                    line(idx as int),
                );
            }
            idx = idx + 1;
        }
    }
}

impl EditorBackend for Backend {
    fn render_prompt(&mut self, prompt: &str, editor_command: &str)
        ensures
            final(self)@ == old(self)@.performed(
                editor_prompt_ops(old(self)@.config, prompt@, editor_command@),
            ),
    {
        let ghost start = self@.render_box;
        let ghost config = self@.config;
        let ghost a = prompt_ops(config, prompt@);
        let ghost b = seq![space()];
        let ghost c = seq![styled(editor_hint_text(editor_command@), config.editor_prompt)];
        self.print_prompt(prompt);
        put_space(&mut self.untitled_render_box_abstraction);
        let mut message = "[(e) to open ".to_owned();
        message.append(editor_command);
        message.append(", (enter) to submit]");
        put_styled(
            &mut self.untitled_render_box_abstraction,
            message.as_str(),
            self.render_config.editor_prompt,
        );
        self.new_line();
        proof {
            lemma_performed_concat(start, a, b);
            lemma_performed_concat(start, a + b, c);
            lemma_performed_concat(start, a + b + c, seq![new_line()]);
            assert(a + b + c + seq![new_line()] =~= editor_prompt_ops(
                config,
                prompt@,
                editor_command@,
            ));
        }
    }
}

/// The operations of the prompt of a list: with the filter that was typed,
/// if there is one, on a line; else the prompt alone, and the line goes on.
pub open spec fn list_prompt_ops(
    config: RenderConfig,
    prompt: Seq<char>,
    input: Option<Input>,
) -> Seq<RenderOp> {
    match input {
        Some(input) => prompt_with_input_ops(config, prompt, None, input@),
        None => prompt_ops(config, prompt),
    }
}

impl Backend {
    /// Writes the prompt of a list.
    fn print_list_prompt(&mut self, prompt: &str, cur_input: Option<&Input>)
        ensures
            final(self)@ == old(self)@.performed(
                list_prompt_ops(
                    old(self)@.config,
                    prompt@,
                    match cur_input {
                        Some(input) => Some(*input),
                        None => None,
                    },
                ),
            ),
    {
        match cur_input {
            Some(input) => self.print_prompt_with_input(prompt, None, input),
            None => self.print_prompt(prompt),
        }
    }

    /// Writes the line of the suggestion at index `idx` of the page.
    fn print_suggestion(&mut self, idx: usize, page: &Page)
        requires
            idx < page.content.len(),
        ensures
            final(self)@ == old(self)@.performed(
                suggestion_ops(old(self)@.config, *page, idx as int),
            ),
    {
        let ghost start = self@.render_box;
        let ghost config = self@.config;
        let ghost a = seq![RenderOp::Write(option_prefix(config, *page, idx))];
        let ghost b = seq![space()];
        let ghost c = seq![
            styled(page.content[idx as int].value@, option_style(config, *page, idx)),
        ];
        self.print_option_prefix(idx, page);
        put_space(&mut self.untitled_render_box_abstraction);
        self.print_option_value(idx, &page.content[idx], page);
        self.new_line();
        proof {
            lemma_performed_concat(start, a, b);
            lemma_performed_concat(start, a + b, c);
            lemma_performed_concat(start, a + b + c, seq![new_line()]);
            assert(a + b + c + seq![new_line()] =~= suggestion_ops(config, *page, idx as int));
        }
    }

    /// Writes the line of the option at index `idx` of a page to select
    /// from.
    fn print_select_option(&mut self, idx: usize, page: &Page)
        requires
            idx < page.content.len(),
        ensures
            final(self)@ == old(self)@.performed(
                select_option_ops(old(self)@.config, *page, idx as int),
            ),
    {
        let option = &page.content[idx];
        let ghost start = self@.render_box;
        let ghost config = self@.config;
        let ghost a = seq![RenderOp::Write(option_prefix(config, *page, idx)), space()];
        let ghost c = index_prefix_ops(config, option.index, page.total);
        let ghost d = seq![
            styled(option.value@, option_style(config, *page, idx)),
            new_line(),
        ];
        self.print_option_head(idx, page);
        self.print_option_index_prefix(option.index, page.total);
        self.print_option_tail(idx, page);
        proof {
            lemma_performed_concat(start, a, c);
            lemma_performed_concat(start, a + c, d);
        }
    }

    /// Writes what stands in front of the option at index `idx` of the
    /// page, and a space.
    fn print_option_head(&mut self, idx: usize, page: &Page)
        requires
            idx < page.content.len(),
        ensures
            final(self)@ == old(self)@.performed(
                seq![RenderOp::Write(option_prefix(old(self)@.config, *page, idx)), space()],
            ),
    {
        let ghost start = self@.render_box;
        let ghost a = seq![RenderOp::Write(option_prefix(self@.config, *page, idx))];
        self.print_option_prefix(idx, page);
        put_space(&mut self.untitled_render_box_abstraction);
        proof {
            lemma_performed_concat(start, a, seq![space()]);
            assert(a + seq![space()] =~= seq![
                RenderOp::Write(option_prefix(old(self)@.config, *page, idx)),
                space(),
            ]);
        }
    }

    /// Writes the text of the option at index `idx` of the page, and ends
    /// the line.
    fn print_option_tail(&mut self, idx: usize, page: &Page)
        requires
            idx < page.content.len(),
        ensures
            final(self)@ == old(self)@.performed(
                seq![
                    styled(
                        page.content[idx as int].value@,
                        option_style(old(self)@.config, *page, idx),
                    ),
                    new_line(),
                ],
            ),
    {
        let ghost start = self@.render_box;
        let ghost a = seq![
            styled(page.content[idx as int].value@, option_style(self@.config, *page, idx)),
        ];
        self.print_option_value(idx, &page.content[idx], page);
        self.new_line();
        proof {
            lemma_performed_concat(start, a, seq![new_line()]);
            assert(a + seq![new_line()] =~= seq![
                styled(
                    page.content[idx as int].value@,
                    option_style(old(self)@.config, *page, idx),
                ),
                new_line(),
            ]);
        }
    }

    /// Writes the box of the option at index `idx` of the page, and a
    /// space.
    fn print_checkbox(&mut self, idx: usize, page: &Page, checked: &BTreeSet<usize>)
        requires
            idx < page.content.len(),
        ensures
            final(self)@ == old(self)@.performed(
                seq![
                    RenderOp::Write(checkbox(old(self)@.config, *page, checked@, idx as int)),
                    space(),
                ],
            ),
    {
        broadcast use vstd::std_specs::btree::group_btree_axioms;

        let option = &page.content[idx];
        let ghost start = self@.render_box;
        let ghost config = self@.config;
        let mut shown = if checked.contains(&option.index) {
            self.render_config.selected_checkbox.duplicate()
        } else {
            self.render_config.unselected_checkbox.duplicate()
        };
        let highlighted = match page.cursor {
            Some(cursor) => cursor == idx,
            None => false,
        };
        match self.render_config.selected_option {
            Some(stylesheet) => {
                if highlighted {
                    shown.style = stylesheet;
                }
            },
            None => {},
        }
        assert(shown@ == checkbox(config, *page, checked@, idx as int));
        put(&mut self.untitled_render_box_abstraction, &shown);
        put_space(&mut self.untitled_render_box_abstraction);
        proof {
            lemma_performed_concat(start, seq![RenderOp::Write(shown@)], seq![space()]);
            assert(seq![RenderOp::Write(shown@)] + seq![space()] =~= seq![
                RenderOp::Write(checkbox(config, *page, checked@, idx as int)),
                space(),
            ]);
        }
    }

    /// Writes the line of the option at index `idx` of a page of options
    /// to check.
    fn print_multiselect_option(&mut self, idx: usize, page: &Page, checked: &BTreeSet<usize>)
        requires
            idx < page.content.len(),
        ensures
            final(self)@ == old(self)@.performed(
                multiselect_option_ops(old(self)@.config, *page, checked@, idx as int),
            ),
    {
        let option = &page.content[idx];
        let ghost start = self@.render_box;
        let ghost config = self@.config;
        let ghost a = seq![RenderOp::Write(option_prefix(config, *page, idx)), space()];
        let ghost c = index_prefix_ops(config, option.index, page.total);
        let ghost d = seq![
            RenderOp::Write(checkbox(config, *page, checked@, idx as int)),
            space(),
        ];
        let ghost e = seq![
            styled(option.value@, option_style(config, *page, idx)),
            new_line(),
        ];
        self.print_option_head(idx, page);
        self.print_option_index_prefix(option.index, page.total);
        self.print_checkbox(idx, page, checked);
        self.print_option_tail(idx, page);
        proof {
            lemma_performed_concat(start, a, c);
            lemma_performed_concat(start, a + c, d);
            lemma_performed_concat(start, a + c + d, e);
            assert(a + c + d + e =~= multiselect_option_ops(config, *page, checked@, idx as int));
        }
    }
}

impl SelectBackend for Backend {
    fn render_select_prompt(&mut self, prompt: &str, cur_input: Option<&Input>)
        ensures
            final(self)@ == old(self)@.performed(
                list_prompt_ops(
                    old(self)@.config,
                    prompt@,
                    match cur_input {
                        Some(input) => Some(*input),
                        None => None,
                    },
                ),
            ),
    {
        self.print_list_prompt(prompt, cur_input);
    }

    fn render_options(&mut self, page: &Page)
        ensures
            final(self)@ == old(self)@.performed(select_options_ops(old(self)@.config, *page)),
    {
        let ghost start = self@;
        let ghost config = self@.config;
        let ghost line = |idx: int| select_option_ops(config, *page, idx);
        let mut idx: usize = 0;
        proof {
            lemma_apply_none(start.render_box.current);
        }
        while idx < page.content.len()
            invariant
                idx <= page.content.len(),
                self@ == start.performed(lines(idx as nat, line)),
                start.config == config,
                line == |idx: int| select_option_ops(config, *page, idx),
            decreases page.content.len() - idx,
        {
            self.print_select_option(idx, page);
            proof {
                lemma_performed_concat(
                    start.render_box,
                    lines(idx as nat, line),
                    line(idx as int),
                );
            }
            idx = idx + 1;
        }
    }
}

impl MultiSelectBackend for Backend {
    fn render_multiselect_prompt(&mut self, prompt: &str, cur_input: Option<&Input>)
        ensures
            final(self)@ == old(self)@.performed(
                list_prompt_ops(
                    old(self)@.config,
                    prompt@,
                    match cur_input {
                        Some(input) => Some(*input),
                        None => None,
                    },
                ),
            ),
    {
        self.print_list_prompt(prompt, cur_input);
    }

    fn render_options(&mut self, page: &Page, checked: &BTreeSet<usize>)
        ensures
            final(self)@ == old(self)@.performed(
                multiselect_options_ops(old(self)@.config, *page, checked@),
            ),
    {
        let ghost start = self@;
        let ghost config = self@.config;
        let ghost line = |idx: int| multiselect_option_ops(config, *page, checked@, idx);
        let mut idx: usize = 0;
        proof {
            lemma_apply_none(start.render_box.current);
        }
        while idx < page.content.len()
            invariant
                idx <= page.content.len(),
                self@ == start.performed(lines(idx as nat, line)),
                start.config == config,
                line == |idx: int| multiselect_option_ops(config, *page, checked@, idx),
            decreases page.content.len() - idx,
        {
            self.print_multiselect_option(idx, page, checked);
            proof {
                lemma_performed_concat(
                    start.render_box,
                    lines(idx as nat, line),
                    line(idx as int),
                );
            }
            idx = idx + 1;
        }
    }
}

impl CustomTypeBackend for Backend {
    fn render_prompt(&mut self, prompt: &str, default: Option<&str>, cur_input: &Input)
        ensures
            final(self)@ == old(self)@.performed(
                prompt_with_input_ops(
                    old(self)@.config,
                    prompt@,
                    match default {
                        Some(value) => Some(value@),
                        None => None,
                    },
                    cur_input@,
                ),
            ),
    {
        self.print_prompt_with_input(prompt, default, cur_input);
    }
}

impl PasswordBackend for Backend {
    fn render_prompt(&mut self, prompt: &str)
        ensures
            final(self)@ == old(self)@.performed(prompt_line_ops(old(self)@.config, prompt@)),
    {
        self.print_prompt_line(prompt);
    }

    fn render_prompt_with_masked_input(&mut self, prompt: &str, cur_input: &Input)
        ensures
            final(self)@ == old(self)@.performed(
                prompt_with_input_ops(
                    old(self)@.config,
                    prompt@,
                    None,
                    masked_input(old(self)@.config, cur_input@),
                ),
            ),
    {
        let masked_string = repeat_char(self.render_config.password_mask, cur_input.length());
        let masked = Input::new_with(masked_string.as_str()).with_cursor(cur_input.cursor());
        assert(masked@ == masked_input(self@.config, cur_input@));
        self.print_prompt_with_input(prompt, None, &masked);
    }

    fn render_prompt_with_full_input(&mut self, prompt: &str, cur_input: &Input)
        ensures
            final(self)@ == old(self)@.performed(
                prompt_with_input_ops(old(self)@.config, prompt@, None, cur_input@),
            ),
    {
        self.print_prompt_with_input(prompt, None, cur_input);
    }
}

} // verus!
