//! Commands for the terminal. The renderer decides what is to be done and
//! hands the commands out; whoever owns the terminal carries them out, in
//! order.

use crate::style::{Styled, Token};
use vstd::prelude::*;

verus! {

/// One thing for the terminal to do.
#[derive(Clone, Debug, PartialEq, Eq)]
pub enum TerminalCommand {
    /// Move the cursor up by the given number of rows.
    CursorUp(u16),
    /// Move the cursor down by the given number of rows.
    CursorDown(u16),
    /// Move the cursor to the given column of its row.
    CursorMoveToColumn(u16),
    /// Clear the row that the cursor is on.
    ClearCurrentLine,
    /// Clear from the cursor to the end of its row.
    ClearUntilNewLine,
    /// Write a text as it is.
    Write(String),
    /// Write a token in its style.
    WriteStyled(Styled),
    /// Send what was written so far to the screen.
    Flush,
    /// Show the cursor.
    CursorShow,
    /// Hide the cursor.
    CursorHide,
}

/// What a command says.
pub enum CommandView {
    CursorUp(u16),
    CursorDown(u16),
    CursorMoveToColumn(u16),
    ClearCurrentLine,
    ClearUntilNewLine,
    Write(Seq<char>),
    WriteStyled(Token),
    Flush,
    CursorShow,
    CursorHide,
}

impl View for TerminalCommand {
    type V = CommandView;

    open spec fn view(&self) -> CommandView {
        match self {
            TerminalCommand::CursorUp(n) => CommandView::CursorUp(*n),
            TerminalCommand::CursorDown(n) => CommandView::CursorDown(*n),
            TerminalCommand::CursorMoveToColumn(n) => CommandView::CursorMoveToColumn(*n),
            TerminalCommand::ClearCurrentLine => CommandView::ClearCurrentLine,
            TerminalCommand::ClearUntilNewLine => CommandView::ClearUntilNewLine,
            TerminalCommand::Write(text) => CommandView::Write(text@),
            TerminalCommand::WriteStyled(token) => CommandView::WriteStyled(token@),
            TerminalCommand::Flush => CommandView::Flush,
            TerminalCommand::CursorShow => CommandView::CursorShow,
            TerminalCommand::CursorHide => CommandView::CursorHide,
        }
    }
}

/// What a list of commands says, command by command.
pub open spec fn commands_of(v: Seq<TerminalCommand>) -> Seq<CommandView> {
    v.map_values(|c: TerminalCommand| c@)
}

impl CommandView {
    /// Whether the command puts content on the screen or takes content off
    /// it, as opposed to moving the cursor, advancing a line or flushing.
    pub open spec fn touches_content(self) -> bool {
        self is WriteStyled || self is ClearCurrentLine || self is ClearUntilNewLine
    }
}

/// The line break, as a text.
pub open spec fn line_break() -> Seq<char> {
    seq!['\n']
}

/// The command that advances the cursor by one line.
pub fn line_advance() -> (command: TerminalCommand)
    ensures
        command@ == CommandView::Write(line_break()),
{
    let mut text = String::new();
    text.push('\n');
    TerminalCommand::Write(text)
}

} // verus!
