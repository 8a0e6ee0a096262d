//! Positions and sizes, in rows and columns.

use vstd::prelude::*;

verus! {

/// A place in a frame: row and column, counted from the start of the frame.
#[derive(Clone, Copy, Debug, PartialEq, Eq, Structural)]
pub struct Position {
    pub row: u16,
    pub col: u16,
}

impl Default for Position {
    /// The start of the frame.
    fn default() -> (p: Position)
        ensures
            p == (Position { row: 0, col: 0 }),
    {
        Position { row: 0, col: 0 }
    }
}

/// The size of the terminal, in columns and rows.
#[derive(Clone, Copy, Debug, PartialEq, Eq, Structural)]
pub struct TerminalSize {
    pub width: u16,
    pub height: u16,
}

impl TerminalSize {
    /// Number of columns.
    pub open spec fn spec_width(&self) -> u16 {
        self.width
    }

    /// Number of rows.
    pub open spec fn spec_height(&self) -> u16 {
        self.height
    }

    /// A terminal of `width` columns and `height` rows.
    pub fn new(width: u16, height: u16) -> (size: TerminalSize)
        ensures
            size == (TerminalSize { width, height }),
    {
        TerminalSize { width, height }
    }

    /// Number of columns.
    #[verifier::when_used_as_spec(spec_width)]
    pub fn width(&self) -> (w: u16)
        ensures
            w == self.width,
    {
        self.width
    }

    /// Number of rows.
    #[verifier::when_used_as_spec(spec_height)]
    pub fn height(&self) -> (h: u16)
        ensures
            h == self.height,
    {
        self.height
    }
}

/// The extent of what a frame holds, in columns and rows.
#[derive(Clone, Copy, Debug, PartialEq, Eq, Structural)]
pub struct Dimension {
    pub width: u16,
    pub height: u16,
}

impl Dimension {
    /// Number of columns.
    pub open spec fn spec_width(&self) -> u16 {
        self.width
    }

    /// Number of rows.
    pub open spec fn spec_height(&self) -> u16 {
        self.height
    }

    /// An extent of `width` columns and `height` rows.
    pub fn new(width: u16, height: u16) -> (size: Dimension)
        ensures
            size == (Dimension { width, height }),
    {
        Dimension { width, height }
    }

    /// Number of columns.
    #[verifier::when_used_as_spec(spec_width)]
    pub fn width(&self) -> (w: u16)
        ensures
            w == self.width,
    {
        self.width
    }

    /// Number of rows.
    #[verifier::when_used_as_spec(spec_height)]
    pub fn height(&self) -> (h: u16)
        ensures
            h == self.height,
    {
        self.height
    }
}

} // verus!
