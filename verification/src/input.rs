//! What the user typed so far, and where the text cursor stands in it.

use vstd::prelude::*;

verus! {

/// A line of input: its text, the place of the cursor in it, counted in
/// characters, and a placeholder for the time when there is no text.
#[derive(Debug)]
pub struct Input {
    content: String,
    placeholder: Option<String>,
    cursor: usize,
    length: usize,
}

/// What an input says.
pub struct InputView {
    pub content: Seq<char>,
    pub placeholder: Option<Seq<char>>,
    pub cursor: usize,
}

impl View for Input {
    type V = InputView;

    closed spec fn view(&self) -> InputView {
        InputView {
            content: self.content@,
            placeholder: match self.placeholder {
                Some(text) => Some(text@),
                None => None,
            },
            cursor: self.cursor,
        }
    }
}

impl Input {
    #[verifier::type_invariant]
    spec fn inv(self) -> bool {
        self.length == self.content@.len() && self.cursor <= self.length
    }

    /// The empty input.
    pub fn new() -> (input: Input)
        ensures
            input@ == (InputView { content: Seq::empty(), placeholder: None, cursor: 0 }),
    {
        Input { content: String::new(), placeholder: None, cursor: 0, length: 0 }
    }

    /// The input with the given text and the cursor at its end.
    pub fn new_with(content: &str) -> (input: Input)
        ensures
            input@.content == content@,
            input@.placeholder is None,
            input@.cursor == content@.len(),
    {
        let length = content.unicode_len();
        Input { content: content.to_owned(), placeholder: None, cursor: length, length }
    }

    /// The same input with the given placeholder.
    pub fn with_placeholder(self, placeholder: &str) -> (input: Input)
        ensures
            input@ == (InputView { placeholder: Some(placeholder@), ..self@ }),
    {
        proof {
            use_type_invariant(&self);
        }
        Input {
            content: self.content,
            placeholder: Some(placeholder.to_owned()),
            cursor: self.cursor,
            length: self.length,
        }
    }

    /// The same input with the cursor before the character at index
    /// `cursor`, or at the end if `cursor` is the length of the text.
    pub fn with_cursor(self, cursor: usize) -> (input: Input)
        requires
            cursor <= self@.content.len(),
        ensures
            input@ == (InputView { cursor, ..self@ }),
    {
        proof {
            use_type_invariant(&self);
        }
        Input {
            content: self.content,
            placeholder: self.placeholder,
            cursor,
            length: self.length,
        }
    }

    /// Whether there is no text.
    pub fn is_empty(&self) -> (b: bool)
        ensures
            b == (self@.content.len() == 0),
    {
        proof {
            use_type_invariant(self);
        }
        self.length == 0
    }

    /// The text.
    pub fn content(&self) -> (content: &str)
        ensures
            content@ == self@.content,
    {
        self.content.as_str()
    }

    /// The placeholder, if there is one.
    pub fn placeholder(&self) -> (placeholder: Option<&str>)
        ensures
            match placeholder {
                Some(text) => self@.placeholder == Some(text@),
                None => self@.placeholder is None,
            },
    {
        match &self.placeholder {
            Some(text) => Some(text.as_str()),
            None => None,
        }
    }

    /// Number of characters before the cursor.
    pub fn cursor(&self) -> (cursor: usize)
        ensures
            cursor == self@.cursor,
            cursor <= self@.content.len(),
    {
        proof {
            use_type_invariant(self);
        }
        self.cursor
    }

    /// Number of characters of the text.
    pub fn length(&self) -> (length: usize)
        ensures
            length == self@.content.len(),
    {
        proof {
            use_type_invariant(self);
        }
        self.length
    }
}

} // verus!
