//! Options of a list, and the page of them that is on screen.

use vstd::prelude::*;

verus! {

/// An option of a list: its text, and its index in the whole list.
#[derive(Debug)]
pub struct ListOption {
    pub index: usize,
    pub value: String,
}

impl ListOption {
    /// The option with the given index and text.
    pub fn new(index: usize, value: &str) -> (option: ListOption)
        ensures
            option.index == index,
            option.value@ == value@,
    {
        ListOption { index, value: value.to_owned() }
    }
}

/// The part of a list that is on screen.
#[derive(Debug)]
pub struct Page {
    /// Whether the page starts with the first option of the list.
    pub first: bool,
    /// Whether the page ends with the last option of the list.
    pub last: bool,
    /// The options on the page.
    pub content: Vec<ListOption>,
    /// Index, within the page, of the option under the cursor.
    pub cursor: Option<usize>,
    /// Number of options of the whole list.
    pub total: usize,
}

/// The message of a failed validation.
#[derive(Debug)]
pub enum ErrorMessage {
    /// The message that the configuration holds for this case.
    Default,
    /// A message of its own.
    Custom(String),
}

} // verus!
