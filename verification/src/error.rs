//! What the pager reports instead of doing what it was asked.

use vstd::prelude::*;

verus! {

/// The terminal could not be set up for paging.
#[derive(Debug, PartialEq, Eq, Structural, Copy, Clone)]
pub enum TermError {
    /// Standard output is a terminal, but its size could not be read.
    SizeUnavailable,
}

/// A text for the last terminal row was refused because it holds a line
/// feed: that row is one row high.
#[derive(Debug, PartialEq, Eq, Structural, Copy, Clone)]
pub enum TextError {
    /// The text was meant as the prompt.
    InvalidPromptText,
    /// The text was meant as a message.
    InvalidMessageText,
}

} // verus!
