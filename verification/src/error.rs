//! The ways in which a review can fail.

use vstd::prelude::*;
use vstd::string::*;

verus! {

/// A fatal condition: each one ends the review.
#[derive(Clone, Debug, PartialEq, Eq)]
pub enum Error {
    /// The terminal could not be switched to raw mode, read or written; the
    /// field is the driver's description.
    CrosstermError(String),
    /// The repository could not be read or changed; the field is the
    /// backend's description.
    GitError(String),
    /// A branch name is not valid UTF-8; the field describes where.
    FromUtf8Error(String),
    /// A keystroke that is no command.
    InvalidInput(char),
}

/// An error as plain values.
pub ghost enum ErrorView {
    CrosstermError(Seq<char>),
    GitError(Seq<char>),
    FromUtf8Error(Seq<char>),
    InvalidInput(char),
}

impl View for Error {
    type V = ErrorView;

    open spec fn view(&self) -> ErrorView {
        match self {
            Error::CrosstermError(description) => ErrorView::CrosstermError(description@),
            Error::GitError(description) => ErrorView::GitError(description@),
            Error::FromUtf8Error(description) => ErrorView::FromUtf8Error(description@),
            Error::InvalidInput(c) => ErrorView::InvalidInput(*c),
        }
    }
}

/// Start of the report of an unknown keystroke.
pub open spec fn invalid_input_prefix() -> Seq<char> {
    "Invalid input, Dont know what to do with '"@
}

impl ErrorView {
    /// The line that reports this error: the description that came with it,
    /// or the unknown key between quotes.
    pub open spec fn text(self) -> Seq<char> {
        match self {
            ErrorView::CrosstermError(description) => description,
            ErrorView::GitError(description) => description,
            ErrorView::FromUtf8Error(description) => description,
            ErrorView::InvalidInput(c) => invalid_input_prefix().push(c).push('\''),
        }
    }
}

impl Error {
    /// The line that reports this error, as the user reads it.
    pub fn message(&self) -> (r: String)
        ensures
            r@ == self@.text(),
    {
        match self {
            Error::CrosstermError(description) => description.clone(),
            Error::GitError(description) => description.clone(),
            Error::FromUtf8Error(description) => description.clone(),
            Error::InvalidInput(c) => {
                let mut line = String::from_str("Invalid input, Dont know what to do with '");
                line.push(*c);
                line.push('\'');
                line
            },
        }
    }
}

} // verus!
