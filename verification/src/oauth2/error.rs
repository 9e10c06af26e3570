//! The ways in which reading the consumer's configuration can fail.

use vstd::prelude::*;

verus! {

/// Why a configuration could not be read. Each cause carries the message of
/// the failure underneath.
#[derive(Clone, Debug)]
pub enum Error {
    /// The file could not be read.
    IOError(String),
    /// The file's content is not a configuration.
    YamlError(String),
}

/// An `Error`, with its text as a sequence of characters.
pub ghost enum ErrorView {
    IOError(Seq<char>),
    YamlError(Seq<char>),
}

impl ErrorView {
    /// The text shown to the operator.
    pub open spec fn message(self) -> Seq<char> {
        match self {
            ErrorView::IOError(text) => text,
            ErrorView::YamlError(text) => text,
        }
    }
}

impl View for Error {
    type V = ErrorView;

    open spec fn view(&self) -> ErrorView {
        match self {
            Error::IOError(text) => ErrorView::IOError(text@),
            Error::YamlError(text) => ErrorView::YamlError(text@),
        }
    }
}

impl Error {
    /// The text shown to the operator.
    pub fn message(&self) -> (text: String)
        ensures
            text@ == self@.message(),
    {
        match self {
            Error::IOError(text) => text.clone(),
            Error::YamlError(text) => text.clone(),
        }
    }
}

} // verus!
