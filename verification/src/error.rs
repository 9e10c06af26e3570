//! The ways in which a run can fail before it gets to wait for a callback.

use vstd::prelude::*;
use vstd::std_specs::convert::FromSpecImpl;
use vstd::string::*;

verus! {

/// Why a run ended early. Every cause has one textual rendering, its message.
#[derive(Clone, Debug)]
pub enum Error {
    /// A rule of this library was broken; the text says which.
    Message(String),
    /// The console or the browser could not be reached.
    IOError(String),
    /// An address is not a URL.
    UrlParseError(String),
    /// The consumer's configuration could not be read.
    OAuth2Error(crate::oauth2::error::Error),
}

/// An `Error`, with its text as a sequence of characters.
pub ghost enum ErrorView {
    Message(Seq<char>),
    IOError(Seq<char>),
    UrlParseError(Seq<char>),
    OAuth2Error(crate::oauth2::error::ErrorView),
}

impl ErrorView {
    /// The text shown to the operator.
    pub open spec fn message(self) -> Seq<char> {
        match self {
            ErrorView::Message(text) => text,
            ErrorView::IOError(text) => text,
            ErrorView::UrlParseError(text) => text,
            ErrorView::OAuth2Error(cause) => cause.message(),
        }
    }
}

impl View for Error {
    type V = ErrorView;

    open spec fn view(&self) -> ErrorView {
        match self {
            Error::Message(text) => ErrorView::Message(text@),
            Error::IOError(text) => ErrorView::IOError(text@),
            Error::UrlParseError(text) => ErrorView::UrlParseError(text@),
            Error::OAuth2Error(cause) => ErrorView::OAuth2Error(cause@),
        }
    }
}

impl From<crate::oauth2::error::Error> for Error {
    /// A configuration that could not be read, as the error of a run.
    fn from(cause: crate::oauth2::error::Error) -> (error: Error) {
        Error::OAuth2Error(cause)
    }
}

impl FromSpecImpl<crate::oauth2::error::Error> for Error {
    open spec fn obeys_from_spec() -> bool {
        true
    }

    open spec fn from_spec(cause: crate::oauth2::error::Error) -> Error {
        Error::OAuth2Error(cause)
    }
}

/// The exit code of a run that failed.
pub const EXIT_FAILURE: i32 = 1;

impl Error {
    /// An error that carries the given message.
    pub fn new(msg: &str) -> (error: Error)
        ensures
            error@ == ErrorView::Message(msg@),
    {
        Error::Message(String::from_str(msg))
    }

    /// The text shown to the operator.
    pub fn message(&self) -> (text: String)
        ensures
            text@ == self@.message(),
    {
        match self {
            Error::Message(text) => text.clone(),
            Error::IOError(text) => text.clone(),
            Error::UrlParseError(text) => text.clone(),
            Error::OAuth2Error(cause) => cause.message(),
        }
    }

    /// The exit code of a run that ends with this error: the same for all.
    pub fn exit_code(&self) -> (code: i32)
        ensures
            code == EXIT_FAILURE,
    {
        EXIT_FAILURE
    }
}

} // verus!
