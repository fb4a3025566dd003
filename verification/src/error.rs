//! The failures of a token exchange.

use vstd::prelude::*;

verus! {

/// Why an exchange failed.
#[derive(Clone, Copy, Debug, PartialEq, Eq)]
pub enum ErrorKind {
    /// The request could not be built locally. Trying again does not help.
    InternalFailure,
    /// The provider could not be reached or its reply could not be read. The
    /// caller may try again.
    IdentityProviderFailure,
    /// The provider replied, but not with what an exchange has to yield.
    MalformedResponse,
}

/// What an error is to the contracts: its kind and the text of its message.
pub struct ErrorView {
    pub kind: ErrorKind,
    pub message: Seq<char>,
}

/// A failure with a message for a human reader.
#[derive(Debug)]
pub struct Error {
    kind: ErrorKind,
    message: String,
}

impl View for Error {
    type V = ErrorView;

    closed spec fn view(&self) -> ErrorView {
        ErrorView { kind: self.kind, message: self.message@ }
    }
}

impl Error {
    /// A failure of this kind with this message.
    pub fn new(kind: ErrorKind, message: String) -> (error: Error)
        ensures
            error@ == (ErrorView { kind, message: message@ }),
    {
        Error { kind, message }
    }

    /// Why the exchange failed.
    pub fn kind(&self) -> (kind: ErrorKind)
        ensures
            kind == self@.kind,
    {
        self.kind
    }

    /// The failure in words, with its cause where there is one.
    pub fn message(&self) -> (text: &str)
        ensures
            text@ == self@.message,
    {
        self.message.as_str()
    }
}

} // verus!
