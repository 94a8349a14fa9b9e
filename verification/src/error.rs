//! The error taxonomy of the client.
//!
//! Every failure that can surface from a fetch or a search is classified into
//! one of four kinds. Two of them point at a defect in this library or at a
//! payload it does not understand; the other two are ordinary operating
//! conditions that a caller can react to.

use vstd::prelude::*;
use crate::text::appended;

verus! {

/// Classification of a failure.
#[derive(Clone, Copy, Debug, PartialEq, Eq, Structural)]
pub enum ErrorKind {
    /// The payload did not have the expected shape.
    ParseResponse,
    /// A request could not be constructed, or a similar internal fault.
    Internal,
    /// The transport failed, or the retry budget was used up.
    Communication,
    /// The server answered with an error message of its own.
    ServerError,
}

impl ErrorKind {
    /// Whether a failure of this kind should be reported as a defect.
    pub open spec fn spec_is_bug(&self) -> bool {
        *self == ErrorKind::ParseResponse || *self == ErrorKind::Internal
    }

    /// True if an error of this kind constitutes a bug that should ideally be
    /// reported upstream.
    #[verifier::when_used_as_spec(spec_is_bug)]
    pub fn is_bug(&self) -> (b: bool)
        ensures
            b == self.spec_is_bug(),
            b <==> !(*self == ErrorKind::Communication || *self == ErrorKind::ServerError),
    {
        match self {
            ErrorKind::ParseResponse | ErrorKind::Internal => true,
            ErrorKind::Communication | ErrorKind::ServerError => false,
        }
    }

    /// The bracketed tag that opens a rendered error of this kind.
    pub open spec fn prefix(self) -> Seq<char> {
        match self {
            ErrorKind::ParseResponse => "[parse response error]: "@,
            ErrorKind::Internal => "[internal error]: "@,
            ErrorKind::Communication => "[communication error]: "@,
            ErrorKind::ServerError => "[server error]: "@,
        }
    }
}

/// A failure: its kind and a human-readable message.
#[derive(Clone, Debug)]
pub struct Error {
    message: String,
    kind: ErrorKind,
}

/// Mathematical content of an [`Error`].
pub struct ErrorModel {
    pub message: Seq<char>,
    pub kind: ErrorKind,
}

impl View for Error {
    type V = ErrorModel;

    closed spec fn view(&self) -> ErrorModel {
        ErrorModel { message: self.message@, kind: self.kind }
    }
}

/// The note appended to the rendering of an error that looks like a defect.
pub open spec fn bug_note() -> Seq<char> {
    "This might be a bug that should be reported upstream.\n"@
}

impl ErrorModel {
    /// The text an error is rendered as: tag, message, newline, and the bug
    /// note where the kind calls for it.
    pub open spec fn rendered(self) -> Seq<char> {
        self.kind.prefix() + self.message + "\n"@ + if self.kind.spec_is_bug() {
            bug_note()
        } else {
            Seq::<char>::empty()
        }
    }
}

impl Error {
    /// An error of the given kind.
    pub fn new(msg: &str, kind: ErrorKind) -> (e: Error)
        ensures
            e@ == (ErrorModel { message: msg@, kind }),
    {
        Error { message: String::from_str(msg), kind }
    }

    /// An error of kind [`ErrorKind::ParseResponse`].
    pub fn parse_error(msg: &str) -> (e: Error)
        ensures
            e@ == (ErrorModel { message: msg@, kind: ErrorKind::ParseResponse }),
    {
        Error { message: String::from_str(msg), kind: ErrorKind::ParseResponse }
    }

    /// The kind of this error.
    pub fn kind(&self) -> (k: ErrorKind)
        ensures
            k == self@.kind,
    {
        self.kind
    }

    /// The message of this error, without tag or note.
    pub fn message(&self) -> (m: &str)
        ensures
            m@ == self@.message,
    {
        self.message.as_str()
    }

    /// Whether this error should be reported as a defect.
    pub fn is_bug(&self) -> (b: bool)
        ensures
            b == self@.kind.spec_is_bug(),
    {
        self.kind.is_bug()
    }

    /// Renders the error for display.
    pub fn to_string(&self) -> (s: String)
        ensures
            s@ == self@.rendered(),
    {
        let prefix = match self.kind {
            ErrorKind::ParseResponse => "[parse response error]: ",
            ErrorKind::Internal => "[internal error]: ",
            ErrorKind::Communication => "[communication error]: ",
            ErrorKind::ServerError => "[server error]: ",
        };
        let mut s = appended(prefix, self.message.as_str());
        s.append("\n");
        if self.kind.is_bug() {
            s.append("This might be a bug that should be reported upstream.\n");
        }
        s
    }
}

} // verus!
