//! The errors a caller of this crate can see.

use serde_json::Value;
use vstd::prelude::*;

verus! {

/// Why the transport could not deliver a page.
#[derive(Debug, Clone, PartialEq)]
pub enum TransportFailure {
    /// No response arrived: connection refused, timeout, broken body.
    Network(String),
    /// The server answered with a status outside the 2xx range.
    Status(u16),
}

/// Everything that can go wrong between asking for data and handing out a
/// typed record.
#[derive(Debug, Clone, PartialEq)]
pub enum ManifoldError {
    /// A raw element did not decode into the requested record type. Holds the
    /// decoder's message and the offending raw value.
    ParseError(String, Value),
    /// The transport failed or the server refused the request.
    HttpError(TransportFailure),
    /// The response broke a rule of the pagination protocol. Holds what was
    /// expected and, where there is one, the value found instead.
    SchemaError(String, Option<Value>),
    /// A failure reported by a layer above this crate.
    Other(String),
}

/// The four kinds an error falls into.
#[derive(Debug, Clone, Copy, PartialEq, Eq, Structural)]
pub enum ErrorKind {
    Decode,
    Transport,
    SchemaViolation,
    Other,
}

/// `TransportFailure` with its text as a sequence of characters.
pub ghost enum TransportFailureView {
    Network(Seq<char>),
    Status(u16),
}

/// `ManifoldError` with its texts as sequences of characters.
pub ghost enum ErrorView {
    ParseError(Seq<char>, Value),
    HttpError(TransportFailureView),
    SchemaError(Seq<char>, Option<Value>),
    Other(Seq<char>),
}

impl View for TransportFailure {
    type V = TransportFailureView;

    open spec fn view(&self) -> TransportFailureView {
        match *self {
            TransportFailure::Network(message) => TransportFailureView::Network(message@),
            TransportFailure::Status(code) => TransportFailureView::Status(code),
        }
    }
}

impl View for ManifoldError {
    type V = ErrorView;

    open spec fn view(&self) -> ErrorView {
        match *self {
            ManifoldError::ParseError(message, raw) => ErrorView::ParseError(message@, raw),
            ManifoldError::HttpError(failure) => ErrorView::HttpError(failure@),
            ManifoldError::SchemaError(message, found) => ErrorView::SchemaError(message@, found),
            ManifoldError::Other(message) => ErrorView::Other(message@),
        }
    }
}

impl ErrorView {
    /// The kind of an error, read off its variant.
    pub open spec fn kind(self) -> ErrorKind {
        match self {
            ErrorView::ParseError(..) => ErrorKind::Decode,
            ErrorView::HttpError(..) => ErrorKind::Transport,
            ErrorView::SchemaError(..) => ErrorKind::SchemaViolation,
            ErrorView::Other(..) => ErrorKind::Other,
        }
    }
}

impl ManifoldError {
    /// The kind of this error.
    pub fn kind(&self) -> (r: ErrorKind)
        ensures
            r == self@.kind(),
    {
        match self {
            ManifoldError::ParseError(..) => ErrorKind::Decode,
            ManifoldError::HttpError(..) => ErrorKind::Transport,
            ManifoldError::SchemaError(..) => ErrorKind::SchemaViolation,
            ManifoldError::Other(..) => ErrorKind::Other,
        }
    }
}

} // verus!
