//! The ways in which building and sending a transaction fails.

use vstd::prelude::*;

verus! {

/// The kind of a failure. Every failure ends the attempt.
#[derive(Clone, Copy, Debug, PartialEq, Eq)]
pub enum ErrorKind {
    /// An address or an amount of the caller is malformed or out of range.
    InputError,
    /// An exchange with the service failed in transport.
    NetworkError,
    /// The service answered with something that is no answer.
    ProtocolError,
    /// The service answered and refused.
    BusinessError,
    /// The signer rejected the key material.
    SigningError,
}

/// A failure: its kind and a text for the caller.
#[derive(Clone, Debug, PartialEq, Eq)]
pub struct PipelineError {
    /// What kind of failure it is.
    pub kind: ErrorKind,
    /// The text: the transport's own words, the unread body, the service's
    /// description, or what was wrong with the input.
    pub message: String,
}

/// A `PipelineError` as plain values.
pub struct ErrorView {
    pub kind: ErrorKind,
    pub message: Seq<char>,
}

impl View for PipelineError {
    type V = ErrorView;

    open spec fn view(&self) -> ErrorView {
        ErrorView { kind: self.kind, message: self.message@ }
    }
}

impl PipelineError {
    /// The failure of this kind with this text.
    pub fn new(kind: ErrorKind, message: String) -> (r: PipelineError)
        ensures
            r@ == (ErrorView { kind, message: message@ }),
    {
        PipelineError { kind, message }
    }

    /// The failure of this kind with a fixed text.
    pub fn of(kind: ErrorKind, message: &str) -> (r: PipelineError)
        ensures
            r@ == (ErrorView { kind, message: message@ }),
    {
        PipelineError { kind, message: String::from_str(message) }
    }
}

} // verus!
