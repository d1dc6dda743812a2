//! The one error value that leaves the interpretation layer.
use vstd::prelude::*;

verus! {

/// The HTTP status of a failure that carries no status of its own
/// (500, Internal Server Error).
pub const INTERNAL_SERVER_ERROR: u16 = 500;

/// A failure of the pipeline: the HTTP status to answer with, and the message
/// for the body of the answer.
#[derive(PartialEq, Eq, Debug)]
pub struct InvocationFailure {
    pub code: u16,
    pub message: String,
}

/// What a failure stands for: its status and the characters of its message.
pub struct FailureView {
    pub code: u16,
    pub message: Seq<char>,
}

impl View for InvocationFailure {
    type V = FailureView;

    open spec fn view(&self) -> FailureView {
        FailureView { code: self.code, message: self.message@ }
    }
}

/// An internal failure (status 500) with the given message.
pub open spec fn internal(message: Seq<char>) -> FailureView {
    FailureView { code: 500, message }
}

/// What an outcome of the pipeline stands for.
pub open spec fn outcome_view<T>(r: Result<T, InvocationFailure>) -> Result<T, FailureView> {
    match r {
        Ok(v) => Ok(v),
        Err(f) => Err(f@),
    }
}

impl InvocationFailure {
    /// An internal failure (status 500) with the given message.
    pub fn failure(message: &str) -> (r: InvocationFailure)
        ensures
            r@ == internal(message@),
    {
        InvocationFailure { code: INTERNAL_SERVER_ERROR, message: String::from_str(message) }
    }

    /// The HTTP status to answer with.
    pub fn code(&self) -> (r: u16)
        ensures
            r == self.code,
    {
        self.code
    }

    /// The failure of a call to the upstream API that broke off in transport:
    /// the status that the transport error carries, or 500 where it carries
    /// none, and the error's own description.
    pub fn from_transport(code: Option<u16>, description: String) -> (r: InvocationFailure)
        ensures
            r.code == match code {
                Some(c) => c,
                None => INTERNAL_SERVER_ERROR,
            },
            r.message@ == description@,
    {
        let code = match code {
            Some(c) => c,
            None => INTERNAL_SERVER_ERROR,
        };
        InvocationFailure { code, message: description }
    }

    /// The failure of a body that matches none of the expected shapes: an
    /// internal failure with the decoder's description of the error.
    pub fn from_decode_error(description: String) -> (r: InvocationFailure)
        ensures
            r@ == internal(description@),
    {
        InvocationFailure { code: INTERNAL_SERVER_ERROR, message: description }
    }

    /// Turns the outcome of reading a number into the pipeline's outcome: the
    /// number itself, or an internal failure with the reader's message.
    pub fn from_parse(parsed: Result<u64, String>) -> (r: Result<u64, InvocationFailure>)
        ensures
            outcome_view(r) == match parsed {
                Ok(v) => Ok(v),
                Err(m) => Err(internal(m@)),
            },
    {
        match parsed {
            Ok(v) => Ok(v),
            Err(m) => Err(InvocationFailure { code: INTERNAL_SERVER_ERROR, message: m }),
        }
    }
}

} // verus!
