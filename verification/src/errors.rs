//! The error taxonomy of the bridge.

use vstd::prelude::*;

verus! {

/// Status code with which the foreign side reports an I/O failure.
pub const STATUS_IO: i8 = 1;

/// Status code with which the foreign side reports a parse failure.
pub const STATUS_PARSE: i8 = 2;

/// Everything that can go wrong on the bridge.
///
/// `IoError`, `ParseError` and `UnknownError` are content-level: the foreign
/// side reported them, and they carry its message verbatim. `SetupError` and
/// `BridgeCallError` are bridge-level: the plumbing itself failed.
#[derive(Debug, Clone, PartialEq, Eq)]
pub enum ExtractError {
    /// A foreign class or method could not be located. This signals a
    /// packaging defect of the foreign runtime, not a recoverable condition.
    SetupError,
    /// The foreign side reported an I/O failure.
    IoError(String),
    /// The foreign side reported that the document could not be parsed.
    ParseError(String),
    /// The foreign side reported a failure with a status code that has no name.
    UnknownError(String),
    /// A foreign call failed in a way the envelope protocol does not cover.
    BridgeCallError,
}

/// Result type of the bridge.
pub type ExtractResult<T> = Result<T, ExtractError>;

/// What went wrong inside a single foreign call, as far as the bridge tells
/// failures apart.
#[derive(Debug, Clone, Copy, PartialEq, Eq)]
pub enum ForeignFailure {
    /// The method named in the call does not exist on the foreign class.
    MethodNotFound,
    /// The foreign code threw, and the exception is still pending.
    Exception,
    /// Any other failure of the call.
    Other,
}

/// The error that an error envelope with the given status and message stands for.
pub open spec fn status_error(status: i8, message: String) -> ExtractError {
    if status == STATUS_IO {
        ExtractError::IoError(message)
    } else if status == STATUS_PARSE {
        ExtractError::ParseError(message)
    } else {
        ExtractError::UnknownError(message)
    }
}

/// The bridge-level error that a failed foreign call stands for.
pub open spec fn failure_error(failure: ForeignFailure) -> ExtractError {
    match failure {
        ForeignFailure::MethodNotFound => ExtractError::SetupError,
        ForeignFailure::Exception => ExtractError::BridgeCallError,
        ForeignFailure::Other => ExtractError::BridgeCallError,
    }
}

/// An error envelope maps to an I/O error exactly for status 1, to a parse
/// error exactly for status 2 and to an unknown error for every other
/// status; the error is content-level and carries the message unchanged.
pub proof fn lemma_status_classes(status: i8, message: String)
    ensures
        status_error(status, message) is IoError <==> status == 1,
        status_error(status, message) is ParseError <==> status == 2,
        status_error(status, message) is UnknownError <==> status != 1 && status != 2,
        status_error(status, message).is_content_level(),
        !status_error(status, message).is_bridge_level(),
        status_error(status, message).spec_message() == message@,
{
}

impl ExtractError {
    /// True for the errors that the foreign side reported through an envelope.
    pub open spec fn is_content_level(self) -> bool {
        self is IoError || self is ParseError || self is UnknownError
    }

    /// True for the errors raised by the bridge plumbing itself.
    pub open spec fn is_bridge_level(self) -> bool {
        self is SetupError || self is BridgeCallError
    }

    /// The message that the foreign side attached; empty for bridge-level errors.
    pub open spec fn spec_message(self) -> Seq<char> {
        match self {
            ExtractError::IoError(m) => m@,
            ExtractError::ParseError(m) => m@,
            ExtractError::UnknownError(m) => m@,
            ExtractError::SetupError => Seq::empty(),
            ExtractError::BridgeCallError => Seq::empty(),
        }
    }

    /// Maps the status code and message of an error envelope to an error:
    /// status 1 is an I/O error, status 2 a parse error, and every other
    /// status an unknown error. The message is carried over unchanged.
    pub fn from_status(status: i8, message: String) -> (e: ExtractError)
        ensures
            e == status_error(status, message),
            e.is_content_level(),
            e.spec_message() == message@,
    {
        if status == STATUS_IO {
            ExtractError::IoError(message)
        } else if status == STATUS_PARSE {
            ExtractError::ParseError(message)
        } else {
            ExtractError::UnknownError(message)
        }
    }

    /// Maps a failed foreign call to a bridge-level error: a method that
    /// could not be found is a setup error, anything else a bridge call error.
    pub fn from_failure(failure: ForeignFailure) -> (e: ExtractError)
        ensures
            e == failure_error(failure),
            e.is_bridge_level(),
    {
        match failure {
            ForeignFailure::MethodNotFound => ExtractError::SetupError,
            ForeignFailure::Exception => ExtractError::BridgeCallError,
            ForeignFailure::Other => ExtractError::BridgeCallError,
        }
    }

    /// Whether the foreign side reported this error through an envelope.
    pub fn is_content(&self) -> (b: bool)
        ensures
            b == self.is_content_level(),
            b == !self.is_bridge_level(),
    {
        match self {
            ExtractError::IoError(_) => true,
            ExtractError::ParseError(_) => true,
            ExtractError::UnknownError(_) => true,
            ExtractError::SetupError => false,
            ExtractError::BridgeCallError => false,
        }
    }

    /// The message that the foreign side attached to a content-level error,
    /// and the empty string for a bridge-level one.
    pub fn message(&self) -> (m: &str)
        ensures
            m@ == self.spec_message(),
    {
        proof {
            reveal_strlit("");
        }
        match self {
            ExtractError::IoError(m) => m.as_str(),
            ExtractError::ParseError(m) => m.as_str(),
            ExtractError::UnknownError(m) => m.as_str(),
            ExtractError::SetupError => "",
            ExtractError::BridgeCallError => "",
        }
    }
}

} // verus!
