use vstd::prelude::*;

verus! {

/// The kind of a fault raised while parsing, building or evaluating a policy.
///
/// `ProcessingError` marks arity or type faults inside a function call and a
/// condition that does not reduce to a single boolean; `FormatError` marks a
/// malformed tree (a `Match` without exactly one attribute reference, an
/// `AllOf` or `AnyOf` without children); `NotImplemented` marks features the
/// engine does not support (attribute selectors, variable references, every
/// combining algorithm but deny-overrides).
#[derive(Debug, Clone, Copy, PartialEq, Eq, Structural)]
pub enum XacmlErrorType {
    IoError,
    FormatError,
    DeserializeError,
    SerializeError,
    NotImplemented,
    BuildError,
    GeneralError,
    ProcessingError,
}

/// An error of the engine: a kind plus a human-readable message.
///
/// Contracts of the evaluation functions pin the kind down exactly; the
/// message is free-form diagnostic text.
#[derive(Debug, Clone, PartialEq, Eq)]
pub struct XacmlError {
    pub error_type: XacmlErrorType,
    pub message: String,
}

impl XacmlError {
    pub fn new(error_type: XacmlErrorType, message: String) -> (r: XacmlError)
        ensures
            r.error_type == error_type,
            r.message == message,
    {
        XacmlError { error_type, message }
    }

    /// The kind of this error.
    pub fn kind(&self) -> (r: XacmlErrorType)
        ensures
            r == self.error_type,
    {
        self.error_type
    }
}

} // verus!
