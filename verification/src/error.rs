//! Errors of reading and of validation.

use vstd::prelude::*;

verus! {

/// An error with its message and the offset in the binary at which it arose.
#[derive(Debug, Clone)]
pub struct BinaryReaderError {
    pub message: String,
    pub offset: usize,
}

impl BinaryReaderError {
    pub fn new(message: &str, offset: usize) -> (e: BinaryReaderError)
        ensures
            e.message@ == message@,
            e.offset == offset,
    {
        BinaryReaderError { message: message.to_owned(), offset }
    }
}

/// A wrapper around a `BinaryReaderError` where the inner error's offset is a
/// temporary placeholder value. This can be converted into a proper
/// `BinaryReaderError` via the `set_offset` method, which replaces the
/// placeholder offset with an actual offset.
#[derive(Debug, Clone)]
pub struct OperatorValidatorError(pub BinaryReaderError);

impl OperatorValidatorError {
    /// The message of the error.
    pub open spec fn message(&self) -> Seq<char> {
        self.0.message@
    }

    /// Whether the offset is still the placeholder.
    pub open spec fn has_placeholder(&self) -> bool {
        self.0.offset == usize::MAX
    }

    /// Create a new `OperatorValidatorError` with a placeholder offset.
    pub fn new(message: &str) -> (e: OperatorValidatorError)
        ensures
            e.message() == message@,
            e.has_placeholder(),
            e.0.message@ == message@,
            e.0.offset == usize::MAX,
    {
        OperatorValidatorError(BinaryReaderError::new(message, usize::MAX))
    }

    /// Convert this `OperatorValidatorError` into a `BinaryReaderError` by
    /// supplying an actual offset to replace the internal placeholder offset.
    pub fn set_offset(self, offset: usize) -> (e: BinaryReaderError)
        requires
            self.has_placeholder(),
        ensures
            e.message@ == self.message(),
            e.message@ == self.0.message@,
            e.offset == offset,
    {
        BinaryReaderError { message: self.0.message, offset }
    }
}

pub type OperatorValidatorResult<T> = Result<T, OperatorValidatorError>;

/// What a check comes to: a value, or the message that it fails with.
pub type Verdict<T> = Result<T, Seq<char>>;

/// Whether `r` is what `verdict` says; an error then still has the placeholder
/// for its offset.
pub open spec fn agrees<T>(r: OperatorValidatorResult<T>, verdict: Verdict<T>) -> bool {
    match (r, verdict) {
        (Ok(value), Ok(expected)) => value == expected,
        (Err(e), Err(message)) => e.message() == message && e.has_placeholder(),
        _ => false,
    }
}

} // verus!
