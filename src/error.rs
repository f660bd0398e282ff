//! The closed set of failures that the boundary reports.

use vstd::prelude::*;
use vstd::string::*;

verus! {

/// Result type of the boundary's operations.
pub type EBCCResult<T> = Result<T, EBCCError>;

/// The kind of an [`EBCCError`], without its description.
#[derive(Debug, Clone, Copy, PartialEq, Eq, Structural)]
pub enum ErrorKind {
    InvalidInput,
    InvalidConfig,
    CompressionError,
    DecompressionError,
}

/// Errors that can occur during compression and decompression. Each carries a
/// human-readable description.
#[derive(Debug, Clone)]
pub enum EBCCError {
    /// Malformed, oversized or non-finite input data, or a decoded element
    /// count that does not fit the caller's output shape.
    InvalidInput(String),
    /// A compression policy that breaks its invariants.
    InvalidConfig(String),
    /// The native encoder signalled failure.
    CompressionError(String),
    /// The native decoder signalled failure.
    DecompressionError(String),
}

impl View for EBCCError {
    type V = (ErrorKind, Seq<char>);

    open spec fn view(&self) -> (ErrorKind, Seq<char>) {
        match self {
            EBCCError::InvalidInput(m) => (ErrorKind::InvalidInput, m@),
            EBCCError::InvalidConfig(m) => (ErrorKind::InvalidConfig, m@),
            EBCCError::CompressionError(m) => (ErrorKind::CompressionError, m@),
            EBCCError::DecompressionError(m) => (ErrorKind::DecompressionError, m@),
        }
    }
}

/// The prefix with which each kind of error is displayed.
pub open spec fn kind_prefix(k: ErrorKind) -> Seq<char> {
    match k {
        ErrorKind::InvalidInput => "Invalid input data: "@,
        ErrorKind::InvalidConfig => "Invalid configuration: "@,
        ErrorKind::CompressionError => "Compression failed: "@,
        ErrorKind::DecompressionError => "Decompression failed: "@,
    }
}

impl EBCCError {
    /// Builds the error of kind `kind` with description `message`.
    pub fn new(kind: ErrorKind, message: String) -> (r: EBCCError)
        ensures
            r@ == (kind, message@),
    {
        match kind {
            ErrorKind::InvalidInput => EBCCError::InvalidInput(message),
            ErrorKind::InvalidConfig => EBCCError::InvalidConfig(message),
            ErrorKind::CompressionError => EBCCError::CompressionError(message),
            ErrorKind::DecompressionError => EBCCError::DecompressionError(message),
        }
    }

    /// The kind of this error.
    pub fn kind(&self) -> (r: ErrorKind)
        ensures
            r == self@.0,
    {
        match self {
            EBCCError::InvalidInput(_) => ErrorKind::InvalidInput,
            EBCCError::InvalidConfig(_) => ErrorKind::InvalidConfig,
            EBCCError::CompressionError(_) => ErrorKind::CompressionError,
            EBCCError::DecompressionError(_) => ErrorKind::DecompressionError,
        }
    }

    /// The description carried by this error.
    pub fn message(&self) -> (r: &String)
        ensures
            r@ == self@.1,
    {
        match self {
            EBCCError::InvalidInput(m) => m,
            EBCCError::InvalidConfig(m) => m,
            EBCCError::CompressionError(m) => m,
            EBCCError::DecompressionError(m) => m,
        }
    }

    /// The full text of this error: a prefix naming its kind, then its
    /// description.
    pub fn to_text(&self) -> (r: String)
        ensures
            r@ == kind_prefix(self@.0) + self@.1,
    {
        let prefix = match self {
            EBCCError::InvalidInput(_) => "Invalid input data: ",
            EBCCError::InvalidConfig(_) => "Invalid configuration: ",
            EBCCError::CompressionError(_) => "Compression failed: ",
            EBCCError::DecompressionError(_) => "Decompression failed: ",
        };
        String::from_str(prefix).concat(self.message().as_str())
    }
}

} // verus!
