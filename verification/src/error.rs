//! Error types for the library.

use vstd::prelude::*;

verus! {

/// Why a wire value failed to decode into the expected shape.
#[derive(Debug, Clone, Copy, PartialEq, Eq)]
pub enum DecodeError {
    /// The value's shape or type did not match what the field expects,
    /// including a text that should have held a number but did not parse.
    Mismatch,
    /// A numeric value fell outside the range the field accepts.
    OutOfRange,
    /// A required field was missing from the response object.
    MissingField,
}

/// Errors that can occur when using the library. The four kinds are
/// distinct and non-overlapping: callers decide their own recovery policy,
/// the library performs none.
#[derive(Debug, Clone, PartialEq, Eq)]
pub enum Error {
    /// The request never produced a response: a connection, name resolution,
    /// protocol or cancellation failure, with the transport's message.
    Transport(String),
    /// The request reached the server but came back with a non-success
    /// status, which is carried here.
    Status(u16),
    /// The response body parsed as JSON but did not match the expected shape.
    Decode(DecodeError),
    /// A success status carried an unusable body: not one well-formed JSON
    /// document.
    NoData,
}

} // verus!
