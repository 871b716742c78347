use vstd::prelude::*;

verus! {

/// The two ways a request can fail.
#[derive(Debug, Clone, Copy, PartialEq, Eq, Structural)]
pub enum ApiError {
    /// The request itself is malformed: bad content type, missing or
    /// non-string collection, or a filter or payload that is not a document.
    BadRequest,
    /// The store failed while executing the operation or yielding its results.
    Internal,
}

impl ApiError {
    /// The HTTP status class that reports this failure.
    pub fn status_code(&self) -> (r: u16)
        ensures
            *self == ApiError::BadRequest ==> r == 400,
            *self == ApiError::Internal ==> r == 500,
    {
        match self {
            ApiError::BadRequest => 400,
            ApiError::Internal => 500,
        }
    }
}

/// A JSON value that was required to be a document and could not be turned into one.
#[derive(Debug, Clone, Copy, PartialEq, Eq, Structural)]
pub struct TranslationError;

} // verus!
