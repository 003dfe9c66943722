//! The error taxonomy of the submission pipeline.
//!
//! Every failure of a submission falls in one of four families: validation
//! of the submitted fields, the remote avatar fetch, the post store, and
//! media file writes.  The families stay distinct inside the library; only
//! at the outer boundary is an error collapsed to a message string.

use vstd::prelude::*;

verus! {

/// A submitted field was rejected before any side effect was attempted.
#[derive(Clone, Copy, Debug, PartialEq, Eq, Structural)]
pub enum ValidationError {
    /// The date string does not have the `YYYY-MM-DD` shape.
    InvalidDateFormat,
    /// Image bytes were supplied with a declared content type other than
    /// `image/png`.
    InvalidImageType,
}

/// The remote avatar fetch did not yield usable PNG bytes.
#[derive(Clone, Copy, Debug, PartialEq, Eq, Structural)]
pub enum FetchError {
    /// The HTTP request itself failed.
    Unreachable,
    /// The response carried no readable content type header.
    MissingContentType,
    /// The response's content type was not exactly `image/png`.
    NotPng,
}

/// Any failure of one submission attempt.
#[derive(Clone, Copy, Debug, PartialEq, Eq, Structural)]
pub enum SubmitError {
    Validation(ValidationError),
    Fetch(FetchError),
    /// The post store refused an operation.
    Store,
    /// A media file write failed.
    Io,
}

impl SubmitError {
    /// The human-readable message that reaches the submitting session.
    pub fn message(&self) -> (msg: String)
        ensures
            msg@ == self.message_spec(),
    {
        match self {
            SubmitError::Validation(ValidationError::InvalidDateFormat) => String::from_str(
                "The date must be in the YYYY-MM-DD format",
            ),
            SubmitError::Validation(ValidationError::InvalidImageType) => String::from_str(
                "Post image isn't a PNG",
            ),
            SubmitError::Fetch(FetchError::Unreachable) => String::from_str(
                "Could not fetch the avatar",
            ),
            SubmitError::Fetch(FetchError::MissingContentType) => String::from_str(
                "Could not detect the avatar file type",
            ),
            SubmitError::Fetch(FetchError::NotPng) => String::from_str("Avatar isn't a PNG"),
            SubmitError::Store => String::from_str("The post could not be stored"),
            SubmitError::Io => String::from_str("The post media could not be written"),
        }
    }

    /// The message owed for each error, as a sequence of characters.
    pub open spec fn message_spec(&self) -> Seq<char> {
        match self {
            SubmitError::Validation(ValidationError::InvalidDateFormat) => {
                "The date must be in the YYYY-MM-DD format"@
            },
            SubmitError::Validation(ValidationError::InvalidImageType) => {
                "Post image isn't a PNG"@
            },
            SubmitError::Fetch(FetchError::Unreachable) => "Could not fetch the avatar"@,
            SubmitError::Fetch(FetchError::MissingContentType) => {
                "Could not detect the avatar file type"@
            },
            SubmitError::Fetch(FetchError::NotPng) => "Avatar isn't a PNG"@,
            SubmitError::Store => "The post could not be stored"@,
            SubmitError::Io => "The post media could not be written"@,
        }
    }
}

} // verus!
