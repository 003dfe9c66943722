//! Submitted form data and its validation.
//!
//! A submission is the ephemeral input bundle of one post attempt.  Before
//! any side effect, the date string must have the `YYYY-MM-DD` shape and a
//! supplied image must declare the `image/png` content type.

use vstd::prelude::*;

use crate::errors::{SubmitError, ValidationError};

verus! {

/// One author-initiated attempt to create a post.
pub struct Submission {
    /// Author name; free text.
    pub user: String,
    /// Avatar source URL; the empty string means no avatar is requested.
    pub avatar: String,
    /// Date string; must have the `YYYY-MM-DD` shape to be accepted.
    pub date: String,
    /// Uploaded image bytes; empty means no image was supplied.
    pub image: Vec<u8>,
    /// The content type declared for the uploaded image, if any.
    pub image_type: Option<String>,
    /// Post body; free text.
    pub text: String,
}

/// Whether `c` is a decimal digit.
pub open spec fn is_digit(c: char) -> bool {
    '0' <= c && c <= '9'
}

/// Whether `s` has the shape `YYYY-MM-DD`: four digits, a dash, two digits,
/// a dash, two digits.  Nothing more is asked; `9999-99-99` has the shape.
pub open spec fn is_date_shape(s: Seq<char>) -> bool {
    &&& s.len() == 10
    &&& is_digit(s[0])
    &&& is_digit(s[1])
    &&& is_digit(s[2])
    &&& is_digit(s[3])
    &&& s[4] == '-'
    &&& is_digit(s[5])
    &&& is_digit(s[6])
    &&& s[7] == '-'
    &&& is_digit(s[8])
    &&& is_digit(s[9])
}

/// Whether a decimal digit stands at `c`.
fn digit_ok(c: char) -> (r: bool)
    ensures
        r == is_digit(c),
{
    '0' <= c && c <= '9'
}

/// Whether the date string has the `YYYY-MM-DD` shape.
pub fn date_shape_ok(s: &str) -> (r: bool)
    ensures
        r == is_date_shape(s@),
{
    if s.unicode_len() != 10 {
        return false;
    }
    digit_ok(s.get_char(0)) && digit_ok(s.get_char(1)) && digit_ok(s.get_char(2)) && digit_ok(
        s.get_char(3),
    ) && s.get_char(4) == '-' && digit_ok(s.get_char(5)) && digit_ok(s.get_char(6)) && s.get_char(
        7,
    ) == '-' && digit_ok(s.get_char(8)) && digit_ok(s.get_char(9))
}

/// Whether a declared content type is exactly `image/png`.
pub open spec fn declares_png(t: Option<String>) -> bool {
    match t {
        Some(s) => s@ == "image/png"@,
        None => false,
    }
}

/// Whether the submission's uploaded image is acceptable: either no bytes
/// were supplied, or the declared content type is exactly `image/png`.
pub open spec fn image_ok(sub: Submission) -> bool {
    sub.image@.len() == 0 || declares_png(sub.image_type)
}

/// Whether the whole submission passes validation.
pub open spec fn valid_submission(sub: Submission) -> bool {
    is_date_shape(sub.date@) && image_ok(sub)
}

/// Whether `t` declares the `image/png` content type.
pub fn declares_png_exec(t: &Option<String>) -> (r: bool)
    ensures
        r == declares_png(*t),
{
    match t {
        Some(s) => {
            let png = String::from_str("image/png");
            *s == png
        },
        None => false,
    }
}

/// Validate one submission: the date shape first, then the image type.
///
/// Returns `Ok` exactly when the submission is valid; a bad date is
/// reported ahead of a bad image.  Nothing is persisted on either path.
pub fn validate(sub: &Submission) -> (r: Result<(), SubmitError>)
    ensures
        r is Ok <==> valid_submission(*sub),
        !is_date_shape(sub.date@) ==> r == Result::<(), SubmitError>::Err(
            SubmitError::Validation(ValidationError::InvalidDateFormat),
        ),
        is_date_shape(sub.date@) && !image_ok(*sub) ==> r == Result::<(), SubmitError>::Err(
            SubmitError::Validation(ValidationError::InvalidImageType),
        ),
{
    if !date_shape_ok(sub.date.as_str()) {
        return Err(SubmitError::Validation(ValidationError::InvalidDateFormat));
    }
    if sub.image.len() > 0 && !declares_png_exec(&sub.image_type) {
        return Err(SubmitError::Validation(ValidationError::InvalidImageType));
    }
    Ok(())
}

/// Whether a non-empty avatar URL was supplied, so a fetch is owed.
pub fn avatar_requested(sub: &Submission) -> (r: bool)
    ensures
        r == (sub.avatar@.len() != 0),
{
    !sub.avatar.as_str().is_empty()
}

} // verus!
