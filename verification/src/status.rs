//! HTTP status codes.
use crate::text::decimal;
use reqwest::StatusCode;
use vstd::prelude::*;

verus! {

/// The codes that an HTTP reply can have.
pub open spec fn is_status(code: u16) -> bool {
    100 <= code <= 999
}

/// The text that `StatusCode` displays: the code and the reason phrase that
/// belongs to it, as in `404 Not Found`.
pub uninterp spec fn status_display(code: u16) -> Seq<char>;

/// `reqwest::StatusCode::is_success`: whether the code is within 200 to 299.
#[verifier::external_body]
pub(crate) fn is_success(code: u16) -> (success: bool)
    requires
        is_status(code),
    ensures
        success == (200 <= code <= 299),
{
    StatusCode::from_u16(code).unwrap().is_success()
}

/// The `Display` of `reqwest::StatusCode`: the three digits of the code, a
/// space, and a reason phrase that depends on the code alone.
#[verifier::external_body]
pub(crate) fn status_text(code: u16) -> (text: String)
    requires
        is_status(code),
    ensures
        text@ == status_display(code),
        text@.len() > 4,
        text@.take(4) == decimal(code as nat, 3).push(' '),
{
    StatusCode::from_u16(code).unwrap().to_string()
}

} // verus!
