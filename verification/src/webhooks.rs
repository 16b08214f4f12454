//! Validation of the webhook endpoint ids that clients send in request paths.
use vstd::prelude::*;

verus! {

/// The 128-bit value of the UUID that `text` spells, as `uuid::Uuid::parse_str`
/// reads it (hyphenated, simple, braced or URN form), or `None` when `text`
/// spells no UUID.
pub uninterp spec fn uuid_of(text: Seq<char>) -> Option<u128>;

/// Calls `uuid::Uuid::parse_str` and takes the parsed UUID as its big-endian
/// 128-bit value (`Uuid::as_u128`).  Trusted: the result is named `uuid_of`
/// of the text and nothing more is claimed; the function returns an error
/// rather than panicking on any input.
#[verifier::external_body]
fn parse_uuid(text: &str) -> (r: Option<u128>)
    ensures
        r == uuid_of(text@),
{
    match uuid::Uuid::parse_str(text) {
        Ok(u) => Some(u.as_u128()),
        Err(_) => None,
    }
}

/// Why a webhook request is refused.
#[derive(Clone, Copy, PartialEq, Eq, Structural, Debug)]
pub enum WebhookError {
    InvalidEndpointId,
}

impl WebhookError {
    /// The validation message sent back with the refusal.
    pub fn message(&self) -> (r: String)
        ensures
            r@ == "Invalid endpoint ID"@,
    {
        crate::text::owned("Invalid endpoint ID")
    }
}

/// The endpoint id that a parse result gives: the parsed UUID, or a
/// refusal when the text was no UUID.
pub fn check_endpoint_id(parsed: Option<u128>) -> (r: Result<u128, WebhookError>)
    ensures
        match parsed {
            Some(u) => r == Ok::<u128, WebhookError>(u),
            None => r == Err::<u128, WebhookError>(WebhookError::InvalidEndpointId),
        },
{
    match parsed {
        Some(u) => Ok(u),
        None => Err(WebhookError::InvalidEndpointId),
    }
}

/// The endpoint id spelled by a request path segment, or a refusal when the
/// segment is no UUID.
pub fn endpoint_uuid(endpoint_id: &str) -> (r: Result<u128, WebhookError>)
    ensures
        match uuid_of(endpoint_id@) {
            Some(u) => r == Ok::<u128, WebhookError>(u),
            None => r == Err::<u128, WebhookError>(WebhookError::InvalidEndpointId),
        },
{
    check_endpoint_id(parse_uuid(endpoint_id))
}

} // verus!
