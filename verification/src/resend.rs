//! Contact email delivery through the Resend API.
use vstd::prelude::*;
use crate::text::{str_take_chars, take_chars};

verus! {

/// Failure talking to the Resend API; mapped to
/// `WebError::External` (HTTP 502) at the app layer.
pub struct ResendError(pub String);

/// How many characters of an upstream error body a message keeps.
pub const MAX_ERROR_BODY_CHARS: usize = 500;

/// The endpoint that sends an email.
pub fn emails_url(base_url: &str) -> (url: String)
    ensures
        url@ == base_url@ + "/emails"@,
{
    String::from_str(base_url).concat("/emails")
}

impl ResendError {
    /// The request could not be sent or got no answer.
    pub fn request_failed(detail: &str) -> (e: ResendError)
        ensures
            e.0@ == "resend request failed: "@ + detail@,
    {
        ResendError(String::from_str("resend request failed: ").concat(detail))
    }

    /// The API answered with a status outside 2xx: the message names the
    /// status and keeps the first 500 characters of the body, so that a 502
    /// can be diagnosed.
    pub fn bad_status(status: &str, body: &str) -> (e: ResendError)
        ensures
            e.0@ == "resend returned status "@ + status@ + ": "@ + take_chars(body@, MAX_ERROR_BODY_CHARS as nat),
    {
        let kept = str_take_chars(body, MAX_ERROR_BODY_CHARS);
        ResendError(String::from_str("resend returned status ").concat(status).concat(": ").concat(kept.as_str()))
    }
}

} // verus!
