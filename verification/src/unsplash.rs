//! Requests to the Unsplash API for a random nature photo.
use vstd::prelude::*;

verus! {

/// Failure talking to the Unsplash API; mapped to
/// `WebError::External` (HTTP 502) at the app layer.
pub struct UnsplashError(pub String);

/// The endpoint that serves a random photo.
pub fn random_photo_url(base_url: &str) -> (url: String)
    ensures
        url@ == base_url@ + "/photos/random"@,
{
    String::from_str(base_url).concat("/photos/random")
}

/// The `Authorization` header value for an API key.
pub fn authorization_value(api_key: &str) -> (v: String)
    ensures
        v@ == "Client-ID "@ + api_key@,
{
    String::from_str("Client-ID ").concat(api_key)
}

impl UnsplashError {
    /// The request could not be sent or got no answer.
    pub fn request_failed(detail: &str) -> (e: UnsplashError)
        ensures
            e.0@ == "unsplash request failed: "@ + detail@,
    {
        UnsplashError(String::from_str("unsplash request failed: ").concat(detail))
    }

    /// The API answered with a status outside 2xx; `status` is its text.
    pub fn bad_status(status: &str) -> (e: UnsplashError)
        ensures
            e.0@ == "unsplash returned status "@ + status@,
    {
        UnsplashError(String::from_str("unsplash returned status ").concat(status))
    }

    /// The answer was not the JSON shape of a random photo.
    pub fn parse_failed(detail: &str) -> (e: UnsplashError)
        ensures
            e.0@ == "unsplash response parse failed: "@ + detail@,
    {
        UnsplashError(String::from_str("unsplash response parse failed: ").concat(detail))
    }
}

} // verus!
