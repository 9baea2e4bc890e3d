//! Plain data exchanged with the transport.

use reqwest::header::{HeaderMap, HeaderValue};
use vstd::prelude::*;

verus! {

/// The payload of a reply from the token endpoint.
#[derive(Debug)]
pub struct RequestTokenResponse {
    pub expires_in: i32,
    pub error: Option<String>,
    pub error_description: Option<String>,
    pub access_token: String,
    pub refresh_token: Option<String>,
    pub scope: String,
}

/// A response as the transport received it: status code, headers and the
/// body as text.
#[derive(Debug)]
pub struct Response {
    pub status: u16,
    pub headers: HeaderMap<HeaderValue>,
    pub body: String,
}

/// A form to be posted: the URL it goes to and its fields, in order.
#[derive(Debug)]
pub struct FormRequest {
    pub url: String,
    pub data: Vec<(String, String)>,
}

} // verus!
