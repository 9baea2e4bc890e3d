//! Endpoint paths and defaults.

use vstd::prelude::*;

verus! {

/// Path of the token endpoint.
pub const ACCESS_TOKEN_PATH: &'static str = "/api/v1/access_token";

/// Path of the authorization endpoint.
pub const AUTHORIZATION_PATH: &'static str = "/api/v1/authorize";

/// Path of the revocation endpoint.
pub const REVOKE_TOKEN_PATH: &'static str = "/api/v1/revoke_token";

/// Default timeout of one request, in milliseconds.
pub const TIMEOUT_MILLIS: u64 = 16_000;

/// Default base URL of the OAuth API.
pub const OAUTH_URL: &'static str = "https://oauth.reddit.com";

/// Default base URL of the site.
pub const REDDIT_URL: &'static str = "https://www.reddit.com";

/// Least number of bytes in a user agent that counts as descriptive.
pub const MIN_USER_AGENT_LENGTH: usize = 7;

} // verus!
