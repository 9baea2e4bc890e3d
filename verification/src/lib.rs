//! OAuth2 client runtime for a REST API gateway: token lifecycle, request
//! pacing from server-supplied quota headers, response classification and
//! bounded retries.

pub mod auth;
pub mod constants;
pub mod errors;
pub mod headers;
pub mod models;
pub mod rate_limit;
pub mod requestor;
pub mod scopes;
pub mod sessions;
pub mod time;
pub mod util;
