//! The configuration that requests are made with.

use crate::constants::{MIN_USER_AGENT_LENGTH, OAUTH_URL, REDDIT_URL, TIMEOUT_MILLIS};
use crate::errors::RawrCoreError;
use vstd::prelude::*;
use vstd::string::*;

verus! {

/// Where requests go and how they introduce themselves.
#[derive(Debug)]
pub struct Requestor {
    pub user_agent: String,
    pub oauth_url: String,
    pub reddit_url: String,
    /// Timeout of one request, in milliseconds.
    pub timeout: u64,
}

/// Whether a user agent says enough: it has at least seven bytes.
pub open spec fn is_descriptive(user_agent: &str) -> bool {
    user_agent.spec_bytes().len() >= MIN_USER_AGENT_LENGTH
}

impl Requestor {
    /// A configuration with the given user agent. A URL or timeout that is
    /// not given takes its default. A user agent that does not say enough
    /// is refused.
    pub fn new(
        user_agent: &str,
        oauth_url: Option<&str>,
        reddit_url: Option<&str>,
        timeout: Option<u64>,
    ) -> (made: Result<Requestor, RawrCoreError>)
        ensures
            made is Ok <==> is_descriptive(user_agent),
            made matches Err(e) ==> e == RawrCoreError::InvalidInvocation,
            made matches Ok(requestor) ==> {
                &&& requestor.user_agent@ == user_agent@
                &&& requestor.oauth_url@ == match oauth_url {
                    Some(url) => url@,
                    None => OAUTH_URL@,
                }
                &&& requestor.reddit_url@ == match reddit_url {
                    Some(url) => url@,
                    None => REDDIT_URL@,
                }
                &&& requestor.timeout == match timeout {
                    Some(millis) => millis,
                    None => TIMEOUT_MILLIS,
                }
            },
    {
        if user_agent.as_bytes().len() < MIN_USER_AGENT_LENGTH {
            return Err(RawrCoreError::InvalidInvocation);
        }
        Ok(
            Requestor {
                user_agent: user_agent.to_owned(),
                oauth_url: match oauth_url {
                    Some(url) => url.to_owned(),
                    None => OAUTH_URL.to_owned(),
                },
                reddit_url: match reddit_url {
                    Some(url) => url.to_owned(),
                    None => REDDIT_URL.to_owned(),
                },
                timeout: match timeout {
                    Some(millis) => millis,
                    None => TIMEOUT_MILLIS,
                },
            },
        )
    }
}

} // verus!
