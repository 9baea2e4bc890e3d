//! Client identity and the token lifecycle.

pub mod authenticators;
pub mod authorizers;
