//! Identity-bridging authoriser: verifies a social-login access token with the
//! identity provider, resolves it to an internal user (creating one if absent)
//! and mints a signed session token for the data layer.
pub mod json;
pub mod resolver;
pub mod identity;
pub mod issuer;
pub mod pipeline;
