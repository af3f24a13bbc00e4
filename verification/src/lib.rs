//! Verified core of a redirect-hosting backend gateway.
//!
//! The crate models the request path of the service: a hierarchical
//! path/method router with a uniform error taxonomy, a bearer-token
//! authentication stage, a pooled query-execution discipline,
//! a subscription-tier cache refresher, and the multi-step checkout
//! workflow against the external payment provider.  All decision logic
//! lives here with contracts; the surrounding process (HTTP transport,
//! database driver, task spawning) hands plain values in and out.

use vstd::prelude::*;

pub mod accounts;
pub mod auth;
pub mod checkout;
pub mod errors;
pub mod executor;
pub mod numbers;
pub mod paths;
pub mod provider;
pub mod redirects;
pub mod router;
pub mod service;
pub mod tiers;

verus! {

/// Identity of a registered user, as the `users` relation stores it.
#[derive(Debug, PartialEq, Eq, Structural, Clone, Copy)]
pub struct UserID(pub i32);

impl UserID {
    /// Wraps a raw database id.
    pub fn new(raw: i32) -> (u: UserID)
        ensures
            u.0 == raw,
    {
        UserID(raw)
    }

    /// The raw integer id, exactly as stored.
    pub fn to_raw(&self) -> (r: i32)
        ensures
            r == self.0,
    {
        self.0
    }
}

} // verus!
