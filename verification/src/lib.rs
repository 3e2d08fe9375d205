//! Session-backed authentication with an optional TOTP second factor.
//!
//! The crate models the authentication record ("claims") a web session
//! carries, the state machine that decides whether a request is anonymous,
//! still owes a second factor, or fully authenticated, and the route guard
//! that enforces that verdict before a protected handler runs.

use vstd::prelude::*;

pub mod claims;
pub mod codec;
pub mod repos;
pub mod session;
pub mod route_ext;
pub mod routes;
pub mod totp;

verus! {

/// Sentinel instant far beyond any session's lifetime, used for the claims
/// expiry and for the "second factor satisfied" mark.
pub const FAR_FUTURE: u64 = 10000000000;

} // verus!
