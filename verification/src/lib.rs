//! Control-plane core: a minimal certificate authority with CRL/OCSP support,
//! a tiered authentication and rate-limiting gateway, and a generic
//! rotate-and-broadcast registry for versioned binary artifacts.

use vstd::prelude::*;

pub mod auth;
pub mod certs;
pub mod config;
pub mod der;
pub mod errors;
pub mod generators;
pub mod gpu;
pub mod hashing;
pub mod ocsp;
pub mod registry;
pub mod strutil;
pub mod subscription;
pub mod tier;
pub mod tls;
pub mod x509;

pub use errors::ControlPlaneError;
pub use tier::TierConfig;

verus! {

/// Last representable instant: the final millisecond of year 9999, the
/// largest timestamp a four-digit GeneralizedTime can carry.
pub const MAX_TIME_MS: i64 = 253_402_300_799_999;

} // verus!
