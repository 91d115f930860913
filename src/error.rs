//! Failures that the library reports to its callers.
use vstd::prelude::*;

verus! {

/// Why a lookup or a setup step did not produce a value.
#[derive(Debug, Clone, Copy, PartialEq, Eq, Structural)]
pub enum LookupError {
    /// A login name outside the accepted length bounds; no request is made for it.
    InvalidUsername,
    /// The upstream query answered with no matching record.
    NotFound,
    /// Credential text that does not hold exactly four `;`-separated fields.
    MalformedCredentials,
    /// A subscription tier that is not a number.
    InvalidTier,
    /// A timestamp that is not RFC 3339 text or lies outside the supported range.
    InvalidTimestamp,
}

} // verus!
