//! Errors the oracle reports.
use vstd::prelude::*;

verus! {

/// Why a request to the oracle was refused.
#[derive(Clone, Copy, Debug, PartialEq, Eq, Structural)]
pub enum NormalOracleError {
    /// The contract has already been given its administrators.
    AlreadyInitialized,
    /// A parameter lies outside the range the oracle accepts.
    InvalidInput,
    /// The caller does not hold the role the request needs.
    Unauthorized,
    /// The role asked about has no address.
    RoleNotFound,
    /// A cross-chain payload is not a well-formed encoded string.
    FailedDecoding,
    /// A value that must have been stored is missing.
    ValueNotInitialized,
}

} // verus!
