//! Fixed parameters of the oracle.
use vstd::prelude::*;

verus! {

/// Five minutes, in seconds.
pub const FIVE_MINUTE: u64 = 300;

/// Twenty-four hours, in seconds.
pub const TWENTY_FOUR_HOUR: u64 = 86400;

/// One hundred percent in the fixed-point unit that ratios are expressed in.
pub const PERCENTAGE_PRECISION_U64: u64 = 1_000_000;

/// The largest clamp denominator an operator may configure.
pub const MAX_SANITIZE_CLAMP_DENOMINATOR: u128 = 10_000;

/// Price decimals reported when none were configured.
pub const DEFAULT_DECIMALS: u32 = 7;

/// Record resolution (in milliseconds) used when none was configured.
pub const DEFAULT_RESOLUTION: u32 = 500;

/// Clamp denominator used when none was configured: a ±10% move per update.
pub const DEFAULT_SANITIZE_CLAMP_DENOMINATOR: u128 = 10;

/// Staleness limit (in seconds) used when none was configured.
pub const DEFAULT_SECONDS_BEFORE_STALE: u64 = FIVE_MINUTE;

/// Volatility ratio used when none was configured: ±20%.
pub const DEFAULT_TOO_VOLATILE_RATIO: u64 = PERCENTAGE_PRECISION_U64 / 5;

/// At most this many records are returned by one history query.
pub const MAX_RECORDS: u32 = 20;

/// A price at or before the current time minus this many milliseconds and one tick is too old
/// for an average.
pub const TWAP_GRACE_MS: u64 = 60_000;

/// The contract's version number.
pub const CONTRACT_VERSION: u32 = 110;

} // verus!
