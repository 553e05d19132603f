//! Settings with their defaults, and the feed history.
use vstd::prelude::*;

use crate::constants::{
    DEFAULT_DECIMALS, DEFAULT_RESOLUTION, DEFAULT_SANITIZE_CLAMP_DENOMINATOR,
    DEFAULT_SECONDS_BEFORE_STALE, DEFAULT_TOO_VOLATILE_RATIO,
};
use crate::contract::NormalOracle;
use crate::errors::NormalOracleError;
use crate::types::{HistoricalOracleData, OraclePriceData};

verus! {

impl NormalOracle {
    /// The number of decimals of every price.
    pub open spec fn spec_decimals(&self) -> u32 {
        match self.decimals {
            Some(d) => d,
            None => DEFAULT_DECIMALS,
        }
    }

    /// The spacing of price records, in milliseconds.
    pub open spec fn spec_resolution(&self) -> u32 {
        match self.resolution {
            Some(r) => r,
            None => DEFAULT_RESOLUTION,
        }
    }

    pub open spec fn spec_sanitize_clamp_denominator(&self) -> u128 {
        match self.sanitize_clamp_denominator {
            Some(d) => d,
            None => DEFAULT_SANITIZE_CLAMP_DENOMINATOR,
        }
    }

    pub open spec fn spec_seconds_before_stale(&self) -> u64 {
        match self.seconds_before_stale {
            Some(s) => s,
            None => DEFAULT_SECONDS_BEFORE_STALE,
        }
    }

    pub open spec fn spec_too_volatile_ratio(&self) -> u64 {
        match self.too_volatile_ratio {
            Some(r) => r,
            None => DEFAULT_TOO_VOLATILE_RATIO,
        }
    }

    pub fn get_decimals(&self) -> (r: u32)
        ensures
            r == self.spec_decimals(),
    {
        match self.decimals {
            Some(d) => d,
            None => DEFAULT_DECIMALS,
        }
    }

    pub fn get_resolution(&self) -> (r: u32)
        ensures
            r == self.spec_resolution(),
    {
        match self.resolution {
            Some(r) => r,
            None => DEFAULT_RESOLUTION,
        }
    }

    pub fn get_sanitize_clamp_denominator(&self) -> (r: u128)
        ensures
            r == self.spec_sanitize_clamp_denominator(),
    {
        match self.sanitize_clamp_denominator {
            Some(d) => d,
            None => DEFAULT_SANITIZE_CLAMP_DENOMINATOR,
        }
    }

    pub fn get_seconds_before_stale(&self) -> (r: u64)
        ensures
            r == self.spec_seconds_before_stale(),
    {
        match self.seconds_before_stale {
            Some(s) => s,
            None => DEFAULT_SECONDS_BEFORE_STALE,
        }
    }

    pub fn get_too_volatile_ratio(&self) -> (r: u64)
        ensures
            r == self.spec_too_volatile_ratio(),
    {
        match self.too_volatile_ratio {
            Some(r) => r,
            None => DEFAULT_TOO_VOLATILE_RATIO,
        }
    }
}

impl NormalOracle {
    /// The stored feed history; when none is stored yet, the history that starts from
    /// `oracle_price_data` observed at `now`.
    pub fn get_historical_data(&self, oracle_price_data: &OraclePriceData, now: u64) -> (r: HistoricalOracleData)
        ensures
            r == (match self.historical_data {
                Some(data) => data,
                None => HistoricalOracleData::spec_bootstrap(*oracle_price_data, now),
            }),
    {
        match self.historical_data {
            Some(data) => data,
            None => HistoricalOracleData::bootstrap(*oracle_price_data, now),
        }
    }

    /// The stored feed history; refused when none is stored.
    pub fn get_historical_data_raw(&self) -> (r: Result<HistoricalOracleData, NormalOracleError>)
        ensures
            r == (match self.historical_data {
                Some(data) => Ok(data),
                None => Err(NormalOracleError::ValueNotInitialized),
            }),
    {
        match self.historical_data {
            Some(data) => Ok(data),
            None => Err(NormalOracleError::ValueNotInitialized),
        }
    }

    /// Stores the feed history after an update.
    pub fn put_historical_data(&mut self, oracle_data: &HistoricalOracleData)
        ensures
            old(self).spec_guard_rails_in_range() ==> final(self).spec_guard_rails_in_range(),
            *final(self) == (NormalOracle { historical_data: Some(*oracle_data), ..*old(self) }),
    {
        self.historical_data = Some(*oracle_data);
    }
}

} // verus!
