//! Price queries: the record walk, time-weighted averages and cross prices.
use vstd::prelude::*;

use crate::constants::{MAX_RECORDS, TWAP_GRACE_MS};
use crate::contract::NormalOracle;
use crate::math::{
    fixed_div_floor, fixed_div_floor_defined, fixed_div_floor_spec, pow10, pow10_i128, trunc_div,
};
use crate::types::{Asset, AssetView, PriceData};

verus! {

/// The ledger time given in seconds, in milliseconds.
pub open spec fn spec_now(ledger_timestamp: u64) -> int {
    ledger_timestamp * 1000
}

/// The ledger time given in seconds, in milliseconds.
pub fn now(ledger_timestamp: u64) -> (r: u64)
    requires
        spec_now(ledger_timestamp) <= u64::MAX,
    ensures
        r == spec_now(ledger_timestamp),
{
    ledger_timestamp * 1000
}

/// A price together with the record time converted from milliseconds to seconds.
pub open spec fn spec_normalized_price_data(price: i128, timestamp: u64) -> PriceData {
    PriceData { price, timestamp: timestamp / 1000 }
}

/// A price together with the record time converted from milliseconds to seconds.
pub fn get_normalized_price_data(price: i128, timestamp: u64) -> (r: PriceData)
    ensures
        r == spec_normalized_price_data(price, timestamp),
{
    PriceData {
        price,
        timestamp: timestamp / 1000,
    }
}

/// The timestamps the record walk visits, newest first: `count` steps of `step` back from
/// `start`, stopping after the first timestamp that is smaller than one step.
pub open spec fn walk_timestamps(start: int, step: int, count: nat) -> Seq<int>
    decreases count,
{
    if count == 0 {
        Seq::empty()
    } else if start < step {
        seq![start]
    } else {
        seq![start] + walk_timestamps(start - step, step, (count - 1) as nat)
    }
}

/// The prices among a sequence of lookups, in order, with the misses left out.
pub open spec fn present_prices(responses: Seq<Option<PriceData>>) -> Seq<PriceData>
    decreases responses.len(),
{
    if responses.len() == 0 {
        Seq::empty()
    } else {
        let rest = present_prices(responses.drop_last());
        match responses.last() {
            Some(p) => rest.push(p),
            None => rest,
        }
    }
}

/// `responses` are answers that `lookup` may give for `timestamps`, one for each.
pub open spec fn answers<F: Fn(u64) -> Option<PriceData>>(
    lookup: F,
    timestamps: Seq<int>,
    responses: Seq<Option<PriceData>>,
) -> bool {
    &&& responses.len() == timestamps.len()
    &&& forall|i: int|
        0 <= i < timestamps.len() ==> call_ensures(lookup, (timestamps[i] as u64,), #[trigger] responses[i])
}

/// The history a walk yields: the prices found, or nothing when none was found.
pub open spec fn collected(responses: Seq<Option<PriceData>>) -> Option<Seq<PriceData>> {
    if present_prices(responses).len() == 0 {
        None
    } else {
        Some(present_prices(responses))
    }
}

/// A history as a sequence.
pub open spec fn history_view(history: Option<Vec<PriceData>>) -> Option<Seq<PriceData>> {
    match history {
        Some(v) => Some(v@),
        None => None,
    }
}

/// The sum of the prices in `prices`.
pub open spec fn sum_prices(prices: Seq<PriceData>) -> int
    decreases prices.len(),
{
    if prices.len() == 0 {
        0
    } else {
        sum_prices(prices.drop_last()) + prices.last().price
    }
}

/// Every running sum of `prices` fits in an `i128`.
pub open spec fn sums_fit(prices: Seq<PriceData>) -> bool {
    forall|k: int| 0 <= k <= prices.len() ==> i128::MIN <= #[trigger] sum_prices(prices.take(k)) <= i128::MAX
}

/// The newest price of a full history is too old for an average at `current_time`.
pub open spec fn history_too_old(prices: Seq<PriceData>, timeframe: int, current_time: int) -> bool {
    prices[0].timestamp * 1000 + timeframe + TWAP_GRACE_MS < current_time
}

/// The average of a history of `records` prices: none unless the history is full and its
/// newest price is recent enough; the sum divided by the count, rounded toward zero.
pub open spec fn twap_of(prices: Seq<PriceData>, records: nat, timeframe: int, current_time: int) -> Option<int> {
    if prices.len() != records || prices.len() == 0 {
        None
    } else if history_too_old(prices, timeframe, current_time) {
        None
    } else {
        Some(trunc_div(sum_prices(prices), prices.len() as int))
    }
}

/// The average of a history can be computed without overflow.
pub open spec fn twap_computable(prices: Seq<PriceData>, records: nat, timeframe: int, current_time: int) -> bool {
    prices.len() == records && prices.len() > 0 ==> {
        &&& prices[0].timestamp * 1000 + timeframe + TWAP_GRACE_MS <= u64::MAX
        &&& (history_too_old(prices, timeframe, current_time) || sums_fit(prices))
    }
}

impl NormalOracle {
    /// The timestamp of the newest price round still usable at `ledger_timestamp` (seconds),
    /// or zero when there is none: no round yet, a round in the future, or a round two
    /// record spacings old or more.
    pub open spec fn spec_record_timestamp(&self, ledger_timestamp: u64) -> u64 {
        let last = self.last_timestamp;
        let current = spec_now(ledger_timestamp);
        if last == 0 || last > current || current - last >= self.spec_resolution() * 2 {
            0
        } else {
            last
        }
    }

    /// The timestamps a walk of `records` records visits at `ledger_timestamp`.
    pub open spec fn spec_walk(&self, ledger_timestamp: u64, records: u32) -> Seq<int> {
        walk_timestamps(
            self.spec_record_timestamp(ledger_timestamp) as int,
            self.spec_resolution() as int,
            (if records < MAX_RECORDS { records } else { MAX_RECORDS }) as nat,
        )
    }

    /// The index under which `asset` is quoted: its first position in the asset list, when
    /// that position fits in a byte.
    pub open spec fn spec_asset_index(&self, asset: AssetView) -> Option<u8> {
        match first_index(self.assets@.map_values(|a: Asset| a@), asset) {
            Some(i) => if i < 256 {
                Some(i as u8)
            } else {
                None
            },
            None => None,
        }
    }

    pub open spec fn spec_price_data_by_index(&self, asset: u8, timestamp: u64) -> Option<PriceData> {
        match self.prices.spec_get(asset, timestamp) {
            Some(p) => Some(spec_normalized_price_data(p, timestamp)),
            None => None,
        }
    }

    pub open spec fn spec_price_data(&self, asset: AssetView, timestamp: u64) -> Option<PriceData> {
        match self.spec_asset_index(asset) {
            Some(i) => self.spec_price_data_by_index(i, timestamp),
            None => None,
        }
    }

    pub open spec fn spec_asset_pair_indexes(&self, base: AssetView, quote: AssetView) -> Option<(u8, u8)> {
        match (self.spec_asset_index(base), self.spec_asset_index(quote)) {
            (Some(b), Some(q)) => Some((b, q)),
            _ => None,
        }
    }

    /// The cross price of two assets can be computed without overflow.
    pub open spec fn spec_x_price_defined(&self, pair: (u8, u8), timestamp: u64, decimals: u32) -> bool {
        if pair.0 == pair.1 {
            decimals <= 38
        } else {
            match (self.prices.spec_get(pair.0, timestamp), self.prices.spec_get(pair.1, timestamp)) {
                (Some(b), Some(q)) => fixed_div_floor_defined(b as int, q as int, decimals as nat),
                _ => true,
            }
        }
    }

    /// The price of the first asset of `pair` in the second: one (scaled to `decimals`) for
    /// an asset against itself, else the ratio of their prices, rounded down.
    pub open spec fn spec_x_price_by_indexes(&self, pair: (u8, u8), timestamp: u64, decimals: u32) -> Option<PriceData> {
        if pair.0 == pair.1 {
            Some(spec_normalized_price_data(pow10(decimals as nat) as i128, timestamp))
        } else {
            match (self.prices.spec_get(pair.0, timestamp), self.prices.spec_get(pair.1, timestamp)) {
                (Some(b), Some(q)) => Some(
                    spec_normalized_price_data(
                        fixed_div_floor_spec(b as int, q as int, decimals as nat) as i128,
                        timestamp,
                    ),
                ),
                _ => None,
            }
        }
    }
}

/// The position of the first element of `s` equal to `x`.
pub open spec fn first_index(s: Seq<AssetView>, x: AssetView) -> Option<nat>
    decreases s.len(),
{
    if s.len() == 0 {
        None
    } else if s[0] == x {
        Some(0)
    } else {
        match first_index(s.drop_first(), x) {
            Some(i) => Some(i + 1),
            None => None,
        }
    }
}

/// The timestamp of the newest price round still usable at `ledger_timestamp`, or zero.
pub fn obtain_record_timestamp(oracle: &NormalOracle, ledger_timestamp: u64) -> (r: u64)
    requires
        spec_now(ledger_timestamp) <= u64::MAX,
    ensures
        r == oracle.spec_record_timestamp(ledger_timestamp),
{
    let last_timestamp = oracle.last_timestamp;
    let ledger_timestamp = now(ledger_timestamp);
    let resolution = oracle.get_resolution() as u64;
    // No round yet, a round in the future, or a round too old to be reported.
    if last_timestamp == 0 || last_timestamp > ledger_timestamp || ledger_timestamp
        - last_timestamp >= resolution * 2 {
        return 0;
    }
    last_timestamp
}

proof fn lemma_present_prices_push(responses: Seq<Option<PriceData>>, r: Option<PriceData>)
    ensures
        present_prices(responses.push(r)) == (match r {
            Some(p) => present_prices(responses).push(p),
            None => present_prices(responses),
        }),
{
    assert(responses.push(r).drop_last() =~= responses);
}

/// Up to `records` (at most twenty) prices found by `get_price_fn`, newest first, walking
/// back one record spacing at a time from the newest usable round; none when there is no
/// usable round or no price was found.
pub fn prices<F: Fn(u64) -> Option<PriceData>>(
    oracle: &NormalOracle,
    ledger_timestamp: u64,
    get_price_fn: F,
    records: u32,
) -> (r: Option<Vec<PriceData>>)
    requires
        spec_now(ledger_timestamp) <= u64::MAX,
        forall|t: u64| call_requires(get_price_fn, (t,)),
    ensures
        oracle.spec_record_timestamp(ledger_timestamp) == 0 ==> r is None,
        oracle.spec_record_timestamp(ledger_timestamp) != 0 ==> exists|responses: Seq<Option<PriceData>>|
            #[trigger] answers(get_price_fn, oracle.spec_walk(ledger_timestamp, records), responses)
                && history_view(r) == collected(responses),
{
    let mut timestamp = obtain_record_timestamp(oracle, ledger_timestamp);
    if timestamp == 0 {
        return None;
    }
    let mut prices: Vec<PriceData> = Vec::new();
    let resolution = oracle.get_resolution() as u64;

    // At most twenty records are returned.
    let mut records = if records < MAX_RECORDS {
        records
    } else {
        MAX_RECORDS
    };
    let ghost walk = oracle.spec_walk(ledger_timestamp, records);
    let ghost mut visited: Seq<int> = Seq::empty();
    let ghost mut responses: Seq<Option<PriceData>> = Seq::empty();
    assert(walk =~= visited + walk_timestamps(timestamp as int, resolution as int, records as nat));

    while records > 0
        invariant_except_break
            walk == visited + walk_timestamps(timestamp as int, resolution as int, records as nat),
        invariant
            forall|t: u64| call_requires(get_price_fn, (t,)),
            answers(get_price_fn, visited, responses),
            prices@ == present_prices(responses),
        ensures
            walk == visited,
        decreases records,
    {
        let found = get_price_fn(timestamp);
        proof {
            lemma_present_prices_push(responses, found);
            responses = responses.push(found);
            visited = visited.push(timestamp as int);
        }
        if let Some(price) = found {
            prices.push(price);
        }
        // Every visited timestamp counts against the records asked for.
        records -= 1;

        if timestamp < resolution {
            assert(walk =~= visited);
            break;
        }
        timestamp -= resolution;
        assert(walk =~= visited + walk_timestamps(timestamp as int, resolution as int, records as nat));
    }
    proof {
        if records == 0 {
            assert(walk =~= visited);
        }
    }
    if prices.len() == 0 {
        None
    } else {
        Some(prices)
    }
}

/// Sums the prices of `prices`.
fn sum_of(prices: &Vec<PriceData>) -> (r: i128)
    requires
        sums_fit(prices@),
    ensures
        r == sum_prices(prices@),
{
    let mut sum: i128 = 0;
    let mut i: usize = 0;
    assert(prices@.take(0) =~= Seq::<PriceData>::empty());
    while i < prices.len()
        invariant
            i <= prices.len(),
            sums_fit(prices@),
            sum == sum_prices(prices@.take(i as int)),
        decreases prices.len() - i,
    {
        assert(prices@.take(i + 1).drop_last() =~= prices@.take(i as int));
        assert(i128::MIN <= sum_prices(prices@.take(i + 1)) <= i128::MAX);
        sum = sum + prices[i].price;
        i = i + 1;
    }
    assert(prices@.take(prices.len() as int) =~= prices@);
    sum
}

/// The time-weighted average of the last `records` prices found by `get_price_fn`: none
/// unless exactly `records` prices were found and the newest is at most one record
/// spacing and a minute old; else their sum divided by their number, rounded toward zero.
pub fn get_twap<F: Fn(u64) -> Option<PriceData>>(
    oracle: &NormalOracle,
    ledger_timestamp: u64,
    get_price_fn: F,
    records: u32,
) -> (r: Option<i128>)
    requires
        spec_now(ledger_timestamp) <= u64::MAX,
        forall|t: u64| call_requires(get_price_fn, (t,)),
        oracle.spec_record_timestamp(ledger_timestamp) != 0 ==> forall|responses: Seq<Option<PriceData>>|
            #[trigger] answers(get_price_fn, oracle.spec_walk(ledger_timestamp, records), responses)
                ==> twap_computable(
                present_prices(responses),
                records as nat,
                oracle.spec_resolution() as int,
                spec_now(ledger_timestamp),
            ),
    ensures
        oracle.spec_record_timestamp(ledger_timestamp) == 0 ==> r is None,
        oracle.spec_record_timestamp(ledger_timestamp) != 0 ==> exists|responses: Seq<Option<PriceData>>|
            #[trigger] answers(get_price_fn, oracle.spec_walk(ledger_timestamp, records), responses)
                && match r {
                Some(average) => twap_of(
                    present_prices(responses),
                    records as nat,
                    oracle.spec_resolution() as int,
                    spec_now(ledger_timestamp),
                ) == Some(average as int),
                None => twap_of(
                    present_prices(responses),
                    records as nat,
                    oracle.spec_resolution() as int,
                    spec_now(ledger_timestamp),
                ) is None,
            },
{
    let prices = match prices(oracle, ledger_timestamp, get_price_fn, records) {
        Some(p) => p,
        None => return None,
    };
    let ghost responses = choose|responses: Seq<Option<PriceData>>|
        #[trigger] answers(get_price_fn, oracle.spec_walk(ledger_timestamp, records), responses)
            && history_view(Some(prices)) == collected(responses);
    assert(prices@ == present_prices(responses));

    if prices.len() != records as usize {
        return None;
    }
    let last_price_timestamp = prices[0].timestamp * 1000;  // in milliseconds, like the ledger time
    let timeframe = oracle.get_resolution() as u64;
    let current_time = now(ledger_timestamp);

    // The newest price must be at most one spacing and a minute old.
    if last_price_timestamp + timeframe + TWAP_GRACE_MS < current_time {
        return None;
    }
    let sum = sum_of(&prices);
    let count = prices.len() as i128;
    Some(sum / count)
}

/// The price of `base_asset` in `quote_asset` at `timestamp`, scaled to `decimals`.
pub fn get_x_price(
    oracle: &NormalOracle,
    base_asset: &Asset,
    quote_asset: &Asset,
    timestamp: u64,
    decimals: u32,
) -> (r: Option<PriceData>)
    requires
        oracle.spec_asset_pair_indexes(base_asset@, quote_asset@) matches Some(pair)
            ==> oracle.spec_x_price_defined(pair, timestamp, decimals),
    ensures
        r == (match oracle.spec_asset_pair_indexes(base_asset@, quote_asset@) {
            Some(pair) => oracle.spec_x_price_by_indexes(pair, timestamp, decimals),
            None => None,
        }),
{
    let asset_pair_indexes = get_asset_pair_indexes(oracle, base_asset, quote_asset);
    if asset_pair_indexes.is_none() {
        return None;
    }
    get_x_price_by_indexes(oracle, asset_pair_indexes.unwrap(), timestamp, decimals)
}

/// The price of the first asset of `asset_pair_indexes` in the second at `timestamp`,
/// scaled to `decimals`: `10^decimals` for an asset against itself, else the ratio of their
/// recorded prices rounded down; none when either price is missing.
pub fn get_x_price_by_indexes(
    oracle: &NormalOracle,
    asset_pair_indexes: (u8, u8),
    timestamp: u64,
    decimals: u32,
) -> (r: Option<PriceData>)
    requires
        oracle.spec_x_price_defined(asset_pair_indexes, timestamp, decimals),
    ensures
        r == oracle.spec_x_price_by_indexes(asset_pair_indexes, timestamp, decimals),
{
    let (base_asset, quote_asset) = asset_pair_indexes;
    // An asset is worth exactly one of itself.
    if base_asset == quote_asset {
        return Some(get_normalized_price_data(pow10_i128(decimals), timestamp));
    }
    let base_asset_price = oracle.prices.get(base_asset, timestamp);
    if base_asset_price.is_none() {
        return None;
    }
    let quote_asset_price = oracle.prices.get(quote_asset, timestamp);
    if quote_asset_price.is_none() {
        return None;
    }
    Some(
        get_normalized_price_data(
            fixed_div_floor(base_asset_price.unwrap(), quote_asset_price.unwrap(), decimals),
            timestamp,
        ),
    )
}

/// The index under which `asset` is quoted, if it is.
pub fn get_asset_index(oracle: &NormalOracle, asset: &Asset) -> (r: Option<u8>)
    ensures
        r == oracle.spec_asset_index(asset@),
{
    let ghost views = oracle.assets@.map_values(|a: Asset| a@);
    let mut i: usize = 0;
    assert(views.skip(0) =~= views);
    while i < oracle.assets.len() && i < 256
        invariant
            i <= oracle.assets.len(),
            i <= 256,
            views == oracle.assets@.map_values(|a: Asset| a@),
            first_index(views, asset@) == match first_index(views.skip(i as int), asset@) {
                Some(j) => Some((j + i) as nat),
                None => None,
            },
        decreases oracle.assets.len() - i,
    {
        assert(views.skip(i as int)[0] == oracle.assets@[i as int]@);
        if oracle.assets[i].same_as(asset) {
            return Some(i as u8);
        }
        assert(views.skip(i as int).drop_first() =~= views.skip(i + 1));
        i = i + 1;
    }
    if i < oracle.assets.len() {
        // Any later position does not fit in a byte.
        assert(i == 256);
    } else {
        assert(views.skip(i as int).len() == 0);
    }
    None
}

/// The indexes of both assets of a pair, if both are quoted.
pub fn get_asset_pair_indexes(oracle: &NormalOracle, base_asset: &Asset, quote_asset: &Asset) -> (r: Option<(u8, u8)>)
    ensures
        r == oracle.spec_asset_pair_indexes(base_asset@, quote_asset@),
{
    let base_asset = get_asset_index(oracle, base_asset);
    if base_asset.is_none() {
        return None;
    }
    let quote_asset = get_asset_index(oracle, quote_asset);
    if quote_asset.is_none() {
        return None;
    }
    Some((base_asset.unwrap(), quote_asset.unwrap()))
}

/// The price of `asset` recorded at `timestamp`, if it is quoted and has one.
pub fn get_price_data(oracle: &NormalOracle, asset: &Asset, timestamp: u64) -> (r: Option<PriceData>)
    ensures
        r == oracle.spec_price_data(asset@, timestamp),
{
    let asset: Option<u8> = get_asset_index(oracle, asset);
    if asset.is_none() {
        return None;
    }
    get_price_data_by_index(oracle, asset.unwrap(), timestamp)
}

/// The price recorded under asset index `asset` at `timestamp`, if any.
pub fn get_price_data_by_index(oracle: &NormalOracle, asset: u8, timestamp: u64) -> (r: Option<PriceData>)
    ensures
        r == oracle.spec_price_data_by_index(asset, timestamp),
{
    let price = oracle.prices.get(asset, timestamp);
    if price.is_none() {
        return None;
    }
    Some(get_normalized_price_data(price.unwrap(), timestamp))
}

} // verus!
