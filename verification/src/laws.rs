//! Properties that hold across the oracle's operations.
use vstd::prelude::*;

use crate::constants::{
    MAX_SANITIZE_CLAMP_DENOMINATOR, PERCENTAGE_PRECISION_U64, TWENTY_FOUR_HOUR, DEFAULT_DECIMALS, DEFAULT_RESOLUTION, DEFAULT_SANITIZE_CLAMP_DENOMINATOR,
    DEFAULT_SECONDS_BEFORE_STALE, DEFAULT_TOO_VOLATILE_RATIO, MAX_RECORDS,
};
use crate::contract::NormalOracle;
use crate::math::{pow10, trunc_div};
use crate::oracle::{
    answers, present_prices, spec_now, sum_prices, twap_of, walk_timestamps,
};
use crate::types::{AssetView, GuardRails, PriceData, Role};

verus! {

/// A contract that was never set up reports the default settings.
pub proof fn law_blank_contract_defaults(oracle: NormalOracle)
    requires
        oracle.spec_is_blank(),
    ensures
        oracle.spec_decimals() == DEFAULT_DECIMALS,
        oracle.spec_resolution() == DEFAULT_RESOLUTION,
        oracle.spec_guard_rails() == (GuardRails {
            seconds_before_stale: DEFAULT_SECONDS_BEFORE_STALE,
            too_volatile_ratio: DEFAULT_TOO_VOLATILE_RATIO,
            sanitize_clamp_denominator: DEFAULT_SANITIZE_CLAMP_DENOMINATOR,
        }),
        forall|lt: u64| oracle.spec_record_timestamp(lt) == 0,
{
}

/// Setting one guard rail changes exactly that guard rail.
pub proof fn law_guard_rail_settings(before: NormalOracle, stale: u64, ratio: u64, denominator: u128)
    ensures
        (NormalOracle { seconds_before_stale: Some(stale), ..before }).spec_guard_rails() == (GuardRails {
            seconds_before_stale: stale,
            ..before.spec_guard_rails()
        }),
        (NormalOracle { too_volatile_ratio: Some(ratio), ..before }).spec_guard_rails() == (GuardRails {
            too_volatile_ratio: ratio,
            ..before.spec_guard_rails()
        }),
        (NormalOracle { sanitize_clamp_denominator: Some(denominator), ..before }).spec_guard_rails()
            == (GuardRails { sanitize_clamp_denominator: denominator, ..before.spec_guard_rails() }),
{
}

/// Replacing the privileged addresses changes what the listing reports for the operations
/// admin, pause admin and emergency pause admins, and nothing else.
pub proof fn law_privileged_addrs_replaced(
    before: NormalOracle,
    operations_admin: String,
    pause_admin: String,
    emergency_pause_admins: Vec<String>,
)
    ensures
        ({
            let after = NormalOracle {
                operations_admin: Some(operations_admin),
                pause_admin: Some(pause_admin),
                emergency_pause_admins,
                ..before
            };
            &&& after.spec_role_addresses(Role::Admin) == before.spec_role_addresses(Role::Admin)
            &&& after.spec_role_addresses(Role::EmergencyAdmin) == before.spec_role_addresses(
                Role::EmergencyAdmin,
            )
            &&& after.spec_role_addresses(Role::OperationsAdmin) == seq![operations_admin]
            &&& after.spec_role_addresses(Role::PauseAdmin) == seq![pause_admin]
            &&& after.spec_role_addresses(Role::EmergencyPauseAdmin) == emergency_pause_admins@
        }),
{
}

/// The newest usable round is never in the future, nor two record spacings old or more.
pub proof fn law_record_timestamp_is_recent(oracle: NormalOracle, ledger_timestamp: u64)
    ensures
        oracle.spec_record_timestamp(ledger_timestamp) == 0 || ({
            &&& oracle.spec_record_timestamp(ledger_timestamp) == oracle.last_timestamp
            &&& oracle.last_timestamp <= spec_now(ledger_timestamp)
            &&& spec_now(ledger_timestamp) - oracle.last_timestamp < oracle.spec_resolution() * 2
        }),
{
}

proof fn lemma_walk_length(start: int, step: int, count: nat)
    ensures
        walk_timestamps(start, step, count).len() <= count,
    decreases count,
{
    if count > 0 && start >= step {
        lemma_walk_length(start - step, step, (count - 1) as nat);
    }
}

proof fn lemma_present_length(responses: Seq<Option<PriceData>>)
    ensures
        present_prices(responses).len() <= responses.len(),
    decreases responses.len(),
{
    if responses.len() > 0 {
        lemma_present_length(responses.drop_last());
    }
}

/// A history holds at most as many prices as were asked for, and never more than twenty.
pub proof fn law_history_bounded<F: Fn(u64) -> Option<PriceData>>(
    oracle: NormalOracle,
    ledger_timestamp: u64,
    lookup: F,
    records: u32,
    responses: Seq<Option<PriceData>>,
)
    requires
        answers(lookup, oracle.spec_walk(ledger_timestamp, records), responses),
    ensures
        present_prices(responses).len() <= records,
        present_prices(responses).len() <= MAX_RECORDS,
{
    lemma_walk_length(
        oracle.spec_record_timestamp(ledger_timestamp) as int,
        oracle.spec_resolution() as int,
        (if records < MAX_RECORDS { records } else { MAX_RECORDS }) as nat,
    );
    lemma_present_length(responses);
}

proof fn lemma_sum_bounds(prices: Seq<PriceData>, lo: int, hi: int)
    requires
        forall|i: int| 0 <= i < prices.len() ==> lo <= #[trigger] prices[i].price <= hi,
    ensures
        lo * prices.len() <= sum_prices(prices) <= hi * prices.len(),
    decreases prices.len(),
{
    if prices.len() > 0 {
        let rest = prices.drop_last();
        assert forall|i: int| 0 <= i < rest.len() implies lo <= #[trigger] rest[i].price <= hi by {
            assert(rest[i] == prices[i]);
        }
        lemma_sum_bounds(rest, lo, hi);
        assert(lo <= prices[prices.len() - 1].price <= hi);
        assert(sum_prices(prices) == sum_prices(rest) + prices[prices.len() - 1].price);
        assert(lo * prices.len() == lo * rest.len() + lo) by (nonlinear_arith)
            requires
                prices.len() == rest.len() + 1,
        ;
        assert(hi * prices.len() == hi * rest.len() + hi) by (nonlinear_arith)
            requires
                prices.len() == rest.len() + 1,
        ;
    } else {
        assert(lo * prices.len() == 0 && hi * prices.len() == 0) by (nonlinear_arith)
            requires
                prices.len() == 0,
        ;
    }
}

proof fn lemma_trunc_div_bounds(s: int, n: int, lo: int, hi: int)
    requires
        n > 0,
        lo * n <= s <= hi * n,
    ensures
        lo <= trunc_div(s, n) <= hi,
{
    let q = trunc_div(s, n);
    if s >= 0 {
        vstd::arithmetic::div_mod::lemma_fundamental_div_mod(s, n);
        vstd::arithmetic::div_mod::lemma_mod_bound(s, n);
        assert(q == s / n);
        assert(lo <= q <= hi) by (nonlinear_arith)
            requires
                s == n * q + s % n,
                0 <= s % n < n,
                lo * n <= s <= hi * n,
                n > 0,
                s >= 0,
        ;
    } else {
        vstd::arithmetic::div_mod::lemma_fundamental_div_mod(-s, n);
        vstd::arithmetic::div_mod::lemma_mod_bound(-s, n);
        assert(q == -((-s) / n));
        let p = (-s) / n;
        assert(lo <= -p <= hi) by (nonlinear_arith)
            requires
                -s == n * p + (-s) % n,
                0 <= (-s) % n < n,
                lo * n <= s <= hi * n,
                n > 0,
                s < 0,
        ;
    }
}

/// An average lies between the lowest and the highest price it is taken over.
pub proof fn law_twap_within_price_range(
    prices: Seq<PriceData>,
    records: nat,
    timeframe: int,
    current_time: int,
    lo: int,
    hi: int,
)
    requires
        forall|i: int| 0 <= i < prices.len() ==> lo <= #[trigger] prices[i].price <= hi,
        twap_of(prices, records, timeframe, current_time) is Some,
    ensures
        lo <= twap_of(prices, records, timeframe, current_time)->0 <= hi,
{
    lemma_sum_bounds(prices, lo, hi);
    lemma_trunc_div_bounds(sum_prices(prices), prices.len() as int, lo, hi);
}

proof fn lemma_present_prices_first(responses: Seq<Option<PriceData>>)
    requires
        responses.len() > 0,
        responses[0] is Some,
    ensures
        present_prices(responses).len() > 0,
        present_prices(responses)[0] == responses[0]->0,
    decreases responses.len(),
{
    if responses.len() > 1 {
        let rest = responses.drop_last();
        assert(rest[0] == responses[0]);
        lemma_present_prices_first(rest);
        assert(present_prices(responses).len() >= present_prices(rest).len());
        assert(present_prices(responses)[0] == present_prices(rest)[0]);
    } else {
        assert(responses.drop_last().len() == 0);
        assert(present_prices(responses.drop_last()).len() == 0);
        assert(present_prices(responses) == present_prices(responses.drop_last()).push(responses[0]->0));
    }
}

/// A history that is asked for at least one record starts with the newest price, when the
/// newest usable round has one.
pub proof fn law_history_starts_with_last_price(
    oracle: NormalOracle,
    ledger_timestamp: u64,
    asset: AssetView,
    records: u32,
)
    requires
        records > 0,
        oracle.spec_record_timestamp(ledger_timestamp) != 0,
        oracle.spec_price_data(asset, oracle.spec_record_timestamp(ledger_timestamp)) is Some,
    ensures
        oracle.spec_history(ledger_timestamp, asset, records) matches Some(history) && history[0]
            == oracle.spec_price_data(asset, oracle.spec_record_timestamp(ledger_timestamp))->0,
{
    let start = oracle.spec_record_timestamp(ledger_timestamp);
    let walk = oracle.spec_walk(ledger_timestamp, records);
    let index = oracle.spec_asset_index(asset)->0;
    assert(walk[0] == start as int);
    let responses = walk.map_values(|t: int| oracle.spec_price_data_by_index(index, t as u64));
    assert(responses[0] == oracle.spec_price_data_by_index(index, start));
    lemma_present_prices_first(responses);
}

/// The guard rails stay in range: a blank contract starts in range, every operation on the
/// contract keeps them in range (each states so in its `ensures`), and in range the
/// reported guard rails lie within the bounds their setters accept.
pub proof fn law_guard_rails_in_range(blank: NormalOracle, oracle: NormalOracle)
    requires
        blank.spec_is_blank(),
        oracle.spec_guard_rails_in_range(),
    ensures
        blank.spec_guard_rails_in_range(),
        1 <= oracle.spec_guard_rails().seconds_before_stale <= TWENTY_FOUR_HOUR,
        oracle.spec_guard_rails().too_volatile_ratio <= PERCENTAGE_PRECISION_U64,
        oracle.spec_guard_rails().sanitize_clamp_denominator <= MAX_SANITIZE_CLAMP_DENOMINATOR,
{
}

/// The last price of an asset is the first entry of its one-record history, and there is
/// none exactly when that history is empty.
pub proof fn law_last_price_is_one_record_history(oracle: NormalOracle, ledger_timestamp: u64, asset: AssetView)
    ensures
        (match oracle.spec_history(ledger_timestamp, asset, 1) {
            Some(history) => Some(history[0]),
            None => None,
        }) == (if oracle.spec_record_timestamp(ledger_timestamp) == 0 {
            None
        } else {
            oracle.spec_price_data(asset, oracle.spec_record_timestamp(ledger_timestamp))
        }),
{
    let start = oracle.spec_record_timestamp(ledger_timestamp);
    if start != 0 {
        let walk = oracle.spec_walk(ledger_timestamp, 1);
        let step = oracle.spec_resolution() as int;
        assert(walk == walk_timestamps(start as int, step, 1));
        assert(walk_timestamps(start - step, step, 0) =~= Seq::<int>::empty());
        assert(walk =~= seq![start as int]);
        if let Some(index) = oracle.spec_asset_index(asset) {
            let responses = walk.map_values(|t: int| oracle.spec_price_data_by_index(index, t as u64));
            assert(responses =~= seq![oracle.spec_price_data_by_index(index, start)]);
            assert(responses.drop_last() =~= Seq::<Option<PriceData>>::empty());
            assert(present_prices(responses.drop_last()) =~= Seq::<PriceData>::empty());
        }
    }
}

/// An average is given only for a history of exactly the requested, non-zero number of
/// prices, and it is their sum divided by that number, rounded toward zero.
pub proof fn law_twap_only_for_requested_count(
    prices: Seq<PriceData>,
    records: nat,
    timeframe: int,
    current_time: int,
)
    ensures
        twap_of(prices, records, timeframe, current_time) matches Some(average) ==> {
            &&& prices.len() == records
            &&& records > 0
            &&& average == trunc_div(sum_prices(prices), records as int)
        },
{
}

/// No average is given for more records than one history holds: whatever answers the
/// lookup gives along the walk, an average for `records` records exists only when
/// `records` is at most twenty.
pub proof fn law_twap_needs_a_full_history<F: Fn(u64) -> Option<PriceData>>(
    oracle: NormalOracle,
    ledger_timestamp: u64,
    lookup: F,
    records: u32,
    responses: Seq<Option<PriceData>>,
)
    requires
        answers(lookup, oracle.spec_walk(ledger_timestamp, records), responses),
    ensures
        twap_of(
            present_prices(responses),
            records as nat,
            oracle.spec_resolution() as int,
            spec_now(ledger_timestamp),
        ) is Some ==> 0 < records <= MAX_RECORDS,
{
    law_history_bounded(oracle, ledger_timestamp, lookup, records, responses);
}

proof fn lemma_present_prices_contains(responses: Seq<Option<PriceData>>, k: int)
    requires
        0 <= k < responses.len(),
        responses[k] is Some,
    ensures
        present_prices(responses).contains(responses[k]->0),
    decreases responses.len(),
{
    let rest = responses.drop_last();
    if k == responses.len() - 1 {
        let p = present_prices(responses);
        assert(p[p.len() - 1] == responses[k]->0);
    } else {
        assert(rest[k] == responses[k]);
        lemma_present_prices_contains(rest, k);
        let j = choose|j: int| 0 <= j < present_prices(rest).len() && present_prices(rest)[j] == responses[k]->0;
        assert(present_prices(responses)[j] == responses[k]->0);
    }
}

proof fn lemma_present_prices_come_from(responses: Seq<Option<PriceData>>, j: int)
    requires
        0 <= j < present_prices(responses).len(),
    ensures
        exists|k: int| 0 <= k < responses.len() && responses[k] == Some(present_prices(responses)[j]),
    decreases responses.len(),
{
    let rest = responses.drop_last();
    if j < present_prices(rest).len() {
        assert(present_prices(responses)[j] == present_prices(rest)[j]);
        lemma_present_prices_come_from(rest, j);
        let k = choose|k: int| 0 <= k < rest.len() && rest[k] == Some(present_prices(rest)[j]);
        assert(responses[k] == rest[k]);
    } else {
        assert(responses[responses.len() - 1] == Some(present_prices(responses)[j]));
    }
}

/// A history holds every price found along its walk, whichever rounds lack one, and
/// nothing else: each entry is the price of some round on the walk.
pub proof fn law_history_is_the_prices_found(
    oracle: NormalOracle,
    ledger_timestamp: u64,
    asset: AssetView,
    records: u32,
    k: int,
)
    requires
        oracle.spec_record_timestamp(ledger_timestamp) != 0,
        oracle.spec_asset_index(asset) is Some,
    ensures
        ({
            let walk = oracle.spec_walk(ledger_timestamp, records);
            let index = oracle.spec_asset_index(asset)->0;
            0 <= k < walk.len() && oracle.spec_price_data_by_index(index, walk[k] as u64) is Some ==> (
            oracle.spec_history(ledger_timestamp, asset, records) matches Some(history)
                && history.contains(oracle.spec_price_data_by_index(index, walk[k] as u64)->0))
        }),
        ({
            let walk = oracle.spec_walk(ledger_timestamp, records);
            let index = oracle.spec_asset_index(asset)->0;
            oracle.spec_history(ledger_timestamp, asset, records) matches Some(history) ==> forall|j: int|
                0 <= j < history.len() ==> exists|i: int|
                    0 <= i < walk.len() && oracle.spec_price_data_by_index(index, #[trigger] walk[i] as u64)
                        == Some(#[trigger] history[j])
        }),
{
    let walk = oracle.spec_walk(ledger_timestamp, records);
    let index = oracle.spec_asset_index(asset)->0;
    let responses = walk.map_values(|t: int| oracle.spec_price_data_by_index(index, t as u64));
    if 0 <= k < walk.len() && oracle.spec_price_data_by_index(index, walk[k] as u64) is Some {
        assert(responses[k] == oracle.spec_price_data_by_index(index, walk[k] as u64));
        lemma_present_prices_contains(responses, k);
    }
    if oracle.spec_history(ledger_timestamp, asset, records) is Some {
        assert(oracle.spec_history(ledger_timestamp, asset, records) == Some(present_prices(responses)));
        let history = present_prices(responses);
        assert forall|j: int| 0 <= j < history.len() implies exists|i: int|
            0 <= i < walk.len() && oracle.spec_price_data_by_index(index, #[trigger] walk[i] as u64)
                == Some(#[trigger] history[j]) by {
            lemma_present_prices_come_from(responses, j);
            let i = choose|i: int| 0 <= i < responses.len() && responses[i] == Some(history[j]);
            assert(responses[i] == oracle.spec_price_data_by_index(index, walk[i] as u64));
        }
    }
}

proof fn lemma_pow10_is_power(d: nat)
    ensures
        pow10(d) == vstd::arithmetic::power::pow(10, d),
    decreases d,
{
    reveal(vstd::arithmetic::power::pow);
    if d > 0 {
        lemma_pow10_is_power((d - 1) as nat);
    }
}

/// An asset priced in itself is worth exactly one unit at the requested scale, `10^decimals`,
/// whatever decimals the oracle is configured with and whatever prices it holds.
pub proof fn law_same_asset_is_one_unit(oracle: NormalOracle, index: u8, timestamp: u64, decimals: u32)
    requires
        decimals <= 38,
    ensures
        oracle.spec_x_price_by_indexes((index, index), timestamp, decimals) == Some(
            PriceData {
                price: vstd::arithmetic::power::pow(10, decimals as nat) as i128,
                timestamp: timestamp / 1000,
            },
        ),
{
    lemma_pow10_is_power(decimals as nat);
}

} // verus!
