//! Recorded prices, keyed by asset index and timestamp.
use vstd::prelude::*;

verus! {

/// One recorded price.
#[derive(Clone, Copy, Debug, PartialEq, Eq, Structural)]
pub struct PriceRecord {
    pub asset: u8,
    pub timestamp: u64,
    pub price: i128,
}

/// The price recorded last for `(asset, timestamp)` among `records`, if any.
pub open spec fn latest_record(records: Seq<PriceRecord>, asset: u8, timestamp: u64) -> Option<i128>
    decreases records.len(),
{
    if records.len() == 0 {
        None
    } else if records.last().asset == asset && records.last().timestamp == timestamp {
        Some(records.last().price)
    } else {
        latest_record(records.drop_last(), asset, timestamp)
    }
}

/// The prices recorded per asset index and timestamp (in milliseconds).
pub struct PriceTable {
    records: Vec<PriceRecord>,
}

impl View for PriceTable {
    type V = Map<(u8, u64), i128>;

    closed spec fn view(&self) -> Map<(u8, u64), i128> {
        Map::new(
            |k: (u8, u64)| latest_record(self.records@, k.0, k.1) is Some,
            |k: (u8, u64)| latest_record(self.records@, k.0, k.1)->0,
        )
    }
}

impl PriceTable {
    /// The price recorded for `asset` at `timestamp`, if any.
    pub open spec fn spec_get(&self, asset: u8, timestamp: u64) -> Option<i128> {
        if self@.contains_key((asset, timestamp)) {
            Some(self@[(asset, timestamp)])
        } else {
            None
        }
    }

    /// A table with no prices.
    pub fn new() -> (t: PriceTable)
        ensures
            t@ == Map::<(u8, u64), i128>::empty(),
    {
        let t = PriceTable { records: Vec::new() };
        assert(t@ =~= Map::<(u8, u64), i128>::empty());
        t
    }

    /// Records `price` for `asset` at `timestamp`, replacing any earlier one.
    pub fn set(&mut self, asset: u8, timestamp: u64, price: i128)
        ensures
            final(self)@ == old(self)@.insert((asset, timestamp), price),
    {
        let ghost before = self.records@;
        self.records.push(PriceRecord { asset, timestamp, price });
        proof {
            assert(self.records@.drop_last() =~= before);
            assert(self@ =~= old(self)@.insert((asset, timestamp), price));
        }
    }

    /// The price recorded for `asset` at `timestamp`, if any.
    pub fn get(&self, asset: u8, timestamp: u64) -> (r: Option<i128>)
        ensures
            r == self.spec_get(asset, timestamp),
    {
        let mut i = self.records.len();
        assert(self.records@.take(i as int) =~= self.records@);
        while i > 0
            invariant
                i <= self.records.len(),
                latest_record(self.records@, asset, timestamp) == latest_record(
                    self.records@.take(i as int),
                    asset,
                    timestamp,
                ),
            decreases i,
        {
            let rec = self.records[i - 1];
            assert(self.records@.take(i as int).drop_last() =~= self.records@.take(i - 1));
            if rec.asset == asset && rec.timestamp == timestamp {
                return Some(rec.price);
            }
            i = i - 1;
        }
        assert(self.records@.take(0) =~= Seq::<PriceRecord>::empty());
        None
    }
}

/// Reading back a price gives what was last recorded for its asset and timestamp, and
/// recording a price leaves every other asset and timestamp as it was.
pub proof fn law_get_after_set(before: PriceTable, after: PriceTable, asset: u8, timestamp: u64, price: i128, other_asset: u8, other_timestamp: u64)
    requires
        after@ == before@.insert((asset, timestamp), price),
    ensures
        after.spec_get(asset, timestamp) == Some(price),
        (other_asset, other_timestamp) != (asset, timestamp) ==> after.spec_get(other_asset, other_timestamp)
            == before.spec_get(other_asset, other_timestamp),
{
}

} // verus!
