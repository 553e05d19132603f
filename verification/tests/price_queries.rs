use normal_oracle::contract::NormalOracle;
use normal_oracle::oracle::{
    get_asset_index, get_asset_pair_indexes, get_normalized_price_data, get_price_data,
    get_price_data_by_index, get_twap, get_x_price, get_x_price_by_indexes, now,
    obtain_record_timestamp, prices,
};
use normal_oracle::types::{Asset, PriceData};

fn xlm() -> Asset {
    Asset::Other("XLM".to_string())
}

fn btc() -> Asset {
    Asset::Other("BTC".to_string())
}

/// Prices every five minutes; the newest round is at 600 000 ms.
fn oracle() -> NormalOracle {
    let mut oracle = NormalOracle::new();
    oracle.assets = vec![xlm(), btc(), Asset::Stellar("CCONTRACT".to_string())];
    oracle.resolution = Some(300_000);
    oracle.decimals = Some(7);
    oracle.last_timestamp = 600_000;
    oracle.prices.set(0, 0, 90);
    oracle.prices.set(0, 300_000, 100);
    oracle.prices.set(0, 600_000, 110);
    oracle.prices.set(1, 600_000, 40);
    oracle.prices.set(1, 300_000, 0);
    oracle
}

#[test]
fn time_is_reported_in_milliseconds() {
    assert_eq!(now(700), 700_000);
    assert_eq!(now(0), 0);
}

#[test]
fn normalized_price_data_is_in_seconds() {
    assert_eq!(get_normalized_price_data(5, 600_999), PriceData { price: 5, timestamp: 600 });
}

#[test]
fn record_timestamp_is_the_newest_usable_round() {
    let mut o = oracle();
    assert_eq!(obtain_record_timestamp(&o, 700), 600_000);
    // two spacings old or more: unusable
    assert_eq!(obtain_record_timestamp(&o, 1_200), 0);
    assert_eq!(obtain_record_timestamp(&o, 1_199), 600_000);
    // in the future: unusable
    assert_eq!(obtain_record_timestamp(&o, 599), 0);
    o.last_timestamp = 0;
    assert_eq!(obtain_record_timestamp(&o, 700), 0);
}

#[test]
fn assets_are_found_by_position() {
    let o = oracle();
    assert_eq!(get_asset_index(&o, &xlm()), Some(0));
    assert_eq!(get_asset_index(&o, &btc()), Some(1));
    assert_eq!(get_asset_index(&o, &Asset::Stellar("CCONTRACT".to_string())), Some(2));
    assert_eq!(get_asset_index(&o, &Asset::Stellar("XLM".to_string())), None);
    assert_eq!(get_asset_pair_indexes(&o, &xlm(), &btc()), Some((0, 1)));
    assert_eq!(get_asset_pair_indexes(&o, &xlm(), &Asset::Other("ETH".to_string())), None);
}

#[test]
fn assets_beyond_a_byte_of_positions_are_not_quoted() {
    let mut o = NormalOracle::new();
    o.assets = (0..300).map(|i| Asset::Other(format!("A{}", i))).collect();
    o.prices.set(0, 1_000, 5);
    assert_eq!(get_asset_index(&o, &Asset::Other("A255".to_string())), Some(255));
    assert_eq!(get_asset_index(&o, &Asset::Other("A256".to_string())), None);
    assert_eq!(get_price_data(&o, &Asset::Other("A256".to_string()), 1_000), None);
    assert_eq!(get_price_data(&o, &Asset::Other("A0".to_string()), 1_000), Some(PriceData { price: 5, timestamp: 1 }));
}

#[test]
fn price_lookups() {
    let o = oracle();
    assert_eq!(get_price_data(&o, &xlm(), 300_000), Some(PriceData { price: 100, timestamp: 300 }));
    assert_eq!(get_price_data(&o, &btc(), 0), None);
    assert_eq!(get_price_data_by_index(&o, 1, 600_000), Some(PriceData { price: 40, timestamp: 600 }));
    // the query is in seconds and the answer is stamped with the queried time
    assert_eq!(o.price(&xlm(), 600), Some(PriceData { price: 110, timestamp: 600 }));
    assert_eq!(o.price(&xlm(), 300), Some(PriceData { price: 100, timestamp: 300 }));
    assert_eq!(o.price(&xlm(), 450), None);
    assert_eq!(o.price(&Asset::Other("ETH".to_string()), 600), None);
    assert_eq!(o.price(&xlm(), u64::MAX), None);
}

#[test]
fn last_price_uses_the_newest_usable_round() {
    let o = oracle();
    assert_eq!(o.lastprice(700, &xlm()), Some(PriceData { price: 110, timestamp: 600 }));
    assert_eq!(o.lastprice(2_000, &xlm()), None);
}

#[test]
fn history_walks_back_one_spacing_at_a_time() {
    let o = oracle();
    assert_eq!(
        o.prices(700, &xlm(), 5),
        Some(vec![
            PriceData { price: 110, timestamp: 600 },
            PriceData { price: 100, timestamp: 300 },
            PriceData { price: 90, timestamp: 0 },
        ])
    );
    assert_eq!(o.prices(700, &xlm(), 2).map(|v| v.len()), Some(2));
    assert_eq!(
        o.prices(700, &btc(), 5),
        Some(vec![PriceData { price: 40, timestamp: 600 }, PriceData { price: 0, timestamp: 300 }])
    );
    assert_eq!(o.prices(700, &xlm(), 0), None);
    assert_eq!(o.prices(2_000, &xlm(), 5), None);
    assert_eq!(o.prices(700, &Asset::Other("ETH".to_string()), 5), None);
}

#[test]
fn history_is_capped_at_twenty_records() {
    let mut o = NormalOracle::new();
    o.assets = vec![xlm()];
    o.resolution = Some(1_000);
    o.last_timestamp = 100_000;
    let mut t = 0u64;
    while t <= 100_000 {
        o.prices.set(0, t, t as i128);
        t += 1_000;
    }
    let history = o.prices(100, &xlm(), 50).unwrap();
    assert_eq!(history.len(), 20);
    assert_eq!(history[0], PriceData { price: 100_000, timestamp: 100 });
    assert_eq!(history[19], PriceData { price: 81_000, timestamp: 81 });
}

#[test]
fn history_through_a_lookup_function() {
    let o = oracle();
    let visited = prices(&o, 700, |t| Some(PriceData { price: t as i128, timestamp: t }), 20).unwrap();
    assert_eq!(visited.iter().map(|p| p.timestamp).collect::<Vec<_>>(), vec![600_000, 300_000, 0]);
    assert_eq!(prices(&o, 700, |_| None, 20), None);
}

#[test]
fn average_of_a_full_recent_history() {
    let o = oracle();
    let lookup = |t: u64| get_price_data_by_index(&o, 0, t);
    assert_eq!(get_twap(&o, 700, lookup, 3), Some(100));
    assert_eq!(get_twap(&o, 700, lookup, 2), Some(105));
    // fewer prices than asked for
    assert_eq!(get_twap(&o, 700, lookup, 4), None);
    // a missing price makes the history short
    let btc_lookup = |t: u64| get_price_data_by_index(&o, 1, t);
    assert_eq!(get_twap(&o, 700, btc_lookup, 3), None);
    // no usable round
    assert_eq!(get_twap(&o, 2_000, lookup, 3), None);
}

#[test]
fn average_refuses_an_old_newest_price() {
    let o = oracle();
    // the newest price carries a timestamp in seconds; it is too old once one spacing and a
    // minute have passed since it
    let stale = |_t: u64| Some(PriceData { price: 10, timestamp: 200 });
    assert_eq!(get_twap(&o, 700, stale, 3), None);
    let recent = |_t: u64| Some(PriceData { price: 10, timestamp: 340 });
    assert_eq!(get_twap(&o, 700, recent, 3), Some(10));
    let negative = |t: u64| Some(PriceData { price: if t == 0 { -7 } else { -1 }, timestamp: 600 });
    assert_eq!(get_twap(&o, 700, negative, 3), Some(-3));
}

#[test]
fn cross_prices() {
    let o = oracle();
    assert_eq!(
        get_x_price_by_indexes(&o, (0, 0), 600_000, 7),
        Some(PriceData { price: 10_000_000, timestamp: 600 })
    );
    assert_eq!(
        get_x_price_by_indexes(&o, (0, 1), 600_000, 7),
        Some(PriceData { price: 27_500_000, timestamp: 600 })
    );
    assert_eq!(get_x_price_by_indexes(&o, (1, 0), 600_000, 2), Some(PriceData { price: 36, timestamp: 600 }));
    assert_eq!(get_x_price_by_indexes(&o, (0, 1), 0, 7), None);
    assert_eq!(get_x_price_by_indexes(&o, (1, 0), 0, 7), None);
    assert_eq!(get_x_price(&o, &btc(), &xlm(), 600_000, 2), Some(PriceData { price: 36, timestamp: 600 }));
    assert_eq!(get_x_price(&o, &btc(), &Asset::Other("ETH".to_string()), 600_000, 2), None);
}

#[test]
fn history_starts_with_the_last_price() {
    let o = oracle();
    for records in 1..5 {
        let history = o.prices(700, &xlm(), records).unwrap();
        assert_eq!(Some(history[0]), o.lastprice(700, &xlm()));
        let history = o.prices(700, &btc(), records).unwrap();
        assert_eq!(Some(history[0]), o.lastprice(700, &btc()));
    }
    // no usable round, or no record in it: both are empty
    assert_eq!(o.prices(2_000, &xlm(), 1), None);
    assert_eq!(o.lastprice(2_000, &xlm()), None);
    let mut gap = oracle();
    gap.last_timestamp = 900_000;
    assert_eq!(gap.prices(1_000, &xlm(), 1), None);
    assert_eq!(gap.lastprice(1_000, &xlm()), None);
}

#[test]
fn average_lies_within_the_price_range() {
    let o = oracle();
    let lookup = |t: u64| get_price_data_by_index(&o, 0, t);
    for records in 1..4 {
        let average = get_twap(&o, 700, lookup, records).unwrap();
        assert!((90..=110).contains(&average));
    }
}
