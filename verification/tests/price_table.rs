use normal_oracle::price_table::PriceTable;

#[test]
fn reading_back_a_recorded_price() {
    let mut table = PriceTable::new();
    assert_eq!(table.get(0, 1000), None);
    table.set(0, 1000, 42);
    table.set(1, 1000, 7);
    assert_eq!(table.get(0, 1000), Some(42));
    assert_eq!(table.get(1, 1000), Some(7));
    assert_eq!(table.get(0, 2000), None);
    table.set(0, 1000, 43);
    assert_eq!(table.get(0, 1000), Some(43));
    assert_eq!(table.get(1, 1000), Some(7));
}
