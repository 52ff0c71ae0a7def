use random_generator::table::FrequencyTable;

#[test]
fn fresh_table_reports_zero_for_everything() {
    let table = FrequencyTable::new();
    assert_eq!(table.lookup(0), 0);
    assert_eq!(table.lookup(7), 0);
    assert_eq!(table.lookup(u64::MAX), 0);
}

#[test]
fn forced_sequence_three_three_seven() {
    let mut table = FrequencyTable::new();
    for v in [3u64, 3, 7] {
        table.record(v);
    }
    assert_eq!(table.lookup(3), 2);
    assert_eq!(table.lookup(7), 1);
    assert_eq!(table.lookup(0), 0);
}

#[test]
fn counts_follow_each_record() {
    let mut table = FrequencyTable::new();
    for expected in 1..=100u64 {
        table.record(42);
        assert_eq!(table.lookup(42), expected);
    }
    assert_eq!(table.lookup(41), 0);
}
