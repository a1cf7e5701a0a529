use migration_core::timestamp::Timestamp;

#[test]
fn timestamp_prints_as_chrono_does() {
    let t = Timestamp::from_unix(1431648000, 0).unwrap();
    assert_eq!(t.to_text(), "2015-05-15 00:00:00 UTC");
    assert_eq!(t.seconds(), 1431648000);
    assert_eq!(t.nanos(), 0);
}

#[test]
fn timestamp_prints_fractions() {
    let t = Timestamp::from_unix(0, 500_000_000).unwrap();
    assert_eq!(t.to_text(), "1970-01-01 00:00:00.500 UTC");
    let before = Timestamp::from_unix(-1, 0).unwrap();
    assert_eq!(before.to_text(), "1969-12-31 23:59:59 UTC");
}

#[test]
fn timestamp_out_of_range_is_refused() {
    assert!(Timestamp::from_unix(i64::MAX, 0).is_none());
    assert!(Timestamp::from_unix(i64::MIN, 0).is_none());
    assert!(Timestamp::from_unix(0, 2_000_000_000).is_none());
}

#[test]
fn timestamp_compares_by_value() {
    let a = Timestamp::from_unix(10, 5).unwrap();
    let b = Timestamp::from_unix(10, 5).unwrap();
    let c = Timestamp::from_unix(10, 6).unwrap();
    assert_eq!(a, b);
    assert_ne!(a, c);
}
