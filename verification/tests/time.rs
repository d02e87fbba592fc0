use notion::time::Timestamp;

#[test]
fn parse_reads_an_instant() {
    assert_eq!(
        Timestamp::parse("2015-05-15T00:00:00Z"),
        Some(Timestamp { seconds: 1431648000, nanos: 0 })
    );
    assert_eq!(
        Timestamp::parse("1970-01-01T00:00:01.500Z"),
        Some(Timestamp { seconds: 1, nanos: 500_000_000 })
    );
}

#[test]
fn parse_brings_an_offset_to_utc() {
    assert_eq!(
        Timestamp::parse("2025-11-07T00:00:00+09:00"),
        Timestamp::parse("2025-11-06T15:00:00Z")
    );
    assert_eq!(
        Timestamp::parse("2025-11-07T00:00:00+09:00"),
        Some(Timestamp { seconds: 1762441200, nanos: 0 })
    );
}

#[test]
fn parse_refuses_what_is_no_instant() {
    assert_eq!(Timestamp::parse(""), None);
    assert_eq!(Timestamp::parse("2025-11-07"), None);
    assert_eq!(Timestamp::parse("yesterday"), None);
    assert_eq!(Timestamp::parse("2025-13-01T00:00:00Z"), None);
}

#[test]
fn is_before_orders_by_seconds_then_nanos() {
    let a = Timestamp { seconds: 1, nanos: 5 };
    let b = Timestamp { seconds: 1, nanos: 6 };
    let c = Timestamp { seconds: 2, nanos: 0 };
    let d = Timestamp { seconds: -3, nanos: 999 };
    assert!(a.is_before(&b));
    assert!(b.is_before(&c));
    assert!(d.is_before(&a));
    assert!(!a.is_before(&a));
    assert!(!c.is_before(&a));
}
