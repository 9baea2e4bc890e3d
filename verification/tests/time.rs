use rawrcore::time::{ClockReading, Timestamp};

#[test]
fn timestamp_rejects_whole_second_of_nanos() {
    assert!(Timestamp::new(5, 1_000_000_000).is_none());
    assert!(Timestamp::new(5, 999_999_999).is_some());
}

#[test]
fn timestamp_keeps_its_parts() {
    let t = Timestamp::new(-3, 250).unwrap();
    assert_eq!(t.timestamp(), -3);
    assert_eq!(t.timestamp_subsec_nanos(), 250);
    let whole = Timestamp::from_seconds(77);
    assert_eq!(whole.timestamp(), 77);
    assert_eq!(whole.timestamp_subsec_nanos(), 0);
}

#[test]
fn timestamp_order_is_strict_and_looks_at_nanos() {
    let a = Timestamp::new(10, 5).unwrap();
    let b = Timestamp::new(10, 6).unwrap();
    let c = Timestamp::new(11, 0).unwrap();
    assert!(a.before(&b));
    assert!(b.before(&c));
    assert!(a.before(&c));
    assert!(!b.before(&a));
    assert!(!a.before(&a));
    let negative = Timestamp::new(-1, 999_999_999).unwrap();
    assert!(negative.before(&Timestamp::from_seconds(0)));
}

#[test]
fn timestamp_earlier_picks_the_first_in_time() {
    let a = Timestamp::new(10, 5).unwrap();
    let b = Timestamp::new(10, 6).unwrap();
    assert_eq!(a.earlier(b), a);
    assert_eq!(b.earlier(a), a);
    assert_eq!(a.earlier(a), a);
}

#[test]
fn timestamp_moves_by_whole_seconds() {
    let t = Timestamp::new(100, 42).unwrap();
    assert_eq!(t.checked_add_seconds(3590), Timestamp::new(3690, 42));
    assert_eq!(t.checked_add_seconds(-101), Timestamp::new(-1, 42));
    assert_eq!(t.checked_add_seconds(0), Some(t));
}

#[test]
fn timestamp_move_out_of_range_is_refused() {
    let t = Timestamp::from_seconds(i64::MAX - 1);
    assert_eq!(t.checked_add_seconds(1), Some(Timestamp::from_seconds(i64::MAX)));
    assert_eq!(t.checked_add_seconds(2), None);
    let low = Timestamp::from_seconds(i64::MIN);
    assert_eq!(low.checked_add_seconds(-1), None);
    assert_eq!(low.checked_add_seconds(0), Some(low));
}

#[test]
fn clock_reading_lies_in_1970_or_later_and_below_the_limit() {
    assert!(Timestamp::from_seconds(0).reads_as_clock());
    assert!(Timestamp::from_seconds(0xffff_ffff_ffff).reads_as_clock());
    assert!(!Timestamp::from_seconds(0x1_0000_0000_0000).reads_as_clock());
    assert!(!Timestamp::new(-1, 999_999_999).unwrap().reads_as_clock());
    let at = Timestamp::new(1_700_000_000, 5).unwrap();
    assert_eq!(ClockReading::new(at).unwrap().timestamp(), at);
    assert!(ClockReading::new(Timestamp::from_seconds(-1)).is_none());
    assert!(ClockReading::new(Timestamp::from_seconds(i64::MAX)).is_none());
}

#[test]
fn clock_reading_now_agrees_with_the_clock() {
    let before = chrono::Utc::now().timestamp();
    let reading = ClockReading::now().timestamp();
    let after = chrono::Utc::now().timestamp();
    assert!(before <= reading.timestamp() && reading.timestamp() <= after);
    assert!(reading.reads_as_clock());
    assert_eq!(rawrcore::time::CLOCK_LIMIT_SECONDS, 1 << 48);
}
