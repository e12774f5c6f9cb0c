use srscheck::time::{Timestamp, MAX_INSTANT_SECS, MIN_INSTANT_SECS};

#[test]
fn order_of_instants() {
    let a = Timestamp { secs: 5, nanos: 10 };
    let b = Timestamp { secs: 5, nanos: 11 };
    let c = Timestamp { secs: 6, nanos: 0 };
    assert!(a.is_before(&b));
    assert!(b.is_before(&c));
    assert!(a.is_before(&c));
    assert!(!a.is_before(&a));
    assert!(c.is_after(&a));
    assert!(!a.is_after(&a));
}

#[test]
fn calendar_limits_match_chrono() {
    assert_eq!(chrono::DateTime::<chrono::Utc>::MIN_UTC.timestamp(), MIN_INSTANT_SECS);
    assert_eq!(chrono::DateTime::<chrono::Utc>::MAX_UTC.timestamp(), MAX_INSTANT_SECS);
}
