use std::time::Duration;
use sup_resilience::schedule::{duration_from_nanos, splay, NANOS_PER_SEC};

#[test]
fn nanos_per_sec_is_a_billion() {
    assert_eq!(NANOS_PER_SEC, 1_000_000_000);
}

#[test]
fn duration_from_nanos_splits_seconds_and_rest() {
    assert_eq!(duration_from_nanos(0), Duration::new(0, 0));
    assert_eq!(duration_from_nanos(999_999_999), Duration::new(0, 999_999_999));
    assert_eq!(duration_from_nanos(1_000_000_000), Duration::new(1, 0));
    assert_eq!(duration_from_nanos(61_500_000_001), Duration::new(61, 500_000_001));
    assert_eq!(duration_from_nanos(61_500_000_001).as_nanos(), 61_500_000_001);
}

#[test]
fn duration_from_nanos_reaches_the_longest_duration() {
    let longest = Duration::new(u64::MAX, 999_999_999);
    assert_eq!(duration_from_nanos(longest.as_nanos()), longest);
}

#[test]
fn splay_lies_below_the_period() {
    let period = Duration::new(3, 7);
    for _ in 0..500 {
        let delay = splay(&period).unwrap();
        assert!(delay < period);
    }
}

#[test]
fn splay_of_one_nanosecond_is_zero() {
    assert_eq!(splay(&Duration::from_nanos(1)), Some(Duration::from_nanos(0)));
}

#[test]
fn splay_of_an_empty_period_is_none() {
    assert_eq!(splay(&Duration::new(0, 0)), None);
}

#[test]
fn splay_varies() {
    let period = Duration::from_secs(1_000_000);
    let first = splay(&period).unwrap();
    let mut differs = false;
    for _ in 0..50 {
        if splay(&period).unwrap() != first {
            differs = true;
        }
    }
    assert!(differs);
}

#[test]
fn splay_of_the_longest_period_stays_below_it() {
    let period = Duration::new(u64::MAX, 999_999_999);
    let delay = splay(&period).unwrap();
    assert!(delay < period);
}
