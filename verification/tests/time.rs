use caching_client::{CacheDuration, Timestamp};

fn at(secs: i64, nanos: u32) -> Timestamp {
    Timestamp { secs, nanos }
}

fn span(secs: u64, nanos: u32) -> CacheDuration {
    CacheDuration { secs, nanos }
}

#[test]
fn later_second_is_after() {
    assert!(at(11, 0).is_after(&at(10, 999_999_999)));
    assert!(!at(10, 999_999_999).is_after(&at(11, 0)));
}

#[test]
fn later_nanosecond_is_after() {
    assert!(at(10, 2).is_after(&at(10, 1)));
    assert!(!at(10, 1).is_after(&at(10, 2)));
}

#[test]
fn an_instant_is_not_after_itself() {
    assert!(!at(10, 5).is_after(&at(10, 5)));
    assert!(!at(-3, 0).is_after(&at(-3, 0)));
}

#[test]
fn instants_before_the_epoch_are_ordered() {
    assert!(at(-1, 0).is_after(&at(-2, 999_999_999)));
    assert!(at(0, 0).is_after(&at(-1, 999_999_999)));
    assert!(!at(i64::MIN, 0).is_after(&at(i64::MAX, 0)));
    assert!(at(i64::MAX, 0).is_after(&at(i64::MIN, u32::MAX)));
}

#[test]
fn nanoseconds_beyond_one_second_count_in_full() {
    // 0 s + 1.5 s is later than 1 s + 0.4 s, and the same instant as 1 s + 0.5 s.
    assert!(at(0, 1_500_000_000).is_after(&at(1, 400_000_000)));
    assert!(!at(0, 1_500_000_000).is_after(&at(1, 500_000_000)));
    assert!(!at(1, 500_000_000).is_after(&at(0, 1_500_000_000)));
}

#[test]
fn adding_a_duration_gives_the_exact_sum() {
    assert_eq!(at(10, 0).saturating_add(&span(1, 0)), at(11, 0));
    assert_eq!(at(1_700_000_000, 250).saturating_add(&span(3600, 750)), at(1_700_003_600, 1_000));
    assert_eq!(at(5, 7).saturating_add(&span(0, 0)), at(5, 7));
}

#[test]
fn adding_carries_nanoseconds_into_seconds() {
    assert_eq!(at(10, 900_000_000).saturating_add(&span(1, 200_000_000)), at(12, 100_000_000));
    assert_eq!(at(0, 999_999_999).saturating_add(&span(0, 1)), at(1, 0));
}

#[test]
fn adding_to_an_instant_before_the_epoch() {
    assert_eq!(at(-1, 0).saturating_add(&span(0, 500_000_000)), at(-1, 500_000_000));
    assert_eq!(at(-10, 1).saturating_add(&span(10, 0)), at(0, 1));
}

#[test]
fn adding_normalises_the_result() {
    assert_eq!(at(0, 3_000_000_001).saturating_add(&span(0, 0)), at(3, 1));
    assert_eq!(at(1, 1_999_999_999).saturating_add(&span(2, 1)), at(5, 0));
}

#[test]
fn adding_stops_at_the_latest_instant() {
    let latest = at(i64::MAX, 999_999_999);
    assert_eq!(at(i64::MAX, 0).saturating_add(&span(1, 0)), latest);
    assert_eq!(at(i64::MAX, 999_999_999).saturating_add(&span(0, 0)), latest);
    assert_eq!(at(i64::MAX, 999_999_998).saturating_add(&span(0, 1)), latest);
    assert_eq!(at(0, 0).saturating_add(&span(u64::MAX, 0)), latest);
    assert_eq!(at(i64::MAX, u32::MAX).saturating_add(&span(u64::MAX, u32::MAX)), latest);
}

#[test]
fn adding_just_below_the_latest_instant_is_exact() {
    assert_eq!(
        at(i64::MAX - 1, 999_999_999).saturating_add(&span(0, 999_999_999)),
        at(i64::MAX, 999_999_998)
    );
    assert_eq!(
        at(0, 0).saturating_add(&span(i64::MAX as u64, 5)),
        at(i64::MAX, 5)
    );
}

#[test]
fn ordinary_durations_are_accepted() {
    assert_eq!(span(0, 0).checked(), Some(span(0, 0)));
    assert_eq!(span(1, 0).checked(), Some(span(1, 0)));
    assert_eq!(span(86_400, 999_999_999).checked(), Some(span(86_400, 999_999_999)));
}

#[test]
fn a_nanosecond_part_of_one_second_is_malformed() {
    assert_eq!(span(0, 1_000_000_000).checked(), None);
    assert_eq!(span(5, u32::MAX).checked(), None);
}

#[test]
fn the_longest_duration_is_i64_max_milliseconds() {
    // i64::MAX ms = 9_223_372_036_854_775 s + 807 ms.
    let secs: u64 = 9_223_372_036_854_775;
    assert_eq!(span(secs, 807_000_000).checked(), Some(span(secs, 807_000_000)));
    assert_eq!(span(secs, 0).checked(), Some(span(secs, 0)));
    assert_eq!(span(secs - 1, 999_999_999).checked(), Some(span(secs - 1, 999_999_999)));
    assert_eq!(span(secs, 807_000_001).checked(), None);
    assert_eq!(span(secs, 999_999_999).checked(), None);
    assert_eq!(span(secs + 1, 0).checked(), None);
    assert_eq!(span(u64::MAX, 0).checked(), None);
}
