use paseto_auth::clock::{is_stale, Timestamp, NANOS_PER_SEC, VALIDITY_SECS};
use paseto_auth::text::push_decimal;

#[test]
fn validity_window_is_twelve_hours() {
    assert_eq!(VALIDITY_SECS, 12 * 60 * 60);
    assert_eq!(NANOS_PER_SEC, 1_000_000_000);
}

#[test]
fn timestamp_new_keeps_its_parts() {
    let at = Timestamp::new(-5, 17);
    assert_eq!(at.secs, -5);
    assert_eq!(at.nanos, 17);
    assert_eq!(at, Timestamp { secs: -5, nanos: 17 });
}

#[test]
fn now_is_after_this_was_written() {
    let now = Timestamp::now();
    assert!(now.secs > 1_700_000_000);
    assert!(now.nanos < 2_000_000_000);
}

#[test]
fn rfc3339_text_is_read_as_an_instant() {
    assert_eq!(Timestamp::from_rfc3339("1970-01-01T00:00:00Z"), Some(Timestamp::new(0, 0)));
    assert_eq!(
        Timestamp::from_rfc3339("2023-11-14T22:13:20+00:00"),
        Some(Timestamp::new(1_700_000_000, 0))
    );
    assert_eq!(
        Timestamp::from_rfc3339("2023-11-15T00:13:20.25+02:00"),
        Some(Timestamp::new(1_700_000_000, 250_000_000))
    );
    assert_eq!(Timestamp::from_rfc3339("1969-12-31T23:59:59Z"), Some(Timestamp::new(-1, 0)));
    assert_eq!(Timestamp::from_rfc3339("yesterday"), None);
    assert_eq!(Timestamp::from_rfc3339(""), None);
    assert_eq!(Timestamp::from_rfc3339("2023-13-01T00:00:00Z"), None);
}

#[test]
fn instant_is_written_as_rfc3339_text() {
    assert_eq!(Timestamp::new(0, 0).to_rfc3339(), Some("1970-01-01T00:00:00+00:00".to_string()));
    assert_eq!(
        Timestamp::new(1_700_000_000, 0).to_rfc3339(),
        Some("2023-11-14T22:13:20+00:00".to_string())
    );
    assert_eq!(
        Timestamp::new(1_700_000_000, 123_456_789).to_rfc3339(),
        Some("2023-11-14T22:13:20.123456789+00:00".to_string())
    );
    assert_eq!(Timestamp::new(i64::MAX, 0).to_rfc3339(), None);
    assert_eq!(Timestamp::new(0, 2_000_000_000).to_rfc3339(), None);
}

#[test]
fn written_instant_is_read_back() {
    for at in [Timestamp::new(0, 0), Timestamp::new(1_700_000_000, 1), Timestamp::new(-86_400, 999_999_999)] {
        let text = at.to_rfc3339().unwrap();
        assert_eq!(Timestamp::from_rfc3339(&text), Some(at));
    }
}

#[test]
fn window_ends_twelve_hours_later() {
    assert_eq!(Timestamp::new(0, 5).end_of_window(), Some(Timestamp::new(43_200, 5)));
    assert_eq!(Timestamp::new(-43_200, 0).end_of_window(), Some(Timestamp::new(0, 0)));
    assert_eq!(
        Timestamp::new(i64::MAX - 43_200, 9).end_of_window(),
        Some(Timestamp::new(i64::MAX, 9))
    );
    assert_eq!(Timestamp::new(i64::MAX - 43_199, 0).end_of_window(), None);
    assert_eq!(Timestamp::new(i64::MAX, 0).end_of_window(), None);
    assert_eq!(Timestamp::new(i64::MIN, 0).end_of_window(), Some(Timestamp::new(i64::MIN + 43_200, 0)));
}

#[test]
fn expiry_stamp_is_the_text_of_the_window_end() {
    assert_eq!(
        Timestamp::new(1_700_000_000, 0).expiry_stamp(),
        Some("2023-11-15T10:13:20+00:00".to_string())
    );
    assert_eq!(
        Timestamp::new(1_700_000_000, 500_000_000).expiry_stamp(),
        Some("2023-11-15T10:13:20.500+00:00".to_string())
    );
    assert_eq!(Timestamp::new(i64::MAX, 0).expiry_stamp(), None);
    assert_eq!(Timestamp::new(1 << 50, 0).expiry_stamp(), None);
}

#[test]
fn past_window_is_strictly_more_than_twelve_hours() {
    let then = Timestamp::new(100, 500);
    assert!(!Timestamp::new(100, 500).is_past_window_of(then));
    assert!(!Timestamp::new(0, 0).is_past_window_of(then));
    assert!(!Timestamp::new(43_300, 499).is_past_window_of(then));
    assert!(!Timestamp::new(43_300, 500).is_past_window_of(then));
    assert!(Timestamp::new(43_300, 501).is_past_window_of(then));
    assert!(Timestamp::new(43_301, 0).is_past_window_of(then));
    assert!(!Timestamp::new(43_299, 999_999_999).is_past_window_of(then));
}

#[test]
fn past_window_at_the_ends_of_the_range() {
    let first = Timestamp::new(i64::MIN, 0);
    let last = Timestamp::new(i64::MAX, u32::MAX);
    assert!(last.is_past_window_of(first));
    assert!(!first.is_past_window_of(last));
    assert!(!last.is_past_window_of(last));
}

#[test]
fn stale_stamp_is_told_from_a_fresh_one() {
    let now = Timestamp::new(1_700_000_000 + 43_200, 0);
    assert!(!is_stale("2023-11-14T22:13:20Z", now));
    assert!(is_stale("2023-11-14T22:13:19.999999999Z", now));
    assert!(!is_stale("2023-11-14T22:13:20.000000001Z", now));
    assert!(!is_stale("2999-01-01T00:00:00Z", now));
    assert!(!is_stale("not a stamp", now));
}

#[test]
fn decimal_is_appended_to_what_is_there() {
    let mut out = String::from("n=");
    push_decimal(&mut out, 0);
    assert_eq!(out, "n=0");
    push_decimal(&mut out, 1203);
    assert_eq!(out, "n=01203");
    push_decimal(&mut out, u64::MAX);
    assert_eq!(out, "n=0120318446744073709551615");
}
