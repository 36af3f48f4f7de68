use reqwest::header::{HeaderMap, HeaderValue};
use ustats::headers::header_text;
use ustats::usage::{
    check_response, parse_usage_headers, Timestamp, UsageData,
    MAX_TIMESTAMP, MIN_TIMESTAMP,
};

fn headers(pairs: &[(&'static str, &str)]) -> HeaderMap {
    let mut map = HeaderMap::new();
    for (name, value) in pairs {
        map.append(*name, HeaderValue::from_str(value).unwrap());
    }
    map
}

const NOW: Timestamp = Timestamp { secs: 1_700_000_000, nanos: 5 };

#[test]
fn reads_session_and_weekly_buckets() {
    let h = headers(&[
        ("anthropic-ratelimit-unified-5h-utilization", "0.42"),
        ("anthropic-ratelimit-unified-5h-reset", "1735689600"),
        ("anthropic-ratelimit-unified-7d-utilization", "85.5"),
        ("anthropic-ratelimit-unified-7d-reset", "1736000000"),
    ]);
    let d = parse_usage_headers(&h, NOW);
    let s = d.session.unwrap();
    assert_eq!(s.utilization, "0.42");
    assert_eq!(s.resets_at, 1735689600);
    let w = d.weekly_all.unwrap();
    assert_eq!(w.utilization, "85.5");
    assert_eq!(w.resets_at, 1736000000);
    assert!(d.weekly_sonnet.is_none());
    assert_eq!(d.last_updated, NOW);
}

#[test]
fn sonnet_prefers_hyphenated_window() {
    let h = headers(&[
        ("anthropic-ratelimit-unified-7d-sonnet-utilization", "0.1"),
        ("anthropic-ratelimit-unified-7d-sonnet-reset", "100"),
        ("anthropic-ratelimit-unified-7d_sonnet-utilization", "0.9"),
        ("anthropic-ratelimit-unified-7d_sonnet-reset", "200"),
    ]);
    let b = parse_usage_headers(&h, NOW).weekly_sonnet.unwrap();
    assert_eq!(b.utilization, "0.1");
    assert_eq!(b.resets_at, 100);
}

#[test]
fn sonnet_falls_back_to_underscore_window() {
    let h = headers(&[
        ("anthropic-ratelimit-unified-7d-sonnet-utilization", "abc"),
        ("anthropic-ratelimit-unified-7d-sonnet-reset", "100"),
        ("anthropic-ratelimit-unified-7d_sonnet-utilization", "0.9"),
        ("anthropic-ratelimit-unified-7d_sonnet-reset", "200"),
    ]);
    let b = parse_usage_headers(&h, NOW).weekly_sonnet.unwrap();
    assert_eq!(b.utilization, "0.9");
    assert_eq!(b.resets_at, 200);
}

#[test]
fn incomplete_buckets_are_absent() {
    let h = headers(&[
        ("anthropic-ratelimit-unified-5h-utilization", "0.42"),
        ("anthropic-ratelimit-unified-7d-reset", "1736000000"),
    ]);
    let d = parse_usage_headers(&h, NOW);
    assert!(d.session.is_none());
    assert!(d.weekly_all.is_none());
    let h = headers(&[
        ("anthropic-ratelimit-unified-5h-utilization", "0.42"),
        ("anthropic-ratelimit-unified-5h-reset", "soon"),
    ]);
    assert!(parse_usage_headers(&h, NOW).session.is_none());
}

#[test]
fn only_the_first_value_counts() {
    let h = headers(&[
        ("anthropic-ratelimit-unified-5h-utilization", "0.5"),
        ("anthropic-ratelimit-unified-5h-utilization", "0.7"),
        ("anthropic-ratelimit-unified-5h-reset", "10"),
    ]);
    assert_eq!(parse_usage_headers(&h, NOW).session.unwrap().utilization, "0.5");
}

#[test]
fn non_ascii_values_are_rejected() {
    let mut h = HeaderMap::new();
    h.insert("anthropic-ratelimit-unified-5h-utilization", HeaderValue::from_bytes(b"0.5\xe9").unwrap());
    h.insert("anthropic-ratelimit-unified-5h-reset", HeaderValue::from_static("10"));
    assert!(parse_usage_headers(&h, NOW).session.is_none());
    assert_eq!(header_text(&h, "anthropic-ratelimit-unified-5h-utilization"), None);
    assert_eq!(header_text(&h, "anthropic-ratelimit-unified-5h-reset"), Some(b"10".to_vec()));
    assert_eq!(header_text(&h, "missing"), None);
}

#[test]
fn reset_must_be_a_representable_time() {
    for secs in [MIN_TIMESTAMP - 1, MIN_TIMESTAMP, 0, MAX_TIMESTAMP, MAX_TIMESTAMP + 1, i64::MAX, i64::MIN] {
        let text = secs.to_string();
        let h = headers(&[
            ("anthropic-ratelimit-unified-5h-utilization", "1"),
            ("anthropic-ratelimit-unified-5h-reset", text.as_str()),
        ]);
        let bucket = parse_usage_headers(&h, NOW).session;
        let chrono_ok = chrono::DateTime::from_timestamp(secs, 0).is_some();
        assert_eq!(bucket.is_some(), chrono_ok, "{}", secs);
        assert_eq!(chrono_ok, MIN_TIMESTAMP <= secs && secs <= MAX_TIMESTAMP, "{}", secs);
    }
}

#[test]
fn timestamp_bounds_are_chronos() {
    assert_eq!(MIN_TIMESTAMP, chrono::DateTime::<chrono::Utc>::MIN_UTC.timestamp());
    assert_eq!(MAX_TIMESTAMP, chrono::DateTime::<chrono::Utc>::MAX_UTC.timestamp());
}

#[test]
fn usage_is_stamped_with_the_given_time() {
    let d = parse_usage_headers(&HeaderMap::new(), NOW);
    assert_eq!(d.last_updated, NOW);
    assert!(d.session.is_none() && d.weekly_all.is_none() && d.weekly_sonnet.is_none());
    let e = UsageData::empty(NOW);
    assert_eq!(e.last_updated, NOW);
    assert!(e.session.is_none() && e.weekly_all.is_none() && e.weekly_sonnet.is_none());
}

fn with_session() -> UsageData {
    let h = headers(&[
        ("anthropic-ratelimit-unified-5h-utilization", "0.2"),
        ("anthropic-ratelimit-unified-5h-reset", "10"),
    ]);
    parse_usage_headers(&h, NOW)
}

#[test]
fn failed_status_without_usage_is_an_error() {
    let r = check_response(UsageData::empty(NOW), 500);
    assert_eq!(r.unwrap_err(), "API returned status 500 Internal Server Error");
    let r = check_response(UsageData::empty(NOW), 401);
    assert_eq!(r.unwrap_err(), "API returned status 401 Unauthorized");
    let r = check_response(UsageData::empty(NOW), 599);
    assert_eq!(r.unwrap_err(), "API returned status 599 <unknown status code>");
}

#[test]
fn rate_limited_success_or_known_usage_is_data() {
    assert!(check_response(UsageData::empty(NOW), 429).is_ok());
    assert!(check_response(UsageData::empty(NOW), 200).is_ok());
    let d = check_response(with_session(), 503).unwrap();
    assert_eq!(d.session.unwrap().utilization, "0.2");
}
