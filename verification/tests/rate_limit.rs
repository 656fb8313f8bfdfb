use chrono::Utc;
use http::header::{HeaderMap, HeaderName, HeaderValue};
use retry_policy::clock::{Delay, UtcInstant, MAX_TIMESTAMP, MIN_TIMESTAMP};
use retry_policy::rate_limit::{
    RateLimitInfo, LIMIT_HEADER, REMAINING_HEADER, RESET_HEADER, USED_HEADER,
};

fn create_test_headers(limit: u32, remaining: u32, reset: i64, used: u32) -> HeaderMap {
    let mut headers = HeaderMap::new();
    headers.insert("x-ratelimit-limit", HeaderValue::from(limit));
    headers.insert("x-ratelimit-remaining", HeaderValue::from(remaining));
    headers.insert("x-ratelimit-reset", HeaderValue::from(reset));
    headers.insert("x-ratelimit-used", HeaderValue::from(used));
    headers
}

fn text_headers(fields: &[(&str, &str)]) -> HeaderMap {
    let mut headers = HeaderMap::new();
    for (name, value) in fields {
        headers.append(
            HeaderName::from_bytes(name.as_bytes()).unwrap(),
            HeaderValue::from_str(value).unwrap(),
        );
    }
    headers
}

fn instant(secs: i64, nanos: u32) -> UtcInstant {
    UtcInstant::new(secs, nanos).unwrap()
}

fn info(remaining: u32, reset_time: UtcInstant) -> RateLimitInfo {
    RateLimitInfo { limit: 100, remaining, reset_time, used: 100 - remaining }
}

#[test]
fn test_rate_limit_parsing() {
    let headers = create_test_headers(5000, 4000, Utc::now().timestamp() + 3600, 1000);
    let info = RateLimitInfo::from_headers(&headers).unwrap();

    assert_eq!(info.limit, 5000);
    assert_eq!(info.remaining, 4000);
    assert_eq!(info.used, 1000);
    assert!(info.time_until_reset() > Delay::zero());
}

#[test]
fn test_near_limit_threshold() {
    let headers = create_test_headers(100, 5, Utc::now().timestamp() + 3600, 95);
    let info = RateLimitInfo::from_headers(&headers).unwrap();

    assert!(info.is_near_limit(1, 10)); // 5% remaining < 10% threshold
    assert!(!info.is_near_limit(1, 100)); // 5% remaining > 1% threshold
}

#[test]
fn header_names_are_the_rate_limit_names() {
    assert_eq!(LIMIT_HEADER, "x-ratelimit-limit");
    assert_eq!(REMAINING_HEADER, "x-ratelimit-remaining");
    assert_eq!(RESET_HEADER, "x-ratelimit-reset");
    assert_eq!(USED_HEADER, "x-ratelimit-used");
}

#[test]
fn reading_gives_every_field() {
    let headers = create_test_headers(5000, 4000, 1_700_000_000, 1000);
    let now = instant(1_600_000_000, 42);
    let expected = RateLimitInfo {
        limit: 5000,
        remaining: 4000,
        reset_time: instant(1_700_000_000, 0),
        used: 1000,
    };
    assert_eq!(RateLimitInfo::from_headers_at(&headers, now), Some(expected));
    assert_eq!(RateLimitInfo::from_headers(&headers), Some(expected));
    assert_eq!(expected.reset_time(), instant(1_700_000_000, 0));
    assert_eq!(expected.reset_time().timestamp(), 1_700_000_000);
}

#[test]
fn reading_needs_the_three_required_fields() {
    let now = instant(0, 0);
    let all = [
        ("x-ratelimit-limit", "100"),
        ("x-ratelimit-remaining", "7"),
        ("x-ratelimit-reset", "1700000000"),
        ("x-ratelimit-used", "93"),
    ];
    assert!(RateLimitInfo::from_headers_at(&text_headers(&all), now).is_some());
    for missing in 0..3 {
        let mut fields = all.to_vec();
        fields.remove(missing);
        let headers = text_headers(&fields);
        assert_eq!(RateLimitInfo::from_headers_at(&headers, now), None);
        assert_eq!(RateLimitInfo::from_headers(&headers), None);
    }
    assert_eq!(RateLimitInfo::from_headers(&HeaderMap::new()), None);
}

#[test]
fn reading_refuses_a_required_field_that_is_no_number() {
    let now = instant(0, 0);
    for bad in ["", "abc", "-1", "1.5", "4294967296", " 100", "100 ", "1e2"] {
        let headers = text_headers(&[
            ("x-ratelimit-limit", bad),
            ("x-ratelimit-remaining", "7"),
            ("x-ratelimit-reset", "1700000000"),
        ]);
        assert_eq!(RateLimitInfo::from_headers_at(&headers, now), None, "{:?}", bad);
        let headers = text_headers(&[
            ("x-ratelimit-limit", "100"),
            ("x-ratelimit-remaining", bad),
            ("x-ratelimit-reset", "1700000000"),
        ]);
        assert_eq!(RateLimitInfo::from_headers_at(&headers, now), None, "{:?}", bad);
    }
    for bad in ["", "soon", "1.5", "9223372036854775808", "-9223372036854775809", "17 "] {
        let headers = text_headers(&[
            ("x-ratelimit-limit", "100"),
            ("x-ratelimit-remaining", "7"),
            ("x-ratelimit-reset", bad),
        ]);
        assert_eq!(RateLimitInfo::from_headers_at(&headers, now), None, "{:?}", bad);
    }
}

#[test]
fn reading_refuses_a_value_that_is_no_text() {
    let now = instant(0, 0);
    let mut headers = create_test_headers(100, 7, 1_700_000_000, 93);
    headers.insert("x-ratelimit-limit", HeaderValue::from_bytes(&[0x31, 0x30, 0xff]).unwrap());
    assert_eq!(RateLimitInfo::from_headers_at(&headers, now), None);
    let mut headers = create_test_headers(100, 7, 1_700_000_000, 93);
    headers.insert("x-ratelimit-reset", HeaderValue::from_bytes(&[0x31, 0x09]).unwrap());
    assert_eq!(RateLimitInfo::from_headers_at(&headers, now), None);
}

#[test]
fn reading_takes_signs_as_the_numbers_allow() {
    let now = instant(0, 0);
    let headers = text_headers(&[
        ("x-ratelimit-limit", "+100"),
        ("x-ratelimit-remaining", "007"),
        ("x-ratelimit-reset", "-86400"),
        ("x-ratelimit-used", "+93"),
    ]);
    let expected =
        RateLimitInfo { limit: 100, remaining: 7, reset_time: instant(-86_400, 0), used: 93 };
    assert_eq!(RateLimitInfo::from_headers_at(&headers, now), Some(expected));
}

#[test]
fn requests_made_default_to_none() {
    let now = instant(0, 0);
    let headers = text_headers(&[
        ("x-ratelimit-limit", "100"),
        ("x-ratelimit-remaining", "7"),
        ("x-ratelimit-reset", "1700000000"),
    ]);
    assert_eq!(RateLimitInfo::from_headers_at(&headers, now).unwrap().used, 0);
    for bad in ["", "many", "-3", "4294967296"] {
        let headers = text_headers(&[
            ("x-ratelimit-limit", "100"),
            ("x-ratelimit-remaining", "7"),
            ("x-ratelimit-reset", "1700000000"),
            ("x-ratelimit-used", bad),
        ]);
        let info = RateLimitInfo::from_headers_at(&headers, now).unwrap();
        assert_eq!(info.used, 0, "{:?}", bad);
        assert_eq!(info.limit, 100);
        assert_eq!(info.remaining, 7);
    }
}

#[test]
fn header_names_match_in_any_case() {
    let now = instant(0, 0);
    let headers = text_headers(&[
        ("X-RateLimit-Limit", "60"),
        ("X-RATELIMIT-REMAINING", "59"),
        ("x-RateLimit-reset", "1700000000"),
        ("X-Ratelimit-Used", "1"),
    ]);
    let expected =
        RateLimitInfo { limit: 60, remaining: 59, reset_time: instant(1_700_000_000, 0), used: 1 };
    assert_eq!(RateLimitInfo::from_headers_at(&headers, now), Some(expected));
}

#[test]
fn first_of_several_values_counts() {
    let now = instant(0, 0);
    let headers = text_headers(&[
        ("x-ratelimit-limit", "60"),
        ("x-ratelimit-remaining", "59"),
        ("x-ratelimit-reset", "1700000000"),
        ("x-ratelimit-limit", "61"),
        ("x-ratelimit-remaining", "none"),
        ("x-ratelimit-reset", "1800000000"),
    ]);
    let expected =
        RateLimitInfo { limit: 60, remaining: 59, reset_time: instant(1_700_000_000, 0), used: 0 };
    assert_eq!(RateLimitInfo::from_headers_at(&headers, now), Some(expected));
    let headers = text_headers(&[
        ("x-ratelimit-limit", "sixty"),
        ("x-ratelimit-limit", "60"),
        ("x-ratelimit-remaining", "59"),
        ("x-ratelimit-reset", "1700000000"),
    ]);
    assert_eq!(RateLimitInfo::from_headers_at(&headers, now), None);
}

#[test]
fn unrelated_headers_change_nothing() {
    let now = instant(0, 0);
    let mut headers = create_test_headers(60, 59, 1_700_000_000, 1);
    let expected = RateLimitInfo::from_headers_at(&headers, now);
    headers.insert("content-type", HeaderValue::from_static("application/json"));
    headers.insert("x-ratelimit-resource", HeaderValue::from_static("core"));
    headers.insert("x-ratelimit-limit-extra", HeaderValue::from_static("1"));
    assert_eq!(RateLimitInfo::from_headers_at(&headers, now), expected);
    assert!(expected.is_some());
}

#[test]
fn reset_second_is_taken_within_the_range_of_instants() {
    let now = instant(1_600_000_000, 5);
    for secs in [MIN_TIMESTAMP, -1, 0, 1, MAX_TIMESTAMP] {
        let headers = create_test_headers(60, 0, secs, 60);
        let info = RateLimitInfo::from_headers_at(&headers, now).unwrap();
        assert_eq!(info.reset_time, instant(secs, 0));
        assert_eq!(info.reset_time.timestamp(), secs);
        assert_eq!(info.reset_time.subsec_nanos(), 0);
        let info = RateLimitInfo::from_headers(&headers).unwrap();
        assert_eq!(info.reset_time, instant(secs, 0));
    }
}

#[test]
fn reset_second_out_of_range_counts_as_now() {
    let now = instant(1_600_000_000, 5);
    for secs in [i64::MIN, MIN_TIMESTAMP - 1, MAX_TIMESTAMP + 1, i64::MAX] {
        let headers = create_test_headers(60, 0, secs, 60);
        let info = RateLimitInfo::from_headers_at(&headers, now).unwrap();
        assert_eq!(info.reset_time, now);
        assert_eq!(info.limit, 60);
        assert_eq!(info.remaining, 0);
        assert_eq!(info.used, 60);
        assert!(!info.is_rate_limited_at(now));
        assert_eq!(info.time_until_reset_at(now), Delay::zero());

        let before = Utc::now().timestamp();
        let info = RateLimitInfo::from_headers(&headers).unwrap();
        let after = Utc::now().timestamp();
        assert!(before <= info.reset_time.timestamp());
        assert!(info.reset_time.timestamp() <= after);
    }
}

#[test]
fn wait_until_reset_is_exact() {
    let state = info(0, instant(1_700_000_010, 0));
    assert_eq!(
        state.time_until_reset_at(instant(1_700_000_000, 0)),
        Delay { secs: 10, nanos: 0 }
    );
    assert_eq!(
        state.time_until_reset_at(instant(1_700_000_009, 250_000_000)),
        Delay { secs: 0, nanos: 750_000_000 }
    );
    assert_eq!(
        state.time_until_reset_at(instant(1_700_000_009, 999_999_999)),
        Delay { secs: 0, nanos: 1 }
    );
}

#[test]
fn wait_until_a_reset_that_has_passed_is_none() {
    let state = info(0, instant(1_700_000_010, 0));
    assert_eq!(state.time_until_reset_at(instant(1_700_000_010, 0)), Delay::zero());
    assert_eq!(state.time_until_reset_at(instant(1_700_000_010, 1)), Delay::zero());
    assert_eq!(state.time_until_reset_at(instant(1_900_000_000, 0)), Delay::zero());
    assert_eq!(info(0, instant(0, 0)).time_until_reset(), Delay::zero());
}

#[test]
fn wait_until_reset_follows_the_system_clock() {
    let reset = Utc::now().timestamp() + 3600;
    let wait = info(0, instant(reset, 0)).time_until_reset();
    assert!(wait <= Delay { secs: 3600, nanos: 0 });
    assert!(wait >= Delay { secs: 3590, nanos: 0 });
    assert!(wait.nanos < 1_000_000_000);
}

#[test]
fn rate_limited_needs_no_request_left_and_a_reset_to_come() {
    let now = instant(1_700_000_000, 500);
    assert!(info(0, instant(1_700_000_001, 0)).is_rate_limited_at(now));
    assert!(info(0, instant(1_700_000_000, 501)).is_rate_limited_at(now));
    assert!(!info(0, instant(1_700_000_000, 500)).is_rate_limited_at(now));
    assert!(!info(0, instant(1_700_000_000, 499)).is_rate_limited_at(now));
    assert!(!info(0, instant(1_600_000_000, 0)).is_rate_limited_at(now));
    assert!(!info(1, instant(1_700_000_001, 0)).is_rate_limited_at(now));
    assert!(!info(100, instant(1_900_000_000, 0)).is_rate_limited_at(now));
}

#[test]
fn rate_limited_follows_the_system_clock() {
    let now = Utc::now().timestamp();
    assert!(info(0, instant(now + 3600, 0)).is_rate_limited());
    assert!(!info(0, instant(now - 3600, 0)).is_rate_limited());
    assert!(!info(1, instant(now + 3600, 0)).is_rate_limited());
    assert!(!info(1, instant(now - 3600, 0)).is_rate_limited());
}

#[test]
fn near_limit_compares_the_share_left_with_the_fraction() {
    let state = RateLimitInfo { limit: 100, remaining: 5, reset_time: instant(0, 0), used: 95 };
    assert!(state.is_near_limit(1, 10));
    assert!(state.is_near_limit(51, 1000));
    assert!(state.is_near_limit(1, 1));
    assert!(!state.is_near_limit(1, 20));
    assert!(!state.is_near_limit(5, 100));
    assert!(!state.is_near_limit(1, 100));
    assert!(!state.is_near_limit(0, 1));
    let spent = RateLimitInfo { limit: 100, remaining: 0, reset_time: instant(0, 0), used: 100 };
    assert!(spent.is_near_limit(1, 1000));
    assert!(!spent.is_near_limit(0, 1));
    let full = RateLimitInfo { limit: 100, remaining: 100, reset_time: instant(0, 0), used: 0 };
    assert!(!full.is_near_limit(1, 1));
    assert!(full.is_near_limit(101, 100));
}

#[test]
fn near_limit_holds_for_the_largest_numbers() {
    let most = RateLimitInfo {
        limit: u32::MAX,
        remaining: u32::MAX - 1,
        reset_time: instant(0, 0),
        used: 1,
    };
    assert!(most.is_near_limit(u32::MAX, u32::MAX));
    assert!(!most.is_near_limit(u32::MAX - 1, u32::MAX));
    assert!(!most.is_near_limit(u32::MAX - 2, u32::MAX));
}

#[test]
fn near_limit_of_no_quota_is_never_near() {
    let none = RateLimitInfo { limit: 0, remaining: 0, reset_time: instant(0, 0), used: 0 };
    assert!(!none.is_near_limit(1, 2));
    assert!(!none.is_near_limit(1, 1));
    assert!(!none.is_near_limit(1, 0));
    let odd = RateLimitInfo { limit: 0, remaining: 3, reset_time: instant(0, 0), used: 0 };
    assert!(!odd.is_near_limit(1, 2));
    assert!(!odd.is_near_limit(1, 0));
}
