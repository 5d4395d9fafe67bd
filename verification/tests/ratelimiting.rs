use serenity::http::error::{DispatchError, ErrorBody, NetworkError};
use serenity::http::header::{find_header, name_is, HeaderField};
use serenity::http::number::{parse_millis, parse_u32};
use serenity::http::ratelimiting::{
    bucket_id, deadline_after, BucketState, GlobalGuard, RateLimitHeaders, Ratelimiter, Step, Verdict,
    DEFAULT_RETRY_CAP,
};
use serenity::http::response::{classify, RawResponse, ResponseOutcome};
use serenity::http::routing::{BucketKey, Route, RouteKind};
use serenity::model::id::{ChannelId, GuildId};

fn field(name: &str, value: &str) -> HeaderField {
    HeaderField { name: name.as_bytes().to_vec(), value: value.as_bytes().to_vec() }
}

fn response(status: u16, headers: &[(&str, &str)]) -> RawResponse {
    RawResponse {
        status,
        headers: headers.iter().map(|(n, v)| field(n, v)).collect(),
        body: Vec::new(),
    }
}

fn report(status: u16, limit: u32, remaining: u32, reset_after: &str) -> RawResponse {
    response(
        status,
        &[
            ("X-RateLimit-Limit", &limit.to_string()),
            ("X-RateLimit-Remaining", &remaining.to_string()),
            ("X-RateLimit-Reset-After", reset_after),
        ],
    )
}

fn channel_key(id: u64) -> BucketKey {
    Route::ChannelMessages { channel_id: ChannelId::new(id) }.bucket_key()
}

#[test]
fn parse_u32_reads_decimal_digits() {
    assert_eq!(parse_u32(b"0"), Some(0));
    assert_eq!(parse_u32(b"5"), Some(5));
    assert_eq!(parse_u32(b"0042"), Some(42));
    assert_eq!(parse_u32(b"4294967295"), Some(u32::MAX));
}

#[test]
fn parse_u32_refuses_what_is_no_number() {
    assert_eq!(parse_u32(b""), None);
    assert_eq!(parse_u32(b"4294967296"), None);
    assert_eq!(parse_u32(b"99999999999999999999999999"), None);
    assert_eq!(parse_u32(b"-1"), None);
    assert_eq!(parse_u32(b"+1"), None);
    assert_eq!(parse_u32(b"1.0"), None);
    assert_eq!(parse_u32(b" 1"), None);
    assert_eq!(parse_u32(b"12a"), None);
}

#[test]
fn parse_millis_reads_seconds() {
    assert_eq!(parse_millis(b"2"), Some(2000));
    assert_eq!(parse_millis(b"2.0"), Some(2000));
    assert_eq!(parse_millis(b"1.5"), Some(1500));
    assert_eq!(parse_millis(b"0.001"), Some(1));
    assert_eq!(parse_millis(b"1.234"), Some(1234));
    assert_eq!(parse_millis(b"5."), Some(5000));
    assert_eq!(parse_millis(b".5"), Some(500));
    assert_eq!(parse_millis(b"0"), Some(0));
    assert_eq!(parse_millis(b"0.000"), Some(0));
    assert_eq!(parse_millis(b"007.25"), Some(7250));
}

#[test]
fn parse_millis_rounds_up_to_the_next_millisecond() {
    assert_eq!(parse_millis(b"0.0015"), Some(2));
    assert_eq!(parse_millis(b"0.0001"), Some(1));
    assert_eq!(parse_millis(b"1.9999"), Some(2000));
    assert_eq!(parse_millis(b"1.2340"), Some(1234));
    assert_eq!(parse_millis(b"1.23400001"), Some(1235));
}

#[test]
fn parse_millis_refuses_what_is_no_number_of_seconds() {
    assert_eq!(parse_millis(b""), None);
    assert_eq!(parse_millis(b"."), None);
    assert_eq!(parse_millis(b"1.2.3"), None);
    assert_eq!(parse_millis(b"1e3"), None);
    assert_eq!(parse_millis(b"-1"), None);
    assert_eq!(parse_millis(b"1,5"), None);
    assert_eq!(parse_millis(b"inf"), None);
    assert_eq!(parse_millis(b"1.5s"), None);
}

#[test]
fn parse_millis_stops_at_the_end_of_u64() {
    assert_eq!(parse_millis(b"18446744073709551.615"), Some(u64::MAX));
    assert_eq!(parse_millis(b"18446744073709551.616"), None);
    assert_eq!(parse_millis(b"18446744073709551.6150001"), None);
    assert_eq!(parse_millis(b"18446744073709552"), None);
    assert_eq!(parse_millis(b"99999999999999999999999999999"), None);
}

#[test]
fn header_names_match_without_regard_to_case() {
    assert!(name_is(b"X-RateLimit-Limit", b"x-ratelimit-limit"));
    assert!(name_is(b"x-ratelimit-limit", b"x-ratelimit-limit"));
    assert!(name_is(b"X-RATELIMIT-LIMIT", b"x-ratelimit-limit"));
    assert!(!name_is(b"x-ratelimit-limi", b"x-ratelimit-limit"));
    assert!(!name_is(b"x_ratelimit-limit", b"x-ratelimit-limit"));
    assert!(name_is(b"", b""));
}

#[test]
fn find_header_gives_the_first_of_a_name() {
    let fields = vec![field("A", "1"), field("b", "2"), field("B", "3")];
    assert_eq!(find_header(&fields, b"b"), Some(&b"2".to_vec()));
    assert_eq!(find_header(&fields, b"a"), Some(&b"1".to_vec()));
    assert_eq!(find_header(&fields, b"c"), None);
}

#[test]
fn rate_limit_headers_are_read() {
    let raw = response(
        429,
        &[
            ("x-ratelimit-limit", "5"),
            ("X-RateLimit-Remaining", "0"),
            ("X-RATELIMIT-RESET-AFTER", "1.5"),
            ("X-RateLimit-Bucket", "abcd1234"),
            ("X-RateLimit-Global", "true"),
            ("Retry-After", "2"),
        ],
    );
    let h = raw.rate_limits();
    assert_eq!(
        h,
        RateLimitHeaders {
            limit: Some(5),
            remaining: Some(0),
            reset_after_ms: Some(1500),
            retry_after_ms: Some(2000),
            global: true,
        }
    );
    assert_eq!(bucket_id(&raw.headers), Some(&b"abcd1234".to_vec()));
}

#[test]
fn missing_and_malformed_headers_say_nothing() {
    let raw = response(
        200,
        &[("X-RateLimit-Limit", "five"), ("X-RateLimit-Global", "false"), ("Retry-After", "")],
    );
    let h = RateLimitHeaders::parse(&raw.headers);
    assert_eq!(
        h,
        RateLimitHeaders {
            limit: None,
            remaining: None,
            reset_after_ms: None,
            retry_after_ms: None,
            global: false,
        }
    );
    assert_eq!(bucket_id(&raw.headers), None);
}

#[test]
fn global_header_must_say_true() {
    assert!(RateLimitHeaders::parse(&vec![field("x-ratelimit-global", "true")]).global);
    assert!(!RateLimitHeaders::parse(&vec![field("x-ratelimit-global", "True")]).global);
    assert!(!RateLimitHeaders::parse(&vec![field("x-ratelimit-global", "1")]).global);
    assert!(!RateLimitHeaders::parse(&vec![field("x-ratelimit-global", "")]).global);
}

#[test]
fn deadline_saturates() {
    assert_eq!(deadline_after(1000, 500), 1500);
    assert_eq!(deadline_after(u64::MAX - 1, 5), u64::MAX);
    assert_eq!(deadline_after(0, 0), 0);
}

#[test]
fn fresh_bucket_holds_nothing_back() {
    let b = BucketState::new();
    assert_eq!(b.limit, u32::MAX);
    assert_eq!(b.remaining, u32::MAX);
    assert_eq!(b.wait_until(0), None);
    assert_eq!(b.wait_until(u64::MAX), None);
}

#[test]
fn later_update_overwrites_earlier() {
    let mut b = BucketState::new();
    let first = parse_millis(b"2.0").unwrap();
    let second = parse_millis(b"1.5").unwrap();
    assert!(b.apply_update(5, 5, first, 10_000));
    assert_eq!(b, BucketState { limit: 5, remaining: 5, reset_at: 12_000 });
    assert!(b.apply_update(5, 4, second, 10_100));
    assert_eq!(b, BucketState { limit: 5, remaining: 4, reset_at: 11_600 });
}

#[test]
fn update_with_more_left_than_the_limit_is_not_taken() {
    let mut b = BucketState::new();
    assert!(b.apply_update(5, 3, 1000, 0));
    assert!(!b.apply_update(5, 6, 9000, 50));
    assert_eq!(b, BucketState { limit: 5, remaining: 3, reset_at: 1000 });
}

#[test]
fn exhausted_bucket_waits_until_reset() {
    let mut b = BucketState::new();
    b.apply_update(5, 0, 2000, 100);
    assert_eq!(b.wait_until(100), Some(2100));
    assert_eq!(b.wait_until(2099), Some(2100));
    assert_eq!(b.wait_until(2100), None);
    assert_eq!(b.wait_until(5000), None);
    b.throttle(700, 3000);
    assert_eq!(b, BucketState { limit: 5, remaining: 0, reset_at: 3700 });
    assert_eq!(b.wait_until(3000), Some(3700));
}

#[test]
fn global_guard_blocks_until_its_deadline_and_clears() {
    let mut g = GlobalGuard::new();
    assert_eq!(g.check(0), None);
    g.engage(2000, 1000);
    assert_eq!(g, GlobalGuard { active: true, reset_at: 3000 });
    assert_eq!(g.check(1000), Some(3000));
    assert_eq!(g.check(2999), Some(3000));
    assert!(g.active);
    assert_eq!(g.check(3000), None);
    assert!(!g.active);
    assert_eq!(g.check(100), None);
}

#[test]
fn five_requests_proceed_and_the_sixth_waits() {
    let mut limiter = Ratelimiter::new();
    let key = channel_key(1);
    assert!(limiter.apply_update(key, 5, 5, 2000, 0));
    let mut now = 0;
    for sent in 1..=5u32 {
        assert_eq!(limiter.before_send(key, now), Step::Send);
        now += 10;
        let verdict = limiter.after_response(key, 0, Ok(report(200, 5, 5 - sent, "2.0")), None, now);
        assert!(matches!(verdict, Verdict::Done(Ok(_))));
    }
    assert_eq!(limiter.bucket(key), BucketState { limit: 5, remaining: 0, reset_at: now + 2000 });
    assert_eq!(limiter.before_send(key, now), Step::WaitBucket { until: now + 2000 });
    assert_eq!(limiter.before_send(key, now + 1999), Step::WaitBucket { until: now + 2000 });
    assert_eq!(limiter.before_send(key, now + 2000), Step::Send);
}

#[test]
fn global_limit_delays_every_bucket() {
    let mut limiter = Ratelimiter::new();
    let hit = channel_key(1);
    let other = channel_key(2);
    let guild = Route::GuildRoles { guild_id: GuildId::new(3) }.bucket_key();
    let raw = response(429, &[("X-RateLimit-Global", "true"), ("Retry-After", "2")]);
    let verdict = limiter.after_response(hit, 0, Ok(raw), None, 10_000);
    assert!(matches!(verdict, Verdict::Retry { attempt: 1, delay_ms: 2000 }));
    assert_eq!(limiter.global(), GlobalGuard { active: true, reset_at: 12_000 });
    assert_eq!(limiter.before_send(hit, 10_000), Step::WaitGlobal { until: 12_000 });
    assert_eq!(limiter.before_send(other, 10_500), Step::WaitGlobal { until: 12_000 });
    assert_eq!(limiter.before_send(guild, 11_999), Step::WaitGlobal { until: 12_000 });
    assert_eq!(limiter.before_send(other, 12_000), Step::Send);
    assert!(!limiter.global().active);
    assert_eq!(limiter.before_send(guild, 12_001), Step::Send);
}

#[test]
fn bucket_limit_leaves_other_buckets_alone() {
    let mut limiter = Ratelimiter::new();
    let a = channel_key(1);
    let b = channel_key(2);
    limiter.after_response(a, 0, Ok(report(200, 5, 0, "3")), None, 100);
    assert_eq!(limiter.before_send(a, 200), Step::WaitBucket { until: 3100 });
    assert_eq!(limiter.before_send(b, 200), Step::Send);
    assert_eq!(limiter.bucket(b), BucketState::new());
    limiter.after_response(b, 0, Ok(report(200, 10, 9, "1")), None, 300);
    assert_eq!(limiter.bucket(a), BucketState { limit: 5, remaining: 0, reset_at: 3100 });
    assert_eq!(limiter.bucket(b), BucketState { limit: 10, remaining: 9, reset_at: 1300 });
    assert_eq!(limiter.before_send(b, 300), Step::Send);
}

#[test]
fn bucket_429_sets_the_reset_from_retry_after() {
    let mut limiter = Ratelimiter::new();
    let key = channel_key(1);
    let raw = response(
        429,
        &[
            ("X-RateLimit-Limit", "5"),
            ("X-RateLimit-Remaining", "0"),
            ("X-RateLimit-Reset-After", "9.0"),
            ("Retry-After", "0.25"),
        ],
    );
    let verdict = limiter.after_response(key, 0, Ok(raw), None, 1000);
    assert!(matches!(verdict, Verdict::Retry { attempt: 1, delay_ms: 250 }));
    assert_eq!(limiter.bucket(key), BucketState { limit: 5, remaining: 0, reset_at: 1250 });
    assert!(!limiter.global().active);
    assert_eq!(limiter.before_send(key, 1000), Step::WaitBucket { until: 1250 });
    assert_eq!(limiter.before_send(key, 1250), Step::Send);
}

#[test]
fn disabled_ratelimiter_never_waits_but_records() {
    let mut limiter = Ratelimiter::with_settings(DEFAULT_RETRY_CAP, true);
    assert!(limiter.is_disabled());
    let key = channel_key(1);
    let verdict = limiter.after_response(key, 0, Ok(report(200, 5, 0, "60")), None, 0);
    assert!(matches!(verdict, Verdict::Done(Ok(_))));
    assert_eq!(limiter.bucket(key), BucketState { limit: 5, remaining: 0, reset_at: 60_000 });
    assert_eq!(limiter.before_send(key, 1), Step::Send);
    let raw = response(429, &[("X-RateLimit-Global", "true"), ("Retry-After", "30")]);
    let verdict = limiter.after_response(key, 0, Ok(raw), None, 2);
    assert!(matches!(
        verdict,
        Verdict::Done(Err(DispatchError::RateLimited { retry_after_ms: 30_000, global: true }))
    ));
    assert!(!limiter.global().active);
    assert_eq!(limiter.before_send(key, 3), Step::Send);
    assert_eq!(limiter.before_send(channel_key(2), 3), Step::Send);
}

#[test]
fn set_disabled_keeps_the_recorded_limits() {
    let mut limiter = Ratelimiter::new();
    let key = channel_key(1);
    limiter.apply_update(key, 1, 0, 5000, 0);
    assert_eq!(limiter.before_send(key, 10), Step::WaitBucket { until: 5000 });
    limiter.set_disabled(true);
    assert_eq!(limiter.before_send(key, 10), Step::Send);
    limiter.set_disabled(false);
    assert_eq!(limiter.before_send(key, 10), Step::WaitBucket { until: 5000 });
}

fn run_429s(limiter: &mut Ratelimiter, key: BucketKey) -> (u32, Verdict) {
    let mut attempt = 0;
    let mut sends = 0;
    loop {
        sends += 1;
        let raw = response(429, &[("Retry-After", "0")]);
        match limiter.after_response(key, attempt, Ok(raw), None, 0) {
            Verdict::Retry { attempt: next, .. } => attempt = next,
            done => return (sends, done),
        }
        assert!(sends < 1000);
    }
}

#[test]
fn call_gives_up_at_the_default_cap() {
    let mut limiter = Ratelimiter::new();
    assert_eq!(limiter.retry_cap(), DEFAULT_RETRY_CAP);
    let (sends, verdict) = run_429s(&mut limiter, channel_key(1));
    assert_eq!(sends, DEFAULT_RETRY_CAP);
    assert!(matches!(
        verdict,
        Verdict::Done(Err(DispatchError::RateLimited { retry_after_ms: 0, global: false }))
    ));
}

#[test]
fn call_gives_up_at_a_cap_of_three() {
    let mut limiter = Ratelimiter::with_settings(3, false);
    let (sends, verdict) = run_429s(&mut limiter, channel_key(1));
    assert_eq!(sends, 3);
    assert!(matches!(verdict, Verdict::Done(Err(DispatchError::RateLimited { .. }))));
}

#[test]
fn call_with_a_cap_of_one_does_not_retry() {
    let mut limiter = Ratelimiter::with_settings(1, false);
    let (sends, verdict) = run_429s(&mut limiter, channel_key(1));
    assert_eq!(sends, 1);
    assert!(matches!(verdict, Verdict::Done(Err(DispatchError::RateLimited { .. }))));
}

#[test]
fn success_after_a_429_ends_the_call() {
    let mut limiter = Ratelimiter::with_settings(3, false);
    let key = channel_key(1);
    let first = limiter.after_response(key, 0, Ok(response(429, &[("Retry-After", "1")])), None, 0);
    assert!(matches!(first, Verdict::Retry { attempt: 1, delay_ms: 1000 }));
    let second = limiter.after_response(key, 1, Ok(response(200, &[])), None, 1000);
    match second {
        Verdict::Done(Ok(raw)) => assert_eq!(raw.status, 200),
        other => panic!("unexpected verdict {:?}", other),
    }
}

#[test]
fn terminal_errors_are_not_retried() {
    let mut limiter = Ratelimiter::new();
    let key = channel_key(1);
    let body = ErrorBody { code: 50013, message: "Missing Permissions".to_string(), errors: Vec::new() };
    match limiter.after_response(key, 0, Ok(response(403, &[])), Some(body), 0) {
        Verdict::Done(Err(DispatchError::ClientError { status, body: Some(b) })) => {
            assert_eq!(status, 403);
            assert_eq!(b.code, 50013);
            assert_eq!(b.message, "Missing Permissions");
        },
        other => panic!("unexpected verdict {:?}", other),
    }
    match limiter.after_response(key, 0, Ok(response(502, &[])), None, 0) {
        Verdict::Done(Err(DispatchError::ServerError { status, body })) => {
            assert_eq!(status, 502);
            assert!(body.is_none());
        },
        other => panic!("unexpected verdict {:?}", other),
    }
}

#[test]
fn transport_failure_ends_the_call_and_writes_nothing() {
    let mut limiter = Ratelimiter::new();
    let key = channel_key(1);
    limiter.apply_update(key, 5, 2, 1000, 0);
    let before = limiter.bucket(key);
    let failure = NetworkError { message: "connection reset".to_string() };
    match limiter.after_response(key, 0, Err(failure), None, 500) {
        Verdict::Done(Err(DispatchError::Network(e))) => assert_eq!(e.message, "connection reset"),
        other => panic!("unexpected verdict {:?}", other),
    }
    assert_eq!(limiter.bucket(key), before);
    assert!(!limiter.global().active);
}

#[test]
fn get_or_create_makes_a_fresh_bucket_once() {
    let mut limiter = Ratelimiter::new();
    let key = channel_key(9);
    assert_eq!(limiter.get_or_create(key), BucketState::new());
    limiter.apply_update(key, 3, 1, 100, 0);
    assert_eq!(limiter.get_or_create(key), BucketState { limit: 3, remaining: 1, reset_at: 100 });
}

#[test]
fn buckets_with_and_without_major_parameter_do_not_collide() {
    let mut limiter = Ratelimiter::new();
    let zero = BucketKey { kind: RouteKind::Channel, major: Some(0) };
    let none = BucketKey { kind: RouteKind::Channel, major: None };
    let next = BucketKey { kind: RouteKind::ChannelInvites, major: None };
    let max = BucketKey { kind: RouteKind::Channel, major: Some(u64::MAX) };
    limiter.apply_update(zero, 1, 1, 1, 0);
    limiter.apply_update(none, 2, 2, 2, 0);
    limiter.apply_update(next, 3, 3, 3, 0);
    limiter.apply_update(max, 4, 4, 4, 0);
    assert_eq!(limiter.bucket(zero).limit, 1);
    assert_eq!(limiter.bucket(none).limit, 2);
    assert_eq!(limiter.bucket(next).limit, 3);
    assert_eq!(limiter.bucket(max).limit, 4);
}

#[test]
fn statuses_are_classified() {
    for status in [200u16, 201, 204, 299] {
        assert!(matches!(classify(Ok(response(status, &[])), None), ResponseOutcome::Success(_)));
    }
    for status in [100u16, 199, 300, 304, 400, 401, 404, 428, 430, 499, 600, 999] {
        match classify(Ok(response(status, &[])), None) {
            ResponseOutcome::ClientError { status: s, body } => {
                assert_eq!(s, status);
                assert!(body.is_none());
            },
            other => panic!("unexpected outcome {:?}", other),
        }
    }
    for status in [500u16, 503, 599] {
        assert!(matches!(
            classify(Ok(response(status, &[])), None),
            ResponseOutcome::ServerError { status: s, .. } if s == status
        ));
    }
    assert!(matches!(
        classify(Ok(response(429, &[("retry-after", "1.5")])), None),
        ResponseOutcome::RateLimited { retry_after_ms: 1500, is_global: false }
    ));
    assert!(matches!(
        classify(Ok(response(429, &[])), None),
        ResponseOutcome::RateLimited { retry_after_ms: 0, is_global: false }
    ));
    assert!(matches!(
        classify(Err(NetworkError { message: "timeout".to_string() }), None),
        ResponseOutcome::Network(_)
    ));
}

#[test]
fn asking_without_sending_changes_no_later_decision() {
    let mut asked = Ratelimiter::new();
    let mut untouched = Ratelimiter::new();
    let a = channel_key(1);
    let b = channel_key(2);
    for limiter in [&mut asked, &mut untouched] {
        limiter.apply_update(a, 2, 0, 500, 0);
        let raw = response(429, &[("X-RateLimit-Global", "true"), ("Retry-After", "1")]);
        limiter.after_response(b, 0, Ok(raw), None, 0);
    }
    assert_eq!(asked.before_send(a, 100), Step::WaitBucket { until: 500 });
    assert_eq!(asked.before_send(b, 100), Step::WaitGlobal { until: 1000 });
    assert_eq!(asked.before_send(channel_key(3), 1200), Step::Send);
    for now in [1200u64, 1500, 5000] {
        for key in [a, b, channel_key(3), channel_key(4)] {
            assert_eq!(asked.bucket(key), untouched.bucket(key));
        }
        assert_eq!(asked.global().check(now), untouched.global().check(now));
    }
    assert_eq!(untouched.before_send(a, 1200), Step::Send);
    assert_eq!(asked.before_send(a, 1200), Step::Send);
}
