use login_gateway::rate_limit::{
    ip_rate_limit, ClientKey, RateLimited, RateLimiter, TokenBucket, DEFAULT_BURST,
    DEFAULT_RATE_PER_SEC, UNITS_PER_MILLI, UNITS_PER_TOKEN,
};

const SECOND: u64 = 1_000_000_000;

fn addr(ip: u128, port: u16) -> ClientKey {
    ClientKey { ip, port }
}

#[test]
fn units_are_consistent() {
    assert_eq!(UNITS_PER_TOKEN, 1_000 * UNITS_PER_MILLI);
    assert_eq!(DEFAULT_BURST, 50_000);
    assert_eq!(DEFAULT_RATE_PER_SEC, 25_000);
}

#[test]
fn full_bucket_holds_the_burst_capacity() {
    let b = TokenBucket::full(17, 50_000);
    assert_eq!(b, TokenBucket { tokens: 50 * UNITS_PER_TOKEN, last: 17 });
    let empty = TokenBucket::full(0, 0);
    assert_eq!(empty.tokens, 0);
    let largest = TokenBucket::full(0, u32::MAX);
    assert_eq!(largest.tokens, 4_294_967_295_000_000_000);
}

#[test]
fn take_consumes_one_token() {
    let mut b = TokenBucket { tokens: 3 * UNITS_PER_TOKEN, last: 0 };
    assert!(b.take(0, 5_000, 0));
    assert_eq!(b, TokenBucket { tokens: 2 * UNITS_PER_TOKEN, last: 0 });
}

#[test]
fn take_refills_by_elapsed_time_times_rate() {
    // 0.2 token, then 1.5 s at 0.5 token/s: 0.95 token, which is not enough.
    let mut b = TokenBucket { tokens: 200_000_000_000, last: 10 * SECOND };
    assert!(!b.take(11 * SECOND + SECOND / 2, 5_000, 500));
    assert_eq!(b, TokenBucket { tokens: 950_000_000_000, last: 11 * SECOND + SECOND / 2 });
    // 0.1 s more brings it to exactly one token, which is taken.
    assert!(b.take(11 * SECOND + SECOND / 2 + SECOND / 10, 5_000, 500));
    assert_eq!(b.tokens, 0);
}

#[test]
fn take_caps_the_refill_at_the_burst_capacity() {
    let mut b = TokenBucket { tokens: 4 * UNITS_PER_TOKEN, last: 0 };
    assert!(b.take(3600 * SECOND, 5_000, 25_000));
    assert_eq!(b.tokens, 4 * UNITS_PER_TOKEN);
    assert_eq!(b.last, 3600 * SECOND);
}

#[test]
fn take_one_nanosecond_adds_one_unit_per_thousandth() {
    let mut b = TokenBucket { tokens: 0, last: 5 };
    assert!(!b.take(6, 1_000, 1));
    assert_eq!(b.tokens, 1);
    assert!(!b.take(8, 1_000, 7));
    assert_eq!(b.tokens, 15);
}

#[test]
fn take_treats_a_clock_that_went_back_as_no_time_passed() {
    let mut b = TokenBucket { tokens: UNITS_PER_TOKEN / 2, last: 100 * SECOND };
    assert!(!b.take(50 * SECOND, 10_000, 25_000));
    assert_eq!(b, TokenBucket { tokens: UNITS_PER_TOKEN / 2, last: 50 * SECOND });
}

#[test]
fn take_survives_the_largest_inputs() {
    let mut b = TokenBucket { tokens: u64::MAX, last: 0 };
    assert!(b.take(u64::MAX, u32::MAX, u32::MAX));
    assert_eq!(b.tokens, 4_294_967_295_000_000_000 - UNITS_PER_TOKEN);
    let mut over = TokenBucket { tokens: u64::MAX, last: 0 };
    assert!(!over.take(0, 999, 0));
    assert_eq!(over.tokens, 999 * UNITS_PER_MILLI);
}

#[test]
fn take_with_less_than_one_token_of_burst_never_passes() {
    let mut b = TokenBucket::full(0, 999);
    assert!(!b.take(1000 * SECOND, 999, 25_000));
    assert_eq!(b.tokens, 999 * UNITS_PER_MILLI);
}

#[test]
fn new_registry_has_no_buckets() {
    let l = RateLimiter::new(1_000, 2_000);
    assert_eq!(l.burst(), 1_000);
    assert_eq!(l.rate_per_sec(), 2_000);
    assert_eq!(l.peek(addr(1, 1)), None);
}

#[test]
fn default_registry_uses_the_default_configuration() {
    let l = RateLimiter::default();
    assert_eq!(l.burst(), 50_000);
    assert_eq!(l.rate_per_sec(), 25_000);
    assert_eq!(l.peek(addr(0, 0)), None);
}

#[test]
fn first_request_starts_from_a_full_bucket() {
    let mut l = RateLimiter::new(3_000, 0);
    assert!(l.allow(addr(9, 9), 42));
    assert_eq!(l.peek(addr(9, 9)), Some(TokenBucket { tokens: 2 * UNITS_PER_TOKEN, last: 42 }));
}

#[test]
fn burst_of_one_without_refill_passes_exactly_one_request() {
    let mut l = RateLimiter::new(1_000, 0);
    let a = addr(0x7f00_0001, 40_000);
    let b = addr(0x7f00_0002, 40_000);
    assert_eq!(ip_rate_limit(&mut l, a, 5), Ok(()));
    assert_eq!(ip_rate_limit(&mut l, a, 5), Err(RateLimited));
    assert_eq!(ip_rate_limit(&mut l, b, 5), Ok(()));
    assert_eq!(ip_rate_limit(&mut l, a, 5 + 3600 * SECOND), Err(RateLimited));
}

#[test]
fn default_burst_passes_fifty_requests_at_once() {
    let mut l = RateLimiter::default();
    let a = addr(1, 1);
    for _ in 0..50 {
        assert!(l.allow(a, 0));
    }
    assert!(!l.allow(a, 0));
    // 40 ms at 25 tokens a second is one token.
    assert!(!l.allow(a, 39_999_999));
    assert!(l.allow(a, 40_000_000));
    assert!(!l.allow(a, 40_000_000));
}

#[test]
fn requests_at_a_fixed_interval_follow_the_refill_formula() {
    // burst 2 tokens, 0.5 token per second, one request every second
    let burst: u32 = 2_000;
    let rate: u32 = 500;
    let mut l = RateLimiter::new(burst, rate);
    let a = addr(7, 7);
    let capacity = burst as u64 * UNITS_PER_MILLI;
    let mut level = capacity; // what the first request finds
    let mut verdicts = Vec::new();
    for n in 0..8u64 {
        let passed = l.allow(a, n * SECOND);
        assert_eq!(passed, level >= UNITS_PER_TOKEN);
        let left = if passed { level - UNITS_PER_TOKEN } else { level };
        assert_eq!(l.peek(a), Some(TokenBucket { tokens: left, last: n * SECOND }));
        assert!(left <= capacity);
        verdicts.push(passed);
        level = capacity.min(left + SECOND * rate as u64);
    }
    assert_eq!(verdicts, vec![true, true, true, false, true, false, true, false]);
}

#[test]
fn tokens_stay_within_the_burst_capacity() {
    let mut l = RateLimiter::new(3_500, 1_000_000);
    let a = addr(1, 2);
    let mut now = 0u64;
    for step in 0..200u64 {
        now += step * 7_919_000;
        l.allow(a, now);
        let b = l.peek(a).unwrap();
        assert!(b.tokens <= 3_500 * UNITS_PER_MILLI);
    }
    l.allow(a, u64::MAX);
    assert_eq!(l.peek(a).unwrap().tokens, 2_500 * UNITS_PER_MILLI);
}

#[test]
fn distinct_addresses_have_independent_buckets() {
    let mut l = RateLimiter::new(2_000, 0);
    let a = addr(10, 1);
    let b = addr(10, 2);
    let c = addr(11, 1);
    assert!(l.allow(b, 1));
    let b_before = l.peek(b);
    assert!(l.allow(a, 2));
    assert!(l.allow(a, 3));
    assert!(!l.allow(a, 4));
    assert_eq!(l.peek(b), b_before);
    assert_eq!(l.peek(c), None);
    assert!(l.allow(b, 5));
    assert!(!l.allow(b, 6));
    assert!(l.allow(c, 7));
    assert_eq!(l.peek(a), Some(TokenBucket { tokens: 0, last: 4 }));
}

#[test]
fn same_address_with_another_port_is_another_subject() {
    let mut l = RateLimiter::new(1_000, 0);
    assert!(l.allow(addr(5, 1000), 0));
    assert!(l.allow(addr(5, 1001), 0));
    assert!(!l.allow(addr(5, 1000), 0));
}

#[test]
fn order_of_requests_from_two_addresses_does_not_matter() {
    let a = addr(1, 1);
    let b = addr(2, 2);
    let mut first = RateLimiter::new(1_500, 250);
    let mut second = RateLimiter::new(1_500, 250);
    let ra1 = first.allow(a, 10);
    let rb1 = first.allow(b, 20);
    let rb2 = second.allow(b, 20);
    let ra2 = second.allow(a, 10);
    assert_eq!((ra1, rb1), (ra2, rb2));
    assert_eq!(first.peek(a), second.peek(a));
    assert_eq!(first.peek(b), second.peek(b));
}

#[test]
fn a_denied_request_still_records_the_refill() {
    let mut l = RateLimiter::new(1_000, 100);
    let a = addr(3, 3);
    assert!(l.allow(a, 0));
    assert!(!l.allow(a, 4 * SECOND));
    assert_eq!(l.peek(a), Some(TokenBucket { tokens: 400_000_000_000, last: 4 * SECOND }));
    assert!(l.allow(a, 10 * SECOND));
    assert_eq!(l.peek(a), Some(TokenBucket { tokens: 0, last: 10 * SECOND }));
}
