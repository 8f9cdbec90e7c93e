//! Token-bucket admission control, keyed by client address.
//!
//! Amounts are exact integers. Configuration is given in thousandths of a
//! token, time in nanoseconds, and a bucket holds its tokens in units of
//! 10^-12 token, so that one nanosecond at a rate of one thousandth of a token
//! per second adds exactly one unit and nothing is ever rounded.

use crate::registry::{
    registry_entries, registry_entry_or_insert, registry_get, registry_insert, registry_new,
};
use dashmap::DashMap;
use vstd::prelude::*;

verus! {

/// Bucket units that make one whole token.
pub const UNITS_PER_TOKEN: u64 = 1_000_000_000_000;

/// Bucket units that make one thousandth of a token.
pub const UNITS_PER_MILLI: u64 = 1_000_000_000;

/// Burst capacity used when none is configured: 50 tokens, in thousandths.
pub const DEFAULT_BURST: u32 = 50_000;

/// Refill rate used when none is configured: 25 tokens per second, in thousandths.
pub const DEFAULT_RATE_PER_SEC: u32 = 25_000;

/// The most units a bucket of burst capacity `burst` (thousandths of a token) can hold.
pub open spec fn capacity(burst: u32) -> int {
    burst as int * UNITS_PER_MILLI as int
}

/// Nanoseconds from `last` to `now`; zero when `now` is not later.
pub open spec fn elapsed(last: u64, now: u64) -> int {
    if now >= last {
        now - last
    } else {
        0
    }
}

/// Rate-limit state of one client: the tokens left and the time of the last refill.
#[derive(Clone, Copy, Debug, PartialEq, Eq, Structural)]
pub struct TokenBucket {
    /// Tokens in the bucket, in units of 10^-12 token.
    pub tokens: u64,
    /// Time of the last refill, in nanoseconds.
    pub last: u64,
}

impl TokenBucket {
    /// The bucket never holds more than the burst capacity.
    pub open spec fn within(self, burst: u32) -> bool {
        self.tokens <= capacity(burst)
    }

    /// Units in the bucket once it has been refilled up to time `now`.
    pub open spec fn level(self, now: u64, burst: u32, rate_per_sec: u32) -> int {
        let filled = self.tokens + elapsed(self.last, now) * rate_per_sec;
        if filled <= capacity(burst) {
            filled
        } else {
            capacity(burst)
        }
    }

    /// Whether a request arriving at `now` is admitted: a whole token is there after the refill.
    pub open spec fn admits(self, now: u64, burst: u32, rate_per_sec: u32) -> bool {
        self.level(now, burst, rate_per_sec) >= UNITS_PER_TOKEN
    }

    /// The bucket after a request at `now`: refilled, and one token poorer if the
    /// request was admitted.
    pub open spec fn after(self, now: u64, burst: u32, rate_per_sec: u32) -> TokenBucket {
        let level = self.level(now, burst, rate_per_sec);
        TokenBucket {
            tokens: if self.admits(now, burst, rate_per_sec) {
                (level - UNITS_PER_TOKEN) as u64
            } else {
                level as u64
            },
            last: now,
        }
    }

    /// A full bucket for a client first seen at `now`.
    pub fn full(now: u64, burst: u32) -> (b: TokenBucket)
        ensures
            b.tokens == capacity(burst),
            b.last == now,
            b.within(burst),
    {
        let burst_units: u64 = burst as u64 * UNITS_PER_MILLI;
        TokenBucket { tokens: burst_units, last: now }
    }

    /// Refills the bucket up to time `now` and takes one token if a whole one is there.
    /// Returns whether the token was taken.
    pub fn take(&mut self, now: u64, burst: u32, rate_per_sec: u32) -> (admitted: bool)
        ensures
            admitted == old(self).admits(now, burst, rate_per_sec),
            *final(self) == old(self).after(now, burst, rate_per_sec),
            final(self).within(burst),
    {
        let waited: u64 = if now >= self.last {
            now - self.last
        } else {
            0
        };
        assert(waited as int * rate_per_sec as int <= 0xffff_ffff_ffff_ffff * 0xffff_ffff)
            by (nonlinear_arith)
            requires
                0 <= waited <= 0xffff_ffff_ffff_ffff,
                0 <= rate_per_sec <= 0xffff_ffff,
        ;
        let gained: u128 = waited as u128 * rate_per_sec as u128;
        let filled: u128 = self.tokens as u128 + gained;
        let burst_units: u64 = burst as u64 * UNITS_PER_MILLI;
        let level: u64 = if filled <= burst_units as u128 {
            filled as u64
        } else {
            burst_units
        };
        self.last = now;
        if level >= UNITS_PER_TOKEN {
            self.tokens = level - UNITS_PER_TOKEN;
            true
        } else {
            self.tokens = level;
            false
        }
    }
}

/// The level that a request finds is capped by the burst capacity, and what a
/// request leaves in the bucket is never more than that, whatever the bucket
/// held before.
pub proof fn lemma_tokens_bounded(b: TokenBucket, now: u64, burst: u32, rate_per_sec: u32)
    ensures
        0 <= b.level(now, burst, rate_per_sec) <= capacity(burst),
        b.after(now, burst, rate_per_sec).within(burst),
        0 <= b.after(now, burst, rate_per_sec).tokens,
{
    assert(elapsed(b.last, now) * rate_per_sec >= 0) by (nonlinear_arith)
        requires
            elapsed(b.last, now) >= 0,
            rate_per_sec >= 0,
    ;
}

/// Two requests in a row on one bucket, at `t1` and then at `t2`: the level that
/// the second finds is the level that the first found, less the token that the
/// first took if it passed, plus what the time between them refills, capped at
/// the burst capacity. Each passes exactly when the level it finds is at least
/// one token.
pub proof fn lemma_level_between_requests(
    b: TokenBucket,
    t1: u64,
    t2: u64,
    burst: u32,
    rate_per_sec: u32,
)
    ensures
        ({
            let first = b.level(t1, burst, rate_per_sec);
            let taken = if b.admits(t1, burst, rate_per_sec) {
                UNITS_PER_TOKEN as int
            } else {
                0
            };
            let refilled = first - taken + elapsed(t1, t2) * rate_per_sec;
            let second = b.after(t1, burst, rate_per_sec).level(t2, burst, rate_per_sec);
            &&& second == if refilled <= capacity(burst) {
                refilled
            } else {
                capacity(burst)
            }
            &&& b.admits(t1, burst, rate_per_sec) <==> first >= UNITS_PER_TOKEN
            &&& b.after(t1, burst, rate_per_sec).admits(t2, burst, rate_per_sec) <==> second
                >= UNITS_PER_TOKEN
        }),
{
    lemma_tokens_bounded(b, t1, burst, rate_per_sec);
}

/// What a request at `now` leaves in the bucket is what the bucket held, less
/// the token taken if the request passed, plus what the time since the last
/// refill adds, capped at the burst capacity. This holds unless the request
/// passed and the refill was cut off by the cap: the token is then taken from
/// the full bucket.
pub proof fn lemma_tokens_after_request(b: TokenBucket, now: u64, burst: u32, rate_per_sec: u32)
    requires
        !b.admits(now, burst, rate_per_sec) || b.tokens + elapsed(b.last, now) * rate_per_sec
            <= capacity(burst),
    ensures
        ({
            let taken = if b.admits(now, burst, rate_per_sec) {
                UNITS_PER_TOKEN as int
            } else {
                0
            };
            let moved = b.tokens - taken + elapsed(b.last, now) * rate_per_sec;
            b.after(now, burst, rate_per_sec).tokens == if moved <= capacity(burst) {
                moved
            } else {
                capacity(burst)
            }
        }),
{
    lemma_tokens_bounded(b, now, burst, rate_per_sec);
}

/// The network address that identifies a rate-limit subject.
#[derive(Clone, Copy, Debug, PartialEq, Eq, Structural)]
pub struct ClientKey {
    /// The IP address as a number; an IPv4 address is its 32 bits.
    pub ip: u128,
    /// The port the client connected from.
    pub port: u16,
}

/// The bucket that a request from `key` at `now` finds in the registry `m`: the
/// one on record, or a full one where the address is new.
pub open spec fn found(m: Map<ClientKey, TokenBucket>, key: ClientKey, now: u64, burst: u32)
    -> TokenBucket {
    if m.contains_key(key) {
        m[key]
    } else {
        TokenBucket { tokens: capacity(burst) as u64, last: now }
    }
}

/// Whether the registry `m` passes a request from `key` at `now`.
pub open spec fn registry_admits(
    m: Map<ClientKey, TokenBucket>,
    key: ClientKey,
    now: u64,
    burst: u32,
    rate_per_sec: u32,
) -> bool {
    found(m, key, now, burst).admits(now, burst, rate_per_sec)
}

/// The registry `m` after a request from `key` at `now`: only the bucket of `key` differs.
pub open spec fn registry_after(
    m: Map<ClientKey, TokenBucket>,
    key: ClientKey,
    now: u64,
    burst: u32,
    rate_per_sec: u32,
) -> Map<ClientKey, TokenBucket> {
    m.insert(key, found(m, key, now, burst).after(now, burst, rate_per_sec))
}

/// Two requests in a row from one address, at `t1` and then at `t2`: the second
/// finds the bucket that the first left, and so a level that is the level the
/// first found, less the token the first took if it passed, plus what the time
/// between them refills, capped at the burst capacity. Each passes exactly when
/// the level it finds is at least one token.
pub proof fn lemma_requests_in_a_row(
    m: Map<ClientKey, TokenBucket>,
    key: ClientKey,
    t1: u64,
    t2: u64,
    burst: u32,
    rate_per_sec: u32,
)
    ensures
        ({
            let b1 = found(m, key, t1, burst);
            let m1 = registry_after(m, key, t1, burst, rate_per_sec);
            let b2 = found(m1, key, t2, burst);
            let first = b1.level(t1, burst, rate_per_sec);
            let second = b2.level(t2, burst, rate_per_sec);
            let taken = if registry_admits(m, key, t1, burst, rate_per_sec) {
                UNITS_PER_TOKEN as int
            } else {
                0
            };
            let refilled = first - taken + elapsed(t1, t2) * rate_per_sec;
            &&& b2 == b1.after(t1, burst, rate_per_sec)
            &&& second == if refilled <= capacity(burst) {
                refilled
            } else {
                capacity(burst)
            }
            &&& registry_admits(m, key, t1, burst, rate_per_sec) <==> first >= UNITS_PER_TOKEN
            &&& registry_admits(m1, key, t2, burst, rate_per_sec) <==> second >= UNITS_PER_TOKEN
        }),
{
    lemma_level_between_requests(found(m, key, t1, burst), t1, t2, burst, rate_per_sec);
}

/// Requests from one address do nothing to another: after a request from `k1`,
/// a request from a different address `k2` finds the bucket, gets the decision
/// and leaves the bucket that it would have without the first; and the two
/// requests leave the same registry in whichever order they are served.
pub proof fn lemma_distinct_keys_independent(
    m: Map<ClientKey, TokenBucket>,
    k1: ClientKey,
    t1: u64,
    k2: ClientKey,
    t2: u64,
    burst: u32,
    rate_per_sec: u32,
)
    requires
        k1 != k2,
    ensures
        ({
            let m1 = registry_after(m, k1, t1, burst, rate_per_sec);
            let m2 = registry_after(m, k2, t2, burst, rate_per_sec);
            &&& found(m1, k2, t2, burst) == found(m, k2, t2, burst)
            &&& registry_admits(m1, k2, t2, burst, rate_per_sec) == registry_admits(
                m,
                k2,
                t2,
                burst,
                rate_per_sec,
            )
            &&& registry_after(m1, k2, t2, burst, rate_per_sec)[k2] == m2[k2]
            &&& registry_after(m1, k2, t2, burst, rate_per_sec) == registry_after(
                m2,
                k1,
                t1,
                burst,
                rate_per_sec,
            )
        }),
{
    let m1 = registry_after(m, k1, t1, burst, rate_per_sec);
    let m2 = registry_after(m, k2, t2, burst, rate_per_sec);
    assert(registry_after(m1, k2, t2, burst, rate_per_sec) =~= registry_after(
        m2,
        k1,
        t1,
        burst,
        rate_per_sec,
    ));
}

/// Where every bucket of a registry is within the burst capacity, every bucket
/// still is after a request.
pub proof fn lemma_registry_stays_bounded(
    m: Map<ClientKey, TokenBucket>,
    key: ClientKey,
    now: u64,
    burst: u32,
    rate_per_sec: u32,
)
    requires
        forall|k: ClientKey| #[trigger] m.contains_key(k) ==> m[k].within(burst),
    ensures
        forall|k: ClientKey| #[trigger]
            registry_after(m, key, now, burst, rate_per_sec).contains_key(k) ==> registry_after(
                m,
                key,
                now,
                burst,
                rate_per_sec,
            )[k].within(burst),
{
    lemma_tokens_bounded(found(m, key, now, burst), now, burst, rate_per_sec);
}

/// A request as the registry sees it: who asks, and when.
pub struct Request {
    pub key: ClientKey,
    pub at: u64,
}

/// The registry `m` after it has served `requests` in turn.
pub open spec fn registry_after_all(
    m: Map<ClientKey, TokenBucket>,
    requests: Seq<Request>,
    burst: u32,
    rate_per_sec: u32,
) -> Map<ClientKey, TokenBucket>
    decreases requests.len(),
{
    if requests.len() == 0 {
        m
    } else {
        registry_after(
            registry_after_all(m, requests.drop_last(), burst, rate_per_sec),
            requests.last().key,
            requests.last().at,
            burst,
            rate_per_sec,
        )
    }
}

/// Those of `requests` that come from `key`, in their order.
pub open spec fn requests_from(requests: Seq<Request>, key: ClientKey) -> Seq<Request> {
    requests.filter(|r: Request| r.key == key)
}

/// Whatever requests a registry serves, from whichever addresses and at
/// whichever times, no bucket ever holds more than the burst capacity, if none
/// did to begin with (and a new registry has no buckets).
pub proof fn lemma_tokens_always_bounded(
    m: Map<ClientKey, TokenBucket>,
    requests: Seq<Request>,
    burst: u32,
    rate_per_sec: u32,
)
    requires
        forall|k: ClientKey| #[trigger] m.contains_key(k) ==> m[k].within(burst),
    ensures
        forall|k: ClientKey| #[trigger]
            registry_after_all(m, requests, burst, rate_per_sec).contains_key(k)
                ==> registry_after_all(m, requests, burst, rate_per_sec)[k].within(burst),
    decreases requests.len(),
{
    if requests.len() > 0 {
        lemma_tokens_always_bounded(m, requests.drop_last(), burst, rate_per_sec);
        lemma_registry_stays_bounded(
            registry_after_all(m, requests.drop_last(), burst, rate_per_sec),
            requests.last().key,
            requests.last().at,
            burst,
            rate_per_sec,
        );
    }
}

/// The bucket of an address depends on that address's requests alone: serving
/// `requests` leaves `key` the bucket that serving only the requests from `key`
/// leaves it, whatever the other addresses asked in between.
pub proof fn lemma_other_addresses_do_not_matter(
    m: Map<ClientKey, TokenBucket>,
    requests: Seq<Request>,
    key: ClientKey,
    burst: u32,
    rate_per_sec: u32,
)
    ensures
        ({
            let all = registry_after_all(m, requests, burst, rate_per_sec);
            let own = registry_after_all(m, requests_from(requests, key), burst, rate_per_sec);
            &&& all.contains_key(key) <==> own.contains_key(key)
            &&& all.contains_key(key) ==> all[key] == own[key]
        }),
    decreases requests.len(),
{
    reveal(Seq::filter);
    if requests.len() > 0 {
        let earlier = requests.drop_last();
        lemma_other_addresses_do_not_matter(m, earlier, key, burst, rate_per_sec);
        if requests.last().key == key {
            assert(requests_from(requests, key).drop_last() =~= requests_from(earlier, key));
        }
    }
}

/// Any two requests that a registry serves one after the other from the same
/// address, as the `i`-th and the next of `requests`: the level that the later
/// one finds is the level that the earlier one found, less the token that it
/// took if it passed, plus what the time between the two refills, capped at the
/// burst capacity; and the earlier one passed exactly if the level it found was
/// at least one token.
pub proof fn lemma_levels_along_requests(
    m: Map<ClientKey, TokenBucket>,
    requests: Seq<Request>,
    i: int,
    burst: u32,
    rate_per_sec: u32,
)
    requires
        0 <= i,
        i + 1 < requests.len(),
        requests[i].key == requests[i + 1].key,
    ensures
        ({
            let key = requests[i].key;
            let before = registry_after_all(m, requests.take(i), burst, rate_per_sec);
            let between = registry_after_all(m, requests.take(i + 1), burst, rate_per_sec);
            let first = found(before, key, requests[i].at, burst).level(
                requests[i].at,
                burst,
                rate_per_sec,
            );
            let second = found(between, key, requests[i + 1].at, burst).level(
                requests[i + 1].at,
                burst,
                rate_per_sec,
            );
            let taken = if registry_admits(before, key, requests[i].at, burst, rate_per_sec) {
                UNITS_PER_TOKEN as int
            } else {
                0
            };
            let refilled = first - taken + elapsed(requests[i].at, requests[i + 1].at)
                * rate_per_sec;
            &&& second == if refilled <= capacity(burst) {
                refilled
            } else {
                capacity(burst)
            }
            &&& registry_admits(before, key, requests[i].at, burst, rate_per_sec) <==> first
                >= UNITS_PER_TOKEN
        }),
{
    assert(requests.take(i + 1).drop_last() =~= requests.take(i));
    lemma_requests_in_a_row(
        registry_after_all(m, requests.take(i), burst, rate_per_sec),
        requests[i].key,
        requests[i].at,
        requests[i + 1].at,
        burst,
        rate_per_sec,
    );
}

/// A registry of token buckets, one per client address, with the configuration
/// they all share. Its view is the map from each address seen so far to its bucket.
pub struct RateLimiter {
    burst: u32,
    rate_per_sec: u32,
    buckets: DashMap<(u128, u16), TokenBucket>,
}

impl View for RateLimiter {
    type V = Map<ClientKey, TokenBucket>;

    closed spec fn view(&self) -> Map<ClientKey, TokenBucket> {
        Map::new(
            |k: ClientKey| registry_entries(self.buckets).contains_key((k.ip, k.port)),
            |k: ClientKey| registry_entries(self.buckets)[(k.ip, k.port)],
        )
    }
}

impl RateLimiter {
    /// Burst capacity, in thousandths of a token.
    pub closed spec fn spec_burst(&self) -> u32 {
        self.burst
    }

    /// Refill rate, in thousandths of a token per second.
    pub closed spec fn spec_rate_per_sec(&self) -> u32 {
        self.rate_per_sec
    }

    /// Every bucket in the registry holds at most the burst capacity. A new
    /// registry is well formed, and no operation on a registry undoes that.
    pub open spec fn wf(&self) -> bool {
        forall|k: ClientKey| #[trigger] self@.contains_key(k) ==> self@[k].within(self.burst())
    }

    /// A registry without buckets. `burst` and `rate_per_sec` are in thousandths of
    /// a token and of a token per second.
    pub fn new(burst: u32, rate_per_sec: u32) -> (limiter: RateLimiter)
        ensures
            limiter.burst() == burst,
            limiter.rate_per_sec() == rate_per_sec,
            forall|k: ClientKey| !limiter@.contains_key(k),
            limiter.wf(),
    {
        RateLimiter { burst, rate_per_sec, buckets: registry_new() }
    }

    /// Burst capacity, in thousandths of a token.
    #[verifier::when_used_as_spec(spec_burst)]
    pub fn burst(&self) -> (b: u32)
        ensures
            b == self.spec_burst(),
    {
        self.burst
    }

    /// Refill rate, in thousandths of a token per second.
    #[verifier::when_used_as_spec(spec_rate_per_sec)]
    pub fn rate_per_sec(&self) -> (r: u32)
        ensures
            r == self.spec_rate_per_sec(),
    {
        self.rate_per_sec
    }

    /// The bucket on record for `key`, or `None` for an address not seen yet.
    pub fn peek(&self, key: ClientKey) -> (b: Option<TokenBucket>)
        ensures
            self@.contains_key(key) ==> b == Some(self@[key]),
            !self@.contains_key(key) ==> b is None,
    {
        registry_get(&self.buckets, (key.ip, key.port))
    }

    /// Decides on a request from `key` that arrives at `now`, in nanoseconds on the
    /// caller's clock. A new address starts with a full bucket. The bucket is
    /// refilled for the time since its last refill, up to the burst capacity; the
    /// request passes if a whole token is then there, and takes it. No other
    /// address's bucket is touched.
    pub fn allow(&mut self, key: ClientKey, now: u64) -> (admitted: bool)
        ensures
            final(self).burst() == old(self).burst(),
            final(self).rate_per_sec() == old(self).rate_per_sec(),
            admitted == registry_admits(
                old(self)@,
                key,
                now,
                old(self).burst(),
                old(self).rate_per_sec(),
            ),
            final(self)@ == registry_after(
                old(self)@,
                key,
                now,
                old(self).burst(),
                old(self).rate_per_sec(),
            ),
            old(self).wf() ==> final(self).wf(),
    {
        let slot = (key.ip, key.port);
        let fresh = TokenBucket::full(now, self.burst);
        let mut bucket = registry_entry_or_insert(&mut self.buckets, slot, fresh);
        let admitted = bucket.take(now, self.burst, self.rate_per_sec);
        registry_insert(&mut self.buckets, slot, bucket);
        admitted
    }
}

impl Default for RateLimiter {
    /// A registry without buckets, with the default burst capacity and refill rate.
    fn default() -> (limiter: RateLimiter)
        ensures
            limiter.burst() == DEFAULT_BURST,
            limiter.rate_per_sec() == DEFAULT_RATE_PER_SEC,
            forall|k: ClientKey| !limiter@.contains_key(k),
            limiter.wf(),
    {
        RateLimiter::new(DEFAULT_BURST, DEFAULT_RATE_PER_SEC)
    }
}

/// The answer to a request that exceeds its address's rate limit.
#[derive(Clone, Copy, Debug, PartialEq, Eq, Structural)]
pub struct RateLimited;

/// Admission control in front of both protocols: serves the request from `addr`
/// that arrives at `now`, and says whether it may go on to the login or is
/// turned away as rate limited. The registry changes as [`RateLimiter::allow`]
/// changes it.
pub fn ip_rate_limit(
    limiter: &mut RateLimiter,
    addr: ClientKey,
    now: u64,
) -> (verdict: Result<(), RateLimited>)
    ensures
        final(limiter).burst() == old(limiter).burst(),
        final(limiter).rate_per_sec() == old(limiter).rate_per_sec(),
        verdict is Ok <==> registry_admits(
            old(limiter)@,
            addr,
            now,
            old(limiter).burst(),
            old(limiter).rate_per_sec(),
        ),
        final(limiter)@ == registry_after(
            old(limiter)@,
            addr,
            now,
            old(limiter).burst(),
            old(limiter).rate_per_sec(),
        ),
        old(limiter).wf() ==> final(limiter).wf(),
{
    if limiter.allow(addr, now) {
        Ok(())
    } else {
        Err(RateLimited)
    }
}

} // verus!
