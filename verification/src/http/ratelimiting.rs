//! Rate-limit bookkeeping: the state of each bucket, the global guard, the
//! headers that feed them, and the decisions of one call: whether to wait or
//! send, and what to do with a response.
//!
//! Time is a number of milliseconds on a clock that the caller reads; it only
//! has to be monotonic. Nothing here sleeps or sends: a driver performs what
//! [`Ratelimiter::before_send`] asks for and hands each response to
//! [`Ratelimiter::after_response`].

use crate::http::error::{DispatchError, ErrorBody, NetworkError};
use crate::http::response::{classify, outcome_of, RawResponse, ResponseOutcome};
use crate::http::header::{find_header, header_value, HeaderField};
use crate::http::number::{millis_of, parse_millis, parse_u32, u32_of};
use crate::http::routing::{lemma_index_injective, BucketKey, RouteKind, ROUTE_KINDS};
use std::collections::HashMap;
use vstd::prelude::*;
use vstd::std_specs::hash::group_hash_axioms;
use vstd::string::StringSliceAdditionalSpecFns;

verus! {

broadcast use group_hash_axioms;

/// How many 429 responses a call takes before it gives up, unless the
/// ratelimiter was made with another cap.
pub const DEFAULT_RETRY_CAP: u32 = 5;

/// The instant `after_ms` milliseconds after `now`, or the end of time if
/// that is beyond it.
pub open spec fn deadline(now: u64, after_ms: u64) -> u64 {
    if now + after_ms > u64::MAX {
        u64::MAX
    } else {
        (now + after_ms) as u64
    }
}

/// Computes the instant `after_ms` milliseconds after `now`.
pub fn deadline_after(now: u64, after_ms: u64) -> (at: u64)
    ensures
        at == deadline(now, after_ms),
        at >= now,
{
    now.saturating_add(after_ms)
}

/// Whether a status is a success: 200 to 299.
pub open spec fn is_success(status: u16) -> bool {
    200 <= status <= 299
}

/// Whether a status is a server error: 500 to 599.
pub open spec fn is_server_error(status: u16) -> bool {
    500 <= status <= 599
}

/// The status of a response that was refused for the rate limit.
pub const TOO_MANY_REQUESTS: u16 = 429;

/// The throttling state of one bucket, as the server last reported it.
#[derive(Clone, Copy, Debug, PartialEq, Eq, Structural)]
pub struct BucketState {
    /// How many requests the bucket takes per window.
    pub limit: u32,
    /// How many requests are left in the current window.
    pub remaining: u32,
    /// When the window ends and the bucket is full again.
    pub reset_at: u64,
}

impl BucketState {
    /// The invariant of a bucket: no more requests are left than it takes.
    pub open spec fn wf(self) -> bool {
        self.remaining <= self.limit
    }

    /// The state of a bucket of which the server has said nothing yet: it
    /// holds nothing back.
    pub open spec fn fresh() -> BucketState {
        BucketState { limit: u32::MAX, remaining: u32::MAX, reset_at: 0 }
    }

    /// Whether a request must wait at `now`: nothing is left and the window
    /// has not ended.
    pub open spec fn exhausted_at(self, now: u64) -> bool {
        self.remaining == 0 && now < self.reset_at
    }

    /// The state after a response that reported `limit`, `remaining` and
    /// `reset_after_ms` at `now`. A report with more left than the limit is
    /// no report: the state stays.
    pub open spec fn updated(
        self,
        limit: u32,
        remaining: u32,
        reset_after_ms: u64,
        now: u64,
    ) -> BucketState {
        if remaining <= limit {
            BucketState { limit, remaining, reset_at: deadline(now, reset_after_ms) }
        } else {
            self
        }
    }

    /// The state after a 429 that asked to retry after `retry_after_ms`: the
    /// window ends then, whatever the other headers said.
    pub open spec fn throttled(self, retry_after_ms: u64, now: u64) -> BucketState {
        BucketState { reset_at: deadline(now, retry_after_ms), ..self }
    }

    /// A bucket of which the server has said nothing yet.
    pub fn new() -> (s: Self)
        ensures
            s == Self::fresh(),
            s.wf(),
            forall|now: u64| !s.exhausted_at(now),
    {
        BucketState { limit: u32::MAX, remaining: u32::MAX, reset_at: 0 }
    }

    /// Until when a request must wait at `now`: the end of the window if
    /// nothing is left and the window has not ended, else not at all.
    pub fn wait_until(&self, now: u64) -> (until: Option<u64>)
        ensures
            until == (if self.exhausted_at(now) {
                Some(self.reset_at)
            } else {
                None
            }),
            self.remaining > 0 ==> until.is_none(),
            until matches Some(t) ==> t > now,
    {
        if self.remaining == 0 && now < self.reset_at {
            Some(self.reset_at)
        } else {
            None
        }
    }

    /// Overwrites the state with what a response reported. The state is that
    /// of the last update applied, not a blend: `reset_at` is `now` plus
    /// `reset_after_ms`. Returns whether the report was taken; one with more
    /// left than the limit is not, and leaves the state as it was.
    pub fn apply_update(
        &mut self,
        limit: u32,
        remaining: u32,
        reset_after_ms: u64,
        now: u64,
    ) -> (applied: bool)
        ensures
            applied == (remaining <= limit),
            *final(self) == old(self).updated(limit, remaining, reset_after_ms, now),
            applied ==> final(self).limit == limit && final(self).remaining == remaining
                && final(self).reset_at == deadline(now, reset_after_ms),
            !applied ==> *final(self) == *old(self),
            old(self).wf() ==> final(self).wf(),
    {
        if remaining <= limit {
            *self = BucketState { limit, remaining, reset_at: deadline_after(now, reset_after_ms) };
            true
        } else {
            false
        }
    }

    /// Sets the end of the window to `retry_after_ms` after `now`, as a 429
    /// for this bucket asks.
    pub fn throttle(&mut self, retry_after_ms: u64, now: u64)
        ensures
            *final(self) == old(self).throttled(retry_after_ms, now),
            old(self).wf() ==> final(self).wf(),
    {
        self.reset_at = deadline_after(now, retry_after_ms);
    }
}

/// The platform-wide limit: while it is active and its deadline has not
/// passed, no request of any bucket is sent.
#[derive(Clone, Copy, Debug, PartialEq, Eq, Structural)]
pub struct GlobalGuard {
    pub active: bool,
    pub reset_at: u64,
}

impl GlobalGuard {
    /// The guard at rest.
    pub open spec fn inactive() -> GlobalGuard {
        GlobalGuard { active: false, reset_at: 0 }
    }

    /// Whether the guard holds requests back at `now`.
    pub open spec fn blocks_at(self, now: u64) -> bool {
        self.active && now < self.reset_at
    }

    /// The guard as it is once it has been consulted at `now`: cleared if its
    /// deadline has passed.
    pub open spec fn checked_at(self, now: u64) -> GlobalGuard {
        if self.active && now >= self.reset_at {
            GlobalGuard { active: false, reset_at: self.reset_at }
        } else {
            self
        }
    }

    /// The guard after a global 429 at `now` that asked to retry after
    /// `retry_after_ms`.
    pub open spec fn engaged(retry_after_ms: u64, now: u64) -> GlobalGuard {
        GlobalGuard { active: true, reset_at: deadline(now, retry_after_ms) }
    }

    /// A guard at rest.
    pub fn new() -> (g: Self)
        ensures
            g == Self::inactive(),
            forall|now: u64| !g.blocks_at(now),
    {
        GlobalGuard { active: false, reset_at: 0 }
    }

    /// Consults the guard at `now`: gives the deadline to wait for if it
    /// holds requests back, and clears it if its deadline has passed.
    pub fn check(&mut self, now: u64) -> (until: Option<u64>)
        ensures
            until == (if old(self).blocks_at(now) {
                Some(old(self).reset_at)
            } else {
                None
            }),
            *final(self) == old(self).checked_at(now),
            until.is_none() ==> !final(self).active,
            until matches Some(t) ==> t > now,
    {
        if self.active {
            if now < self.reset_at {
                return Some(self.reset_at);
            }
            self.active = false;
        }
        None
    }

    /// Activates the guard until `retry_after_ms` after `now`.
    pub fn engage(&mut self, retry_after_ms: u64, now: u64)
        ensures
            *final(self) == Self::engaged(retry_after_ms, now),
            forall|t: u64| now <= t && t < deadline(now, retry_after_ms)
                ==> final(self).blocks_at(t),
    {
        *self = GlobalGuard { active: true, reset_at: deadline_after(now, retry_after_ms) };
    }
}

/// What the rate-limit headers of a response say.
#[derive(Clone, Copy, Debug, PartialEq, Eq, Structural)]
pub struct RateLimitHeaders {
    /// `X-RateLimit-Limit`: how many requests the bucket takes.
    pub limit: Option<u32>,
    /// `X-RateLimit-Remaining`: how many requests are left in the window.
    pub remaining: Option<u32>,
    /// `X-RateLimit-Reset-After`: how long until the bucket is full again.
    pub reset_after_ms: Option<u64>,
    /// `Retry-After`: how long to wait after a 429.
    pub retry_after_ms: Option<u64>,
    /// `X-RateLimit-Global`: whether a 429 is platform-wide.
    pub global: bool,
}

/// The value of a header read as a `u32`, if the header is there and is one.
pub open spec fn header_u32(fields: Seq<HeaderField>, name: Seq<u8>) -> Option<u32> {
    match header_value(fields, name) {
        Some(v) => u32_of(v),
        None => None,
    }
}

/// The value of a header read as seconds and given in milliseconds, if the
/// header is there and is a number of seconds.
pub open spec fn header_millis(fields: Seq<HeaderField>, name: Seq<u8>) -> Option<u64> {
    match header_value(fields, name) {
        Some(v) => millis_of(v),
        None => None,
    }
}

/// Whether a header is there with the value `true`.
pub open spec fn header_true(fields: Seq<HeaderField>, name: Seq<u8>) -> bool {
    header_value(fields, name) == Some("true".spec_bytes())
}

/// What the header fields of a response say about the rate limit. Names are
/// matched without regard to case; a header that is missing or malformed says
/// nothing.
pub open spec fn rate_limits(fields: Seq<HeaderField>) -> RateLimitHeaders {
    RateLimitHeaders {
        limit: header_u32(fields, "x-ratelimit-limit".spec_bytes()),
        remaining: header_u32(fields, "x-ratelimit-remaining".spec_bytes()),
        reset_after_ms: header_millis(fields, "x-ratelimit-reset-after".spec_bytes()),
        retry_after_ms: header_millis(fields, "retry-after".spec_bytes()),
        global: header_true(fields, "x-ratelimit-global".spec_bytes()),
    }
}

fn read_u32(fields: &Vec<HeaderField>, name: &str) -> (r: Option<u32>)
    ensures
        r == header_u32(fields@, name.spec_bytes()),
{
    match find_header(fields, name.as_bytes()) {
        Some(v) => parse_u32(v.as_slice()),
        None => None,
    }
}

fn read_millis(fields: &Vec<HeaderField>, name: &str) -> (r: Option<u64>)
    ensures
        r == header_millis(fields@, name.spec_bytes()),
{
    match find_header(fields, name.as_bytes()) {
        Some(v) => parse_millis(v.as_slice()),
        None => None,
    }
}

fn bytes_equal(a: &[u8], b: &[u8]) -> (r: bool)
    ensures
        r == (a@ == b@),
{
    if a.len() != b.len() {
        return false;
    }
    let mut i: usize = 0;
    while i < a.len()
        invariant
            0 <= i <= a.len(),
            a.len() == b.len(),
            forall|j: int| 0 <= j < i ==> a@[j] == b@[j],
        decreases a.len() - i,
    {
        if a[i] != b[i] {
            return false;
        }
        i += 1;
    }
    assert(a@ =~= b@);
    true
}

fn read_true(fields: &Vec<HeaderField>, name: &str) -> (r: bool)
    ensures
        r == header_true(fields@, name.spec_bytes()),
{
    match find_header(fields, name.as_bytes()) {
        Some(v) => bytes_equal(v.as_slice(), "true".as_bytes()),
        None => false,
    }
}

impl RateLimitHeaders {
    /// Reads the rate-limit headers of a response.
    pub fn parse(fields: &Vec<HeaderField>) -> (h: Self)
        ensures
            h == rate_limits(fields@),
    {
        RateLimitHeaders {
            limit: read_u32(fields, "x-ratelimit-limit"),
            remaining: read_u32(fields, "x-ratelimit-remaining"),
            reset_after_ms: read_millis(fields, "x-ratelimit-reset-after"),
            retry_after_ms: read_millis(fields, "retry-after"),
            global: read_true(fields, "x-ratelimit-global"),
        }
    }

    /// The state of a bucket after a response with these headers at `now`:
    /// overwritten if limit, remaining and reset-after are all there, else as
    /// it was.
    pub open spec fn update(self, state: BucketState, now: u64) -> BucketState {
        match (self.limit, self.remaining, self.reset_after_ms) {
            (Some(limit), Some(remaining), Some(reset_after_ms)) => state.updated(
                limit,
                remaining,
                reset_after_ms,
                now,
            ),
            _ => state,
        }
    }
}

/// The opaque id that the server gives the bucket of a response, if it sent
/// one. It is for diagnostics only and takes no part in any decision.
pub fn bucket_id<'a>(fields: &'a Vec<HeaderField>) -> (id: Option<&'a Vec<u8>>)
    ensures
        match id {
            Some(v) => header_value(fields@, "x-ratelimit-bucket".spec_bytes()) == Some(v@),
            None => header_value(fields@, "x-ratelimit-bucket".spec_bytes()).is_none(),
        },
{
    find_header(fields, "x-ratelimit-bucket".as_bytes())
}

/// The number under which a bucket is filed: the position of its template
/// and its major parameter, packed so that different buckets get different
/// numbers.
pub open spec fn bucket_code(key: BucketKey) -> u128 {
    (key.kind.index() as u128 * 0x2_0000_0000_0000_0000 + (match key.major {
        Some(m) => 0x1_0000_0000_0000_0000 + m as u128,
        None => 0,
    })) as u128
}

/// Different buckets are filed under different numbers.
pub proof fn lemma_bucket_code_injective(a: BucketKey, b: BucketKey)
    requires
        bucket_code(a) == bucket_code(b),
    ensures
        a == b,
{
    assert(a.kind.index() < ROUTE_KINDS && b.kind.index() < ROUTE_KINDS);
    lemma_index_injective(a.kind, b.kind);
}

fn code_of(key: BucketKey) -> (c: u128)
    ensures
        c == bucket_code(key),
{
    let low: u128 = match key.major {
        Some(m) => 0x1_0000_0000_0000_0000 + m as u128,
        None => 0,
    };
    key.kind.ordinal() as u128 * 0x2_0000_0000_0000_0000 + low
}

/// What a driver must do before it may send.
#[derive(Clone, Copy, Debug, PartialEq, Eq, Structural)]
pub enum Step {
    /// The bucket has nothing left: sleep until `until`, keeping the bucket,
    /// then ask again.
    WaitBucket { until: u64 },
    /// The global limit is active: sleep until `until`, then ask again.
    WaitGlobal { until: u64 },
    /// Send the request now.
    Send,
}

/// What a driver must do after an exchange.
#[derive(Debug)]
pub enum Verdict {
    /// The call is over, with this result.
    Done(Result<RawResponse, DispatchError>),
    /// The server answered 429 and the cap is not reached: go back to
    /// [`Ratelimiter::before_send`] and send again as attempt `attempt`.
    /// `delay_ms` is the wait that the server asked for.
    Retry { attempt: u32, delay_ms: u64 },
}

/// The rate-limit state of a dispatcher as a mathematical value: what
/// [`Ratelimiter`] stands for.
pub struct Limits {
    /// The state of each bucket that has been used.
    pub buckets: Map<BucketKey, BucketState>,
    /// The global guard.
    pub global: GlobalGuard,
    /// How many 429 responses a call takes before it gives up.
    pub retry_cap: u32,
    /// Whether throttling is left to someone else.
    pub disabled: bool,
}

impl Limits {
    /// The invariant of the state: the cap is at least one, and every bucket
    /// keeps its own invariant.
    pub open spec fn wf(self) -> bool {
        &&& self.retry_cap >= 1
        &&& forall|k: BucketKey| #[trigger] self.buckets.contains_key(k) ==> self.buckets[k].wf()
    }

    /// The state of a bucket: what is recorded for it, or the fresh state if
    /// it has not been used.
    pub open spec fn bucket(self, key: BucketKey) -> BucketState {
        if self.buckets.contains_key(key) {
            self.buckets[key]
        } else {
            BucketState::fresh()
        }
    }

    /// What a request for `key` must do at `now`. With throttling disabled it
    /// is always sent. Otherwise it waits for its bucket if nothing is left
    /// there, else for the global limit if that is active, else it is sent.
    pub open spec fn next_step(self, key: BucketKey, now: u64) -> Step {
        if self.disabled {
            Step::Send
        } else if self.bucket(key).exhausted_at(now) {
            Step::WaitBucket { until: self.bucket(key).reset_at }
        } else if self.global.blocks_at(now) {
            Step::WaitGlobal { until: self.global.reset_at }
        } else {
            Step::Send
        }
    }

    /// The state after a request for `key` has asked at `now` what to do:
    /// the bucket exists from then on, and the global guard is cleared if its
    /// deadline has passed. With throttling disabled nothing is touched.
    pub open spec fn after_ask(self, key: BucketKey, now: u64) -> Limits {
        if self.disabled {
            self
        } else {
            Limits {
                buckets: self.buckets.insert(key, self.bucket(key)),
                global: self.global.checked_at(now),
                ..self
            }
        }
    }

    /// Whether a response is a 429 that this state acts on.
    pub open spec fn throttles(self, raw: RawResponse) -> bool {
        raw.status == TOO_MANY_REQUESTS && !self.disabled
    }

    /// The state of the bucket `key` after an exchange at `now`. The headers
    /// of a response overwrite it; a 429 for the bucket alone then sets the
    /// end of its window to what `Retry-After` asks for. No response, no
    /// change.
    pub open spec fn bucket_after(
        self,
        key: BucketKey,
        exchange: Result<RawResponse, NetworkError>,
        now: u64,
    ) -> BucketState {
        match exchange {
            Err(_) => self.bucket(key),
            Ok(raw) => {
                let h = rate_limits(raw.headers@);
                let reported = h.update(self.bucket(key), now);
                match h.retry_after_ms {
                    Some(d) if self.throttles(raw) && !h.global => reported.throttled(d, now),
                    _ => reported,
                }
            },
        }
    }

    /// The global guard after an exchange at `now`: activated by a global
    /// 429 until what `Retry-After` asks for, else as it was.
    pub open spec fn global_after(
        self,
        exchange: Result<RawResponse, NetworkError>,
        now: u64,
    ) -> GlobalGuard {
        match exchange {
            Err(_) => self.global,
            Ok(raw) => {
                let h = rate_limits(raw.headers@);
                match h.retry_after_ms {
                    Some(d) if self.throttles(raw) && h.global => GlobalGuard::engaged(d, now),
                    _ => self.global,
                }
            },
        }
    }

    /// The state after an exchange for `key` at `now`. Only a completed
    /// exchange writes: a transport failure leaves everything as it was.
    pub open spec fn after_exchange(
        self,
        key: BucketKey,
        exchange: Result<RawResponse, NetworkError>,
        now: u64,
    ) -> Limits {
        match exchange {
            Err(_) => self,
            Ok(_) => Limits {
                buckets: self.buckets.insert(key, self.bucket_after(key, exchange, now)),
                global: self.global_after(exchange, now),
                ..self
            },
        }
    }

    /// Whether a call that has just seen its 429 as attempt `attempt` has
    /// reached the cap. Attempts count from 0.
    pub open spec fn cap_reached(self, attempt: u32) -> bool {
        attempt + 1 >= self.retry_cap
    }

    /// What a call does with the outcome of its attempt `attempt`. A success
    /// ends it with the response. A 429 is retried unless the cap is reached
    /// or throttling is disabled; then the call ends as rate limited. Every
    /// other outcome ends the call with its error: none of them is retried.
    pub open spec fn verdict(self, attempt: u32, outcome: ResponseOutcome) -> Verdict {
        match outcome {
            ResponseOutcome::Success(raw) => Verdict::Done(Ok(raw)),
            ResponseOutcome::RateLimited { retry_after_ms, is_global } => if self.disabled
                || self.cap_reached(attempt) {
                Verdict::Done(Err(DispatchError::RateLimited { retry_after_ms, global: is_global }))
            } else {
                Verdict::Retry { attempt: (attempt + 1) as u32, delay_ms: retry_after_ms }
            },
            ResponseOutcome::ClientError { status, body } => Verdict::Done(
                Err(DispatchError::ClientError { status, body }),
            ),
            ResponseOutcome::ServerError { status, body } => Verdict::Done(
                Err(DispatchError::ServerError { status, body }),
            ),
            ResponseOutcome::Network(e) => Verdict::Done(Err(DispatchError::Network(e))),
        }
    }

    /// How a call ends whose sends, from attempt `attempt` on, come to
    /// `outcomes` in this order: the number of sends it makes and its result.
    /// Nothing if the outcomes run out before the call is over.
    pub open spec fn call_end(
        self,
        attempt: u32,
        outcomes: Seq<ResponseOutcome>,
    ) -> Option<(nat, Result<RawResponse, DispatchError>)>
        decreases outcomes.len(),
    {
        if outcomes.len() == 0 {
            None
        } else {
            match self.verdict(attempt, outcomes[0]) {
                Verdict::Done(result) => Some((1nat, result)),
                Verdict::Retry { attempt: next, .. } => match self.call_end(next, outcomes.skip(1)) {
                    Some((sends, result)) => Some((sends + 1, result)),
                    None => None,
                },
            }
        }
    }
}

/// The rate-limit state of one dispatcher: its buckets, its global guard and
/// its settings. It is owned by the dispatcher that it belongs to, so several
/// dispatchers in one process do not share limits.
pub struct Ratelimiter {
    buckets: HashMap<u128, BucketState>,
    global: GlobalGuard,
    retry_cap: u32,
    disabled: bool,
}

impl View for Ratelimiter {
    type V = Limits;

    closed spec fn view(&self) -> Limits {
        Limits {
            buckets: Map::new(
                |k: BucketKey| self.buckets@.contains_key(bucket_code(k)),
                |k: BucketKey| self.buckets@[bucket_code(k)],
            ),
            global: self.global,
            retry_cap: self.retry_cap,
            disabled: self.disabled,
        }
    }
}

impl Ratelimiter {
    #[verifier::type_invariant]
    spec fn inv(self) -> bool {
        &&& self.retry_cap >= 1
        &&& forall|c: u128| #[trigger] self.buckets@.contains_key(c) ==> self.buckets@[c].wf()
    }

    /// A ratelimiter with no bucket used yet, the guard at rest, and the
    /// default cap.
    pub fn new() -> (r: Self)
        ensures
            r@ == Self::initial(false),
            r@.buckets == Map::<BucketKey, BucketState>::empty(),
            r@.global == GlobalGuard::inactive(),
            r@.retry_cap == DEFAULT_RETRY_CAP,
            !r@.disabled,
            r@.wf(),
    {
        let r = Ratelimiter {
            buckets: HashMap::new(),
            global: GlobalGuard::new(),
            retry_cap: DEFAULT_RETRY_CAP,
            disabled: false,
        };
        assert(r@.buckets =~= Map::<BucketKey, BucketState>::empty());
        r
    }

    /// A ratelimiter like a new one, with the cap and the mode given. A cap
    /// of 0 cannot be: a call sends at least once.
    pub fn with_settings(retry_cap: u32, disabled: bool) -> (r: Self)
        requires
            retry_cap >= 1,
        ensures
            r@.buckets == Map::<BucketKey, BucketState>::empty(),
            r@.global == GlobalGuard::inactive(),
            r@.retry_cap == retry_cap,
            r@.disabled == disabled,
            r@.wf(),
    {
        let r = Ratelimiter { buckets: HashMap::new(), global: GlobalGuard::new(), retry_cap, disabled };
        assert(r@.buckets =~= Map::<BucketKey, BucketState>::empty());
        r
    }

    /// The state of a ratelimiter that was just made, in the mode given.
    pub open spec fn initial(disabled: bool) -> Limits {
        Limits {
            buckets: Map::empty(),
            global: GlobalGuard::inactive(),
            retry_cap: DEFAULT_RETRY_CAP,
            disabled,
        }
    }

    /// Sets whether throttling is left to someone else. The recorded limits
    /// stay as they are.
    pub fn set_disabled(&mut self, disabled: bool)
        ensures
            final(self)@ == (Limits { disabled, ..old(self)@ }),
            final(self)@.wf() == old(self)@.wf(),
    {
        proof {
            use_type_invariant(&*self);
        }
        self.disabled = disabled;
    }

    /// Whether throttling is left to someone else.
    pub fn is_disabled(&self) -> (d: bool)
        ensures
            d == self@.disabled,
    {
        self.disabled
    }

    /// How many 429 responses a call takes before it gives up.
    pub fn retry_cap(&self) -> (cap: u32)
        ensures
            cap == self@.retry_cap,
            cap >= 1,
    {
        proof {
            use_type_invariant(self);
        }
        self.retry_cap
    }

    /// The global guard as it is.
    pub fn global(&self) -> (g: GlobalGuard)
        ensures
            g == self@.global,
    {
        self.global
    }

    /// The state of a bucket, fresh if it has not been used. Nothing is
    /// created.
    pub fn bucket(&self, key: BucketKey) -> (s: BucketState)
        ensures
            s == self@.bucket(key),
            s.wf(),
            self@.wf(),
    {
        proof {
            use_type_invariant(self);
            self.lemma_view_wf();
        }
        let code = code_of(key);
        match self.buckets.get(&code) {
            Some(s) => *s,
            None => BucketState::new(),
        }
    }

    proof fn lemma_view_wf(&self)
        requires
            self.inv(),
        ensures
            self@.wf(),
    {
    }

    fn store(&mut self, key: BucketKey, state: BucketState)
        requires
            state.wf(),
        ensures
            final(self)@
                == (Limits { buckets: old(self)@.buckets.insert(key, state), ..old(self)@ }),
    {
        proof {
            use_type_invariant(&*self);
        }
        let code = code_of(key);
        let mut taken = Ratelimiter {
            buckets: HashMap::new(),
            global: self.global,
            retry_cap: self.retry_cap,
            disabled: self.disabled,
        };
        std::mem::swap(self, &mut taken);
        let Ratelimiter { buckets, global, retry_cap, disabled } = taken;
        let mut buckets = buckets;
        buckets.insert(code, state);
        *self = Ratelimiter { buckets, global, retry_cap, disabled };
        proof {
            assert forall|k: BucketKey| bucket_code(k) == bucket_code(key) implies k == key by {
                lemma_bucket_code_injective(k, key);
            }
            assert(self@.buckets =~= old(self)@.buckets.insert(key, state));
        }
    }

    /// Gives the state of a bucket, creating it fresh on first use.
    pub fn get_or_create(&mut self, key: BucketKey) -> (s: BucketState)
        ensures
            s == old(self)@.bucket(key),
            final(self)@ == (Limits { buckets: old(self)@.buckets.insert(key, s), ..old(self)@ }),
            final(self)@.buckets.contains_key(key),
            final(self)@.wf(),
    {
        let s = self.bucket(key);
        self.store(key, s);
        proof {
            use_type_invariant(&*self);
            self.lemma_view_wf();
        }
        s
    }

    /// Overwrites the state of a bucket with what a response reported at
    /// `now`, as [`BucketState::apply_update`] does. Other buckets and the
    /// global guard stay as they are.
    pub fn apply_update(
        &mut self,
        key: BucketKey,
        limit: u32,
        remaining: u32,
        reset_after_ms: u64,
        now: u64,
    ) -> (applied: bool)
        ensures
            applied == (remaining <= limit),
            final(self)@ == (Limits {
                buckets: old(self)@.buckets.insert(
                    key,
                    old(self)@.bucket(key).updated(limit, remaining, reset_after_ms, now),
                ),
                ..old(self)@
            }),
            forall|other: BucketKey| other != key
                ==> final(self)@.bucket(other) == old(self)@.bucket(other),
            final(self)@.wf(),
    {
        let mut s = self.bucket(key);
        let applied = s.apply_update(limit, remaining, reset_after_ms, now);
        self.store(key, s);
        proof {
            use_type_invariant(&*self);
            self.lemma_view_wf();
        }
        applied
    }

    /// Decides what a request for `key` does at `now`: wait for its bucket,
    /// wait for the global limit, or be sent. After a wait the driver asks
    /// again. With throttling disabled the answer is always to send, and
    /// nothing is touched.
    pub fn before_send(&mut self, key: BucketKey, now: u64) -> (step: Step)
        ensures
            step == old(self)@.next_step(key, now),
            final(self)@ == old(self)@.after_ask(key, now),
            old(self)@.disabled ==> step == Step::Send,
            step matches Step::WaitBucket { until }
                ==> until > now && until == old(self)@.bucket(key).reset_at,
            step matches Step::WaitGlobal { until }
                ==> until > now && until == old(self)@.global.reset_at,
            final(self)@.wf(),
    {
        proof {
            use_type_invariant(&*self);
            self.lemma_view_wf();
        }
        if self.disabled {
            return Step::Send;
        }
        let state = self.get_or_create(key);
        let ghost mid = self@;
        let step = match state.wait_until(now) {
            Some(until) => Step::WaitBucket { until },
            None => Step::Send,
        };
        proof {
            use_type_invariant(&*self);
        }
        let mut guard = self.global;
        let held = guard.check(now);
        self.global = guard;
        proof {
            use_type_invariant(&*self);
            self.lemma_view_wf();
            assert(self@.buckets =~= mid.buckets);
        }
        match step {
            Step::Send => match held {
                Some(until) => Step::WaitGlobal { until },
                None => Step::Send,
            },
            _ => step,
        }
    }

    /// Takes in the exchange of attempt `attempt` for `key`, completed at
    /// `now`, and decides how the call goes on. The headers of a response
    /// update the bucket, in every mode; a 429 sets the bucket's or the
    /// global deadline unless throttling is disabled. `error` is the decoded
    /// body of an unsuccessful response, if it could be decoded.
    pub fn after_response(
        &mut self,
        key: BucketKey,
        attempt: u32,
        exchange: Result<RawResponse, NetworkError>,
        error: Option<ErrorBody>,
        now: u64,
    ) -> (verdict: Verdict)
        ensures
            final(self)@ == old(self)@.after_exchange(key, exchange, now),
            verdict == old(self)@.verdict(attempt, outcome_of(exchange, error)),
            final(self)@.wf(),
    {
        proof {
            use_type_invariant(&*self);
            self.lemma_view_wf();
        }
        if let Ok(raw) = &exchange {
            let h = raw.rate_limits();
            let mut state = self.bucket(key);
            match (h.limit, h.remaining, h.reset_after_ms) {
                (Some(limit), Some(remaining), Some(reset_after_ms)) => {
                    state.apply_update(limit, remaining, reset_after_ms, now);
                },
                _ => {},
            }
            let throttles = raw.status == TOO_MANY_REQUESTS && !self.disabled;
            if throttles {
                if let Some(d) = h.retry_after_ms {
                    if h.global {
                        let mut guard = self.global;
                        guard.engage(d, now);
                        self.global = guard;
                    } else {
                        state.throttle(d, now);
                    }
                }
            }
            self.store(key, state);
            proof {
                use_type_invariant(&*self);
                self.lemma_view_wf();
            }
        }
        let cap_reached = attempt >= self.retry_cap - 1;
        let disabled = self.disabled;
        match classify(exchange, error) {
            ResponseOutcome::Success(raw) => Verdict::Done(Ok(raw)),
            ResponseOutcome::RateLimited { retry_after_ms, is_global } => {
                if disabled || cap_reached {
                    Verdict::Done(Err(DispatchError::RateLimited { retry_after_ms, global: is_global }))
                } else {
                    Verdict::Retry { attempt: attempt + 1, delay_ms: retry_after_ms }
                }
            },
            ResponseOutcome::ClientError { status, body } => Verdict::Done(
                Err(DispatchError::ClientError { status, body }),
            ),
            ResponseOutcome::ServerError { status, body } => Verdict::Done(
                Err(DispatchError::ServerError { status, body }),
            ),
            ResponseOutcome::Network(e) => Verdict::Done(Err(DispatchError::Network(e))),
        }
    }
}

/// While a bucket has requests left, no request waits for it. Once none is
/// left, every request before the end of the window waits until that end.
pub proof fn lemma_bucket_gate(limits: Limits, key: BucketKey, now: u64)
    requires
        !limits.disabled,
    ensures
        limits.bucket(key).remaining > 0 ==> !(limits.next_step(key, now) is WaitBucket),
        limits.bucket(key).remaining == 0 && now < limits.bucket(key).reset_at ==> limits.next_step(
            key,
            now,
        ) == (Step::WaitBucket { until: limits.bucket(key).reset_at }),
        limits.bucket(key).reset_at <= now ==> !(limits.next_step(key, now) is WaitBucket),
{
}

/// After a response that is no 429 and reports what is left in a bucket, the
/// next request for the bucket goes by that report: with something left it
/// does not wait for the bucket, with nothing left it waits until the end of
/// the reported window.
pub proof fn lemma_report_decides_next(
    limits: Limits,
    key: BucketKey,
    raw: RawResponse,
    now: u64,
    later: u64,
)
    requires
        !limits.disabled,
        raw.status != TOO_MANY_REQUESTS,
        rate_limits(raw.headers@).limit is Some,
        rate_limits(raw.headers@).remaining is Some,
        rate_limits(raw.headers@).reset_after_ms is Some,
        rate_limits(raw.headers@).remaining->0 <= rate_limits(raw.headers@).limit->0,
        now <= later,
    ensures
        ({
            let h = rate_limits(raw.headers@);
            let after = limits.after_exchange(key, Ok(raw), now);
            &&& after.bucket(key) == (BucketState {
                limit: h.limit->0,
                remaining: h.remaining->0,
                reset_at: deadline(now, h.reset_after_ms->0),
            })
            &&& h.remaining->0 > 0 ==> !(after.next_step(key, later) is WaitBucket)
            &&& h.remaining->0 == 0 && later < deadline(now, h.reset_after_ms->0)
                ==> after.next_step(key, later)
                == (Step::WaitBucket { until: deadline(now, h.reset_after_ms->0) })
        }),
{
}

/// A global 429 holds back every bucket. After a 429 marked global that asks
/// to retry after some time, no request of any bucket is sent before that
/// time has passed; once it has, a request whose own bucket has something
/// left is sent at once.
pub proof fn lemma_global_limit_holds_every_bucket(
    limits: Limits,
    key: BucketKey,
    raw: RawResponse,
    now: u64,
    other: BucketKey,
    later: u64,
)
    requires
        !limits.disabled,
        raw.status == TOO_MANY_REQUESTS,
        rate_limits(raw.headers@).global,
        rate_limits(raw.headers@).retry_after_ms is Some,
        now <= later,
    ensures
        ({
            let until = deadline(now, rate_limits(raw.headers@).retry_after_ms->0);
            let after = limits.after_exchange(key, Ok(raw), now);
            &&& after.global == (GlobalGuard { active: true, reset_at: until })
            &&& later < until ==> after.next_step(other, later) != Step::Send
            &&& later < until
                ==> (after.next_step(other, later) matches Step::WaitGlobal { until: u } ==> u
                == until)
            &&& later < until && !after.bucket(other).exhausted_at(later)
                ==> after.next_step(other, later) == (
            Step::WaitGlobal { until })
            &&& later >= until && !after.bucket(other).exhausted_at(later)
                ==> after.next_step(other, later)
                == Step::Send
        }),
{
}

/// Buckets do not touch each other. An exchange for one bucket leaves the
/// state of every other bucket as it was, and unless it was a global 429 it
/// leaves the decision for every other bucket as it was too.
pub proof fn lemma_buckets_are_independent(
    limits: Limits,
    key: BucketKey,
    exchange: Result<RawResponse, NetworkError>,
    now: u64,
    other: BucketKey,
    later: u64,
)
    requires
        other != key,
    ensures
        limits.after_exchange(key, exchange, now).bucket(other) == limits.bucket(other),
        limits.after_ask(key, now).bucket(other) == limits.bucket(other),
        limits.global_after(exchange, now) == limits.global ==> limits.after_exchange(
            key,
            exchange,
            now,
        ).next_step(other, later) == limits.next_step(other, later),
{
}

/// Two buckets that both have something left are both sent at once while the
/// global limit is at rest: neither waits for the other.
pub proof fn lemma_unexhausted_buckets_proceed(limits: Limits, a: BucketKey, b: BucketKey, now: u64)
    requires
        !limits.global.blocks_at(now),
        !limits.bucket(a).exhausted_at(now),
        !limits.bucket(b).exhausted_at(now),
    ensures
        limits.next_step(a, now) == Step::Send,
        limits.after_ask(a, now).next_step(b, now) == Step::Send,
{
}

/// With throttling disabled no request ever waits, also with nothing left in
/// its bucket and with the global limit active, while the headers of each
/// response are still taken into the bucket's state.
pub proof fn lemma_disabled_never_waits(
    limits: Limits,
    key: BucketKey,
    raw: RawResponse,
    now: u64,
    later: u64,
)
    requires
        limits.disabled,
    ensures
        limits.next_step(key, now) == Step::Send,
        limits.after_ask(key, now) == limits,
        limits.after_exchange(key, Ok(raw), now).next_step(key, later) == Step::Send,
        limits.after_exchange(key, Ok(raw), now).bucket(key) == rate_limits(raw.headers@).update(
            limits.bucket(key),
            now,
        ),
        limits.after_exchange(key, Ok(raw), now).global == limits.global,
{
}

/// A call gives up at the cap. If the server answers 429 to a call every
/// time, the call ends as rate limited with its K-th send, K being the cap,
/// and does not send a (K+1)-th time. `attempt` is the attempt that the
/// outcomes start at: the law is stated for a call at any point before the
/// cap, and for a whole call with `attempt` 0.
pub proof fn lemma_gives_up_at_cap(limits: Limits, attempt: u32, outcomes: Seq<ResponseOutcome>)
    requires
        limits.retry_cap >= 1,
        !limits.disabled,
        attempt < limits.retry_cap,
        outcomes.len() >= limits.retry_cap - attempt,
        forall|i: int| 0 <= i < limits.retry_cap - attempt
            ==> (#[trigger] outcomes[i]) is RateLimited,
    ensures
        limits.call_end(attempt, outcomes) == Some(
            (
                (limits.retry_cap - attempt) as nat,
                Err::<RawResponse, DispatchError>(
                    DispatchError::RateLimited {
                        retry_after_ms: outcomes[limits.retry_cap - attempt - 1]->RateLimited_retry_after_ms,
                        global: outcomes[limits.retry_cap - attempt - 1]->RateLimited_is_global,
                    },
                ),
            ),
        ),
    decreases limits.retry_cap - attempt,
{
    if attempt + 1 < limits.retry_cap {
        let rest = outcomes.skip(1);
        assert forall|i: int| 0 <= i < limits.retry_cap - (attempt + 1) implies (
            #[trigger] rest[i]
        ) is RateLimited by {
            assert(rest[i] == outcomes[i + 1]);
        }
        lemma_gives_up_at_cap(limits, (attempt + 1) as u32, rest);
        assert(rest[limits.retry_cap - (attempt + 1) - 1]
            == outcomes[limits.retry_cap - attempt - 1]);
    }
}

/// Before the cap a 429 is retried: the attempt after it is the next one.
pub proof fn lemma_retries_below_cap(limits: Limits, attempt: u32, retry_after_ms: u64, is_global: bool)
    requires
        !limits.disabled,
        attempt + 1 < limits.retry_cap,
    ensures
        limits.verdict(attempt, ResponseOutcome::RateLimited { retry_after_ms, is_global })
            == (Verdict::Retry {
            attempt: (attempt + 1) as u32,
            delay_ms: retry_after_ms,
        }),
{
}

/// Only a 429 is retried: every other outcome ends the call at once.
pub proof fn lemma_only_429_is_retried(limits: Limits, attempt: u32, outcome: ResponseOutcome)
    requires
        !(outcome is RateLimited),
    ensures
        limits.verdict(attempt, outcome) is Done,
        limits.call_end(attempt, seq![outcome]) matches Some((sends, _)) && sends == 1,
{
}

/// Asking writes nothing that counts. A request that has asked what to do
/// and then goes away, without an exchange, leaves every later decision as
/// it would have been: for every bucket and every later time the answer is
/// the same, and so is the state of every bucket.
pub proof fn lemma_asking_decides_nothing(
    limits: Limits,
    key: BucketKey,
    now: u64,
    other: BucketKey,
    later: u64,
)
    requires
        now <= later,
    ensures
        limits.after_ask(key, now).bucket(other) == limits.bucket(other),
        limits.after_ask(key, now).next_step(other, later) == limits.next_step(other, later),
        limits.after_ask(key, now).global.blocks_at(later) == limits.global.blocks_at(later),
{
}

/// A transport failure writes nothing: the state is as it was before the
/// send.
pub proof fn lemma_failure_writes_nothing(limits: Limits, key: BucketKey, e: NetworkError, now: u64)
    ensures
        limits.after_exchange(key, Err(e), now) == limits,
{
}

/// The invariant is kept by every step.
pub proof fn lemma_steps_keep_invariant(
    limits: Limits,
    key: BucketKey,
    exchange: Result<RawResponse, NetworkError>,
    now: u64,
)
    requires
        limits.wf(),
    ensures
        limits.after_ask(key, now).wf(),
        limits.after_exchange(key, exchange, now).wf(),
{
}

} // verus!
