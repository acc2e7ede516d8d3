//! Client side rate limiting.
//!
//! Crossref publishes the budget it grants a client on every response
//! (`x-rate-limit-limit` and `x-rate-limit-interval`) and expects clients to
//! stay inside it; going over earns a `429`. [`Pacer`] spaces requests evenly
//! across the reported interval and re-reads the budget from every response,
//! so a client that moves between the anonymous and the polite pool adapts on
//! its own.
//!
//! Time is counted in nanoseconds from an origin the caller picks, the moment
//! its pacer was made being the natural one.

use vstd::prelude::*;
use crate::error::Error;
use crate::numbers::{parse_u32, parse_u64, parsed_u32, parsed_u64, trim, trimmed, ascii_digit};
use crate::text::{chars_of, option_text, push_char, str_eq};

verus! {

/// Nanoseconds in a second.
pub const NANOS_PER_SEC: u128 = 1_000_000_000;

/// The longest span a [`Duration`] holds: `u64::MAX` seconds and the
/// nanoseconds of one more second but one.
pub open spec fn max_nanos() -> nat {
    18446744073709551615999999999nat
}

/// A span of time, to the nanosecond, as long as `std::time::Duration` holds.
#[derive(Debug, Clone, Copy, PartialEq, Eq, Structural)]
pub struct Duration {
    nanos: u128,
}

impl Duration {
    /// The span fits where `std::time::Duration` does.
    #[verifier::type_invariant]
    spec fn fits(self) -> bool {
        self.nanos <= max_nanos()
    }

    /// The span in nanoseconds.
    pub closed spec fn spec_nanos(self) -> nat {
        self.nanos as nat
    }

    /// A span of `nanos` nanoseconds.
    pub fn from_total_nanos(nanos: u128) -> (r: Duration)
        requires
            nanos <= max_nanos(),
        ensures
            r.spec_nanos() == nanos,
    {
        Duration { nanos }
    }

    /// A span of `secs` seconds.
    pub fn from_secs(secs: u64) -> (r: Duration)
        ensures
            r.spec_nanos() == secs * 1_000_000_000,
    {
        assert((secs as u128) * 1_000_000_000 <= max_nanos()) by (nonlinear_arith);
        Duration { nanos: (secs as u128) * NANOS_PER_SEC }
    }

    /// A span of `millis` milliseconds.
    pub fn from_millis(millis: u64) -> (r: Duration)
        ensures
            r.spec_nanos() == millis * 1_000_000,
    {
        assert((millis as u128) * 1_000_000 <= max_nanos()) by (nonlinear_arith);
        Duration { nanos: (millis as u128) * 1_000_000 }
    }

    /// The span in nanoseconds.
    pub fn as_nanos(&self) -> (r: u128)
        ensures
            r == self.spec_nanos(),
    {
        self.nanos
    }

    /// The whole seconds of the span.
    pub fn as_secs(&self) -> (r: u64)
        ensures
            r == self.spec_nanos() / 1_000_000_000,
    {
        proof {
            use_type_invariant(self);
        }
        (self.nanos / NANOS_PER_SEC) as u64
    }

    /// The nanoseconds of the span past its whole seconds.
    pub fn subsec_nanos(&self) -> (r: u32)
        ensures
            r == self.spec_nanos() % 1_000_000_000,
    {
        (self.nanos % NANOS_PER_SEC) as u32
    }

    /// The span divided into `parts` equal parts, rounded down to the
    /// nanosecond, as `Duration / u32` divides.
    pub fn divided(&self, parts: u32) -> (r: Duration)
        requires
            parts > 0,
        ensures
            r.spec_nanos() == self.spec_nanos() / (parts as nat),
    {
        proof {
            use_type_invariant(self);
        }
        assert(self.nanos / (parts as u128) <= self.nanos) by (nonlinear_arith)
            requires
                parts > 0,
        ;
        Duration { nanos: self.nanos / (parts as u128) }
    }

    /// The span `times` times over, or [`None`] where that is longer than a
    /// duration holds.
    pub fn checked_times(&self, times: u32) -> (r: Option<Duration>)
        ensures
            match r {
                Some(d) => d.spec_nanos() == self.spec_nanos() * times,
                None => self.spec_nanos() * times > max_nanos(),
            },
    {
        proof {
            use_type_invariant(self);
        }
        assert(self.nanos * (times as u128) <= max_nanos() * 4294967295) by (nonlinear_arith)
            requires
                self.nanos <= max_nanos(),
                times <= 4294967295,
        ;
        let total = self.nanos * (times as u128);
        if total <= 18446744073709551615999999999 {
            Some(Duration { nanos: total })
        } else {
            None
        }
    }
}

/// The request budget crossref grants a client.
#[derive(Debug, Clone, Copy, PartialEq, Eq, Structural)]
pub struct RateLimit {
    /// how many requests are allowed within `interval`
    pub limit: u32,
    /// the window that `limit` applies to
    pub interval: Duration,
}

/// The gap to leave between two requests to spend a budget evenly: the
/// interval divided by the limit, or by one for a limit of zero.
pub open spec fn spacing_nanos(rate: RateLimit) -> nat {
    rate.interval.spec_nanos() / (if rate.limit == 0 {
        1nat
    } else {
        rate.limit as nat
    })
}

/// The budget assumed until crossref has reported one: five requests a second.
pub open spec fn is_conservative(rate: RateLimit) -> bool {
    rate.limit == 5 && rate.interval.spec_nanos() == 1_000_000_000
}

impl RateLimit {
    /// The budget assumed until crossref has reported one.
    ///
    /// Deliberately below what either pool actually grants. The first response
    /// carries the real figure, so guessing low costs nothing but a slightly
    /// slower first handful of requests, whereas guessing high costs a `429`.
    pub fn conservative() -> (r: RateLimit)
        ensures
            is_conservative(r),
    {
        RateLimit { limit: 5, interval: Duration::from_secs(1) }
    }

    /// The gap to leave between two requests to spend the budget evenly.
    pub fn spacing(&self) -> (r: Duration)
        ensures
            r.spec_nanos() == spacing_nanos(*self),
    {
        let parts: u32 = if self.limit == 0 {
            1
        } else {
            self.limit
        };
        self.interval.divided(parts)
    }

    /// Reads the budget crossref reported, from the values of its
    /// `x-rate-limit-limit` and `x-rate-limit-interval` headers.
    ///
    /// Returns [`None`] unless both are present and understood.
    pub fn from_header_values(limit: Option<&str>, interval: Option<&str>) -> (r: Option<RateLimit>)
        ensures
            match (limit, interval) {
                (Some(l), Some(i)) => match (parsed_u32(trim(l@)), interval_nanos(i@)) {
                    (Some(n), Some(t)) => r matches Some(rate) && rate.limit == n
                        && rate.interval.spec_nanos() == t,
                    _ => r is None,
                },
                _ => r is None,
            },
    {
        match (limit, interval) {
            (Some(l), Some(i)) => {
                let n = match parse_u32(trimmed(l).as_str()) {
                    Some(n) => n,
                    None => {
                        return None;
                    },
                };
                match parse_interval(i) {
                    Some(t) => Some(RateLimit { limit: n, interval: t }),
                    None => None,
                }
            },
            _ => None,
        }
    }
}

impl Default for RateLimit {
    fn default() -> (r: Self)
        ensures
            is_conservative(r),
    {
        RateLimit::conservative()
    }
}

/// How many ascii digits `s` starts with.
pub open spec fn digit_run(s: Seq<char>) -> nat
    decreases s.len(),
{
    if s.len() > 0 && ascii_digit(s[0]) {
        1 + digit_run(s.drop_first())
    } else {
        0
    }
}

/// How many nanoseconds an amount of a unit is: `ms`, `s`, `m` or `h`, or
/// [`None`] for another unit or an hour or minute count whose seconds do not
/// fit in a `u64`.
pub open spec fn unit_nanos(amount: nat, unit: Seq<char>) -> Option<nat> {
    if unit == "ms"@ {
        Some(amount * 1_000_000)
    } else if unit == "s"@ {
        Some(amount * 1_000_000_000)
    } else if unit == "m"@ {
        if amount * 60 <= u64::MAX {
            Some(amount * 60 * 1_000_000_000)
        } else {
            None
        }
    } else if unit == "h"@ {
        if amount * 3600 <= u64::MAX {
            Some(amount * 3600 * 1_000_000_000)
        } else {
            None
        }
    } else {
        None
    }
}

/// The span the `1s` form crossref uses for `x-rate-limit-interval` writes,
/// in nanoseconds: after trimming, an amount in decimal digits and then its
/// unit.
pub open spec fn interval_nanos(raw: Seq<char>) -> Option<nat> {
    let t = trim(raw);
    let k = digit_run(t) as int;
    if k == t.len() {
        None
    } else {
        match parsed_u64(t.subrange(0, k)) {
            Some(amount) => unit_nanos(amount as nat, t.subrange(k, t.len() as int)),
            None => None,
        }
    }
}

proof fn lemma_digit_run(s: Seq<char>, k: int)
    requires
        0 <= k <= s.len(),
        forall|j: int| 0 <= j < k ==> ascii_digit(#[trigger] s[j]),
        k == s.len() || !ascii_digit(s[k]),
    ensures
        digit_run(s) == k,
    decreases k,
{
    if k > 0 {
        let t = s.drop_first();
        assert forall|j: int| 0 <= j < k - 1 implies ascii_digit(#[trigger] t[j]) by {
            assert(t[j] == s[j + 1]);
        }
        if k < s.len() {
            assert(t[k - 1] == s[k]);
        }
        lemma_digit_run(t, k - 1);
    }
}

/// Parses the `1s` form crossref uses for `x-rate-limit-interval`.
pub fn parse_interval(raw: &str) -> (r: Option<Duration>)
    ensures
        match interval_nanos(raw@) {
            Some(n) => r matches Some(d) && d.spec_nanos() == n,
            None => r is None,
        },
{
    let t = trimmed(raw);
    let cs = chars_of(t.as_str());
    let mut k: usize = 0;
    while k < cs.len() && '0' <= cs[k] && cs[k] <= '9'
        invariant
            cs@ == t@,
            k <= cs@.len(),
            forall|j: int| 0 <= j < k ==> ascii_digit(#[trigger] cs@[j]),
        decreases cs@.len() - k,
    {
        k = k + 1;
    }
    proof {
        lemma_digit_run(t@, k as int);
    }
    if k == cs.len() {
        return None;
    }
    let mut amount_text = String::new();
    let mut unit = String::new();
    let mut j: usize = 0;
    while j < cs.len()
        invariant
            cs@ == t@,
            k < cs@.len(),
            j <= cs@.len(),
            amount_text@ == t@.subrange(0, if j < k { j as int } else { k as int }),
            unit@ == t@.subrange(k as int, if j < k { k as int } else { j as int }),
        decreases cs@.len() - j,
    {
        if j < k {
            push_char(&mut amount_text, cs[j]);
            assert(t@.subrange(0, j + 1) == t@.subrange(0, j as int).push(cs@[j as int]));
        } else {
            push_char(&mut unit, cs[j]);
            assert(t@.subrange(k as int, j + 1) == t@.subrange(k as int, j as int).push(cs@[j as int]));
        }
        j = j + 1;
    }
    let amount = match parse_u64(amount_text.as_str()) {
        Some(a) => a,
        None => {
            return None;
        },
    };
    if str_eq(unit.as_str(), "ms") {
        Some(Duration::from_millis(amount))
    } else if str_eq(unit.as_str(), "s") {
        Some(Duration::from_secs(amount))
    } else if str_eq(unit.as_str(), "m") {
        match amount.checked_mul(60) {
            Some(secs) => Some(Duration::from_secs(secs)),
            None => None,
        }
    } else if str_eq(unit.as_str(), "h") {
        match amount.checked_mul(3600) {
            Some(secs) => Some(Duration::from_secs(secs)),
            None => None,
        }
    } else {
        None
    }
}

/// How long crossref asked a client to wait, from the value of a
/// `retry-after` header.
///
/// Only the delay-seconds form is understood; the HTTP-date form yields
/// [`None`] and the caller falls back to its own backoff.
pub fn retry_after(value: Option<&str>) -> (r: Option<Duration>)
    ensures
        match value {
            Some(v) => match parsed_u64(trim(v@)) {
                Some(secs) => r matches Some(d) && d.spec_nanos() == secs * 1_000_000_000,
                None => r is None,
            },
            None => r is None,
        },
{
    match value {
        Some(v) => match parse_u64(trimmed(v).as_str()) {
            Some(secs) => Some(Duration::from_secs(secs)),
            None => None,
        },
        None => None,
    }
}

/// `slot` moved on by `gap` nanoseconds, staying at the last moment there is.
pub open spec fn moved_on(slot: u128, gap: nat) -> u128 {
    if slot + gap > u128::MAX {
        u128::MAX
    } else {
        (slot + gap) as u128
    }
}

/// The slot a request asking at `now` gets: the slot claimed for it, unless
/// that has already passed.
pub open spec fn slot_for(next_slot: Option<u128>, now: u128) -> u128 {
    match next_slot {
        Some(slot) => if slot > now {
            slot
        } else {
            now
        },
        None => now,
    }
}

/// `a` moved on by `b`, staying at the last moment there is.
fn add_span(a: u128, b: u128) -> (r: u128)
    ensures
        r == moved_on(a, b as nat),
{
    a.saturating_add(b)
}

/// Paces requests so a client stays inside the budget crossref granted it.
///
/// Holds the budget as last reported, the earliest moment the next request
/// may leave, and the pool crossref sorted the last request into.
#[derive(Debug)]
pub struct Pacer {
    rate: RateLimit,
    next_slot: Option<u128>,
    pool: Option<String>,
}

impl Pacer {
    /// The budget, as last reported by crossref.
    pub closed spec fn spec_rate(&self) -> RateLimit {
        self.rate
    }

    /// The earliest moment at which the next request may leave, once one has
    /// been claimed.
    pub closed spec fn spec_next_slot(&self) -> Option<u128> {
        self.next_slot
    }

    /// The pool crossref sorted the last request into.
    pub closed spec fn spec_pool(&self) -> Option<Seq<char>> {
        option_text(self.pool)
    }

    /// A pacer that assumes `rate` until crossref reports otherwise.
    pub fn new(rate: RateLimit) -> (r: Pacer)
        ensures
            r.spec_rate() == rate,
            r.spec_next_slot() is None,
            r.spec_pool() is None,
    {
        Pacer { rate, next_slot: None, pool: None }
    }

    /// Claims the slot of a request asking at `now`, and returns the moment it
    /// may leave. The slot after it lies one spacing further on, so requests
    /// asking together spread out instead of all leaving at once.
    pub fn claim(&mut self, now: u128) -> (slot: u128)
        ensures
            slot == slot_for(old(self).spec_next_slot(), now),
            final(self).spec_next_slot() == Some(
                moved_on(slot, spacing_nanos(old(self).spec_rate())),
            ),
            final(self).spec_rate() == old(self).spec_rate(),
            final(self).spec_pool() == old(self).spec_pool(),
    {
        let slot = match self.next_slot {
            Some(s) => if s > now {
                s
            } else {
                now
            },
            None => now,
        };
        let gap = self.rate.spacing();
        self.next_slot = Some(add_span(slot, gap.as_nanos()));
        slot
    }

    /// Takes in what a response reported: the budget, and the pool it was
    /// sorted into. What it did not report is left as it was.
    pub fn observe(&mut self, rate: Option<RateLimit>, pool: Option<String>)
        ensures
            final(self).spec_rate() == match rate {
                Some(r) => r,
                None => old(self).spec_rate(),
            },
            final(self).spec_pool() == match pool {
                Some(p) => Some(p@),
                None => old(self).spec_pool(),
            },
            final(self).spec_next_slot() == old(self).spec_next_slot(),
    {
        match rate {
            Some(r) => {
                self.rate = r;
            },
            None => {},
        }
        match pool {
            Some(p) => {
                self.pool = Some(p);
            },
            None => {},
        }
    }

    /// Holds every request back for at least `delay` from `now`.
    ///
    /// A `429` means the budget believed in was wrong, so the pause applies
    /// to every request sharing this pacer, not only to the one that happened
    /// to be rejected.
    pub fn back_off(&mut self, now: u128, delay: Duration)
        ensures
            final(self).spec_next_slot() == Some(
                slot_for(old(self).spec_next_slot(), moved_on(now, delay.spec_nanos())),
            ),
            final(self).spec_rate() == old(self).spec_rate(),
            final(self).spec_pool() == old(self).spec_pool(),
    {
        let resume = add_span(now, delay.as_nanos());
        let next = match self.next_slot {
            Some(s) => if s > resume {
                s
            } else {
                resume
            },
            None => resume,
        };
        self.next_slot = Some(next);
    }

    /// The budget crossref last reported.
    pub fn rate(&self) -> (r: RateLimit)
        ensures
            r == self.spec_rate(),
    {
        self.rate
    }

    /// The pool crossref last sorted a request into.
    pub fn pool(&self) -> (r: Option<String>)
        ensures
            option_text(r) == self.spec_pool(),
    {
        match &self.pool {
            Some(p) => Some(p.clone()),
            None => None,
        }
    }
}

/// A request never leaves before it asked, nor before the slot claimed for it;
/// and the next request asking at any moment leaves no sooner than one
/// spacing after it (unless that is past the last moment there is).
pub proof fn lemma_claims_are_spaced(next_slot: Option<u128>, rate: RateLimit, now: u128, later: u128)
    ensures
        slot_for(next_slot, now) >= now,
        next_slot matches Some(s) ==> slot_for(next_slot, now) >= s,
        ({
            let first = slot_for(next_slot, now);
            let second = slot_for(Some(moved_on(first, spacing_nanos(rate))), later);
            second >= first + spacing_nanos(rate) || second == u128::MAX
        }),
{
}

/// The slots a pacer hands out to requests asking at the moments `nows`, one
/// after another, starting from the slot it holds (`next_slot`) and leaving
/// `gap` nanoseconds between one slot and the next.
pub open spec fn claimed_slots(next_slot: Option<u128>, gap: nat, nows: Seq<u128>) -> Seq<u128>
    decreases nows.len(),
{
    if nows.len() == 0 {
        Seq::empty()
    } else {
        let slot = slot_for(next_slot, nows[0]);
        seq![slot] + claimed_slots(Some(moved_on(slot, gap)), gap, nows.drop_first())
    }
}

proof fn lemma_claims_from(base: u128, gap: nat, nows: Seq<u128>)
    requires
        forall|k: int| 0 <= k < nows.len() ==> #[trigger] nows[k] <= base + k * gap,
        nows.len() > 0 ==> base + (nows.len() - 1) * gap <= u128::MAX,
    ensures
        claimed_slots(Some(base), gap, nows).len() == nows.len(),
        forall|k: int| 0 <= k < nows.len() ==> #[trigger] claimed_slots(Some(base), gap, nows)[k]
            == base + k * gap,
    decreases nows.len(),
{
    if nows.len() > 0 {
        assert(nows[0] <= base + 0 * gap);
        let rest = nows.drop_first();
        let slots = claimed_slots(Some(base), gap, nows);
        assert(slot_for(Some(base), nows[0]) == base);
        if rest.len() > 0 {
            assert(base + 1 * gap <= base + (nows.len() - 1) * gap) by (nonlinear_arith)
                requires
                    nows.len() >= 2,
            ;
            let next = (base + gap) as u128;
            assert(moved_on(base, gap) == next);
            assert forall|k: int| 0 <= k < rest.len() implies #[trigger] rest[k] <= next + k * gap by {
                assert(rest[k] == nows[k + 1]);
                assert(nows[k + 1] <= base + (k + 1) * gap);
                assert(base + (k + 1) * gap == next + k * gap) by (nonlinear_arith)
                    requires
                        next == base + gap,
                ;
            }
            assert(next + (rest.len() - 1) * gap == base + (nows.len() - 1) * gap) by (nonlinear_arith)
                requires
                    next == base + gap,
                    rest.len() == nows.len() - 1,
            ;
            lemma_claims_from(next, gap, rest);
            assert forall|k: int| 0 <= k < nows.len() implies #[trigger] slots[k] == base + k * gap by {
                if k > 0 {
                    assert(slots[k] == claimed_slots(Some(next), gap, rest)[k - 1]);
                    assert(next + (k - 1) * gap == base + k * gap) by (nonlinear_arith)
                        requires
                            next == base + gap,
                    ;
                }
            }
        } else {
            assert(claimed_slots(Some(moved_on(base, gap)), gap, rest) == Seq::<u128>::empty());
            assert(slots == seq![base]);
        }
    }
}

/// Requests asked for one after another, each no later than the slot the one
/// before it was promised plus one spacing, leave exactly one spacing apart:
/// the `k`th of them, counting from the first at `t0`, leaves at
/// `t0 + k * spacing`. Four requests at four a second take exactly 750ms.
pub proof fn lemma_kth_claim(t0: u128, rate: RateLimit, nows: Seq<u128>)
    requires
        nows.len() > 0,
        nows[0] == t0,
        forall|k: int| 0 < k < nows.len() ==> #[trigger] nows[k] <= t0 + k * spacing_nanos(rate),
        t0 + (nows.len() - 1) * spacing_nanos(rate) <= u128::MAX,
    ensures
        claimed_slots(None, spacing_nanos(rate), nows).len() == nows.len(),
        forall|k: int| 0 <= k < nows.len() ==> #[trigger] claimed_slots(None, spacing_nanos(rate), nows)[k]
            == t0 + k * spacing_nanos(rate),
{
    let gap = spacing_nanos(rate);
    assert forall|k: int| 0 <= k < nows.len() implies #[trigger] nows[k] <= t0 + k * gap by {
        if k == 0 {
            assert(0 * gap == 0);
        }
    }
    let slots = claimed_slots(None, gap, nows);
    assert(slot_for(None, nows[0]) == t0);
    assert(claimed_slots(Some(t0), gap, nows)[0] == t0);
    assert(slot_for(Some(t0), nows[0]) == t0);
    assert(claimed_slots(None, gap, nows) == claimed_slots(Some(t0), gap, nows));
    lemma_claims_from(t0, gap, nows);
}

/// After a back off of `delay` at `now`, no request leaves before `now`
/// and `delay` have passed, whenever it asks.
pub proof fn lemma_back_off_holds_back(next_slot: Option<u128>, now: u128, delay: nat, later: u128)
    ensures
        slot_for(Some(slot_for(next_slot, moved_on(now, delay))), later) >= now + delay
            || slot_for(Some(slot_for(next_slot, moved_on(now, delay))), later) == u128::MAX,
{
}

/// How many times over the interval a rate limited request waits on its
/// `attempt`th retry when crossref did not say: doubling from once, up to
/// thirty-two times.
pub open spec fn backoff_factor(attempt: u32) -> nat {
    if attempt == 0 {
        1
    } else if attempt == 1 {
        2
    } else if attempt == 2 {
        4
    } else if attempt == 3 {
        8
    } else if attempt == 4 {
        16
    } else {
        32
    }
}

/// How many times over the interval a rate limited request waits on its
/// `attempt`th retry when crossref did not say.
pub fn backoff_times(attempt: u32) -> (r: u32)
    ensures
        r == backoff_factor(attempt),
{
    if attempt >= 5 {
        32
    } else if attempt == 4 {
        16
    } else if attempt == 3 {
        8
    } else if attempt == 2 {
        4
    } else if attempt == 1 {
        2
    } else {
        1
    }
}

/// What follows a rate limited request: wait this long, then send it again
/// as the given attempt, or give up after this many attempts.
pub open spec fn retry_step(attempt: u32, max_retries: u32) -> core::result::Result<u32, nat> {
    if attempt + 1 > max_retries {
        Err((attempt + 1) as nat)
    } else {
        Ok((attempt + 1) as u32)
    }
}

/// Decides what follows the `attempt`th send of a request, counted from
/// zero, being answered with a `429`.
///
/// The wait is what crossref asked for in `retry-after`, or else the
/// interval of the budget, doubled for every retry up to thirty-two times.
/// The request is sent again unless that would make more than `max_retries`
/// retries, in which case it gives up with [`Error::RateLimited`].
pub fn after_rate_limited(
    attempt: u32,
    max_retries: u32,
    rate: RateLimit,
    asked: Option<Duration>,
) -> (r: (Duration, core::result::Result<u32, Error>))
    requires
        attempt < u32::MAX,
        asked is None ==> rate.interval.spec_nanos() * backoff_factor(attempt) <= max_nanos(),
    ensures
        r.0.spec_nanos() == match asked {
            Some(d) => d.spec_nanos(),
            None => rate.interval.spec_nanos() * backoff_factor(attempt),
        },
        match retry_step(attempt, max_retries) {
            Ok(next) => r.1 == Ok::<u32, Error>(next),
            Err(attempts) => r.1 matches Err(Error::RateLimited { attempts: a, limit })
                && a == attempts && limit == rate,
        },
{
    let delay = match asked {
        Some(d) => d,
        None => match rate.interval.checked_times(backoff_times(attempt)) {
            Some(d) => d,
            None => {
                proof {
                    assert(false);
                }
                rate.interval
            },
        },
    };
    let next = attempt + 1;
    if next > max_retries {
        (delay, Err(Error::RateLimited { attempts: next, limit: rate }))
    } else {
        (delay, Ok(next))
    }
}

/// How many times a request that is rate limited every time is sent, from
/// its `attempt`th send on.
pub open spec fn sends_until_given_up(attempt: u32, max_retries: u32) -> nat
    decreases max_retries - attempt,
{
    match retry_step(attempt, max_retries) {
        Err(attempts) => attempts,
        Ok(next) => if next > attempt {
            sends_until_given_up(next, max_retries)
        } else {
            0
        },
    }
}

/// A request that crossref rate limits every time is sent `max_retries + 1`
/// times, and then given up on.
pub proof fn lemma_retry_budget(max_retries: u32)
    ensures
        sends_until_given_up(0, max_retries) == max_retries + 1,
{
    lemma_retry_budget_from(0, max_retries);
}

proof fn lemma_retry_budget_from(attempt: u32, max_retries: u32)
    requires
        attempt <= max_retries,
    ensures
        sends_until_given_up(attempt, max_retries) == max_retries + 1,
    decreases max_retries - attempt,
{
    if attempt + 1 <= max_retries {
        lemma_retry_budget_from((attempt + 1) as u32, max_retries);
    }
}

} // verus!
