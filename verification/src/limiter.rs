//! The throttle on public-key registration: a rate limiter of the `governor`
//! crate, run on a clock that this library moves by hand, so that what it
//! answers depends on the readings it is given and on nothing else.

use crate::time::{Instant, MAX_NANOS};
use governor::clock::{Clock, FakeRelativeClock};
use governor::middleware::NoOpMiddleware;
use governor::nanos::Nanos;
use governor::state::{InMemoryState, NotKeyed};
use governor::{Quota, RateLimiter};
use std::num::NonZeroU32;
use std::time::Duration;
use vstd::prelude::*;

verus! {

/// Nanoseconds it takes for one registration to be earned back: six seconds.
pub const PERIOD_NANOS: u64 = 6_000_000_000;

/// Registrations admitted back to back before the throttle closes.
pub const BURST: u32 = 3;

/// A direct `governor::RateLimiter` over in-memory state and a
/// `FakeRelativeClock`. The limiter's type parameters are bound by traits of
/// the crate, which keeps the type itself from being declared to Verus; so
/// it is held here, out of Verus's sight, and the four names below stand
/// for what it holds.
#[verifier::external_body]
pub struct Throttle {
    inner: RateLimiter<NotKeyed, InMemoryState, FakeRelativeClock, NoOpMiddleware<Nanos>>,
}

/// The theoretical arrival time the limiter has stored, in nanoseconds on its
/// clock; 0 while it has stored none.
pub uninterp spec fn tat_of(t: Throttle) -> u64;

/// What the limiter's clock reads, in nanoseconds.
pub uninterp spec fn clock_of(t: Throttle) -> u64;

/// The quota's replenish interval that the limiter was made with, in nanoseconds.
pub uninterp spec fn period_of(t: Throttle) -> u64;

/// The quota's burst size that the limiter was made with.
pub uninterp spec fn burst_of(t: Throttle) -> u32;

/// The arrival time a check at `now` goes by: the stored one, or `now` when
/// none is stored.
pub open spec fn arrival(tat: nat, now: nat) -> nat {
    if tat == 0 {
        now
    } else {
        tat
    }
}

/// A cell arriving at `now` conforms: it comes no more than `burst - 1`
/// periods before the arrival time.
pub open spec fn conforms(tat: nat, now: nat, period: nat, burst: nat) -> bool {
    now + period * (burst - 1) >= arrival(tat, now)
}

/// The arrival time stored after a check at `now`: one period past the later
/// of arrival time and `now` if the cell conforms, else what it was.
pub open spec fn tat_after(tat: nat, now: nat, period: nat, burst: nat) -> nat {
    if conforms(tat, now, period, burst) {
        if arrival(tat, now) >= now {
            arrival(tat, now) + period
        } else {
            now + period
        }
    } else {
        tat
    }
}

/// Makes the limiter: `RateLimiter::direct_with_clock` on a fresh
/// `FakeRelativeClock` (which reads 0) and the quota
/// `Quota::with_period(period).allow_burst(burst)`. It has stored no arrival
/// time yet. Left out: a zero period or burst, for which the quota cannot be
/// built, and a tolerance `period * (burst - 1)` beyond 64 bits.
#[verifier::external_body]
fn throttle_new(period: u64, burst: u32) -> (t: Throttle)
    requires
        period > 0,
        burst > 0,
        period * (burst - 1) <= u64::MAX,
    ensures
        tat_of(t) == 0,
        clock_of(t) == 0,
        period_of(t) == period,
        burst_of(t) == burst,
{
    let quota = Quota::with_period(Duration::from_nanos(period)).unwrap()
        .allow_burst(NonZeroU32::new(burst).unwrap());
    Throttle { inner: RateLimiter::direct_with_clock(quota, FakeRelativeClock::default()) }
}

/// Reads the limiter's clock: `RateLimiter::clock` and `Clock::now`.
#[verifier::external_body]
fn throttle_clock(t: &Throttle) -> (now: u64)
    ensures
        now == clock_of(*t),
{
    t.inner.clock().now().as_u64()
}

/// Moves the limiter's clock on by `by` nanoseconds:
/// `FakeRelativeClock::advance`. Nothing else changes. Left out: a move past
/// what 64 bits hold.
#[verifier::external_body]
fn throttle_advance(t: &mut Throttle, by: u64)
    requires
        clock_of(*old(t)) + by <= u64::MAX,
    ensures
        clock_of(*final(t)) == clock_of(*old(t)) + by,
        tat_of(*final(t)) == tat_of(*old(t)),
        period_of(*final(t)) == period_of(*old(t)),
        burst_of(*final(t)) == burst_of(*old(t)),
    no_unwind
{
    t.inner.clock().advance(Duration::from_nanos(by));
}

/// Asks the limiter for one cell: `RateLimiter::check`. The cell is let
/// through exactly if it conforms at the clock's reading, and the stored
/// arrival time moves as `tat_after` says. Left out: a reading so late that
/// the new arrival time would not fit in 64 bits.
#[verifier::external_body]
fn throttle_check(t: &mut Throttle) -> (ok: bool)
    requires
        clock_of(*old(t)) + period_of(*old(t)) * burst_of(*old(t)) <= u64::MAX,
    ensures
        ok == conforms(
            tat_of(*old(t)) as nat,
            clock_of(*old(t)) as nat,
            period_of(*old(t)) as nat,
            burst_of(*old(t)) as nat,
        ),
        tat_of(*final(t)) == tat_after(
            tat_of(*old(t)) as nat,
            clock_of(*old(t)) as nat,
            period_of(*old(t)) as nat,
            burst_of(*old(t)) as nat,
        ),
        clock_of(*final(t)) == clock_of(*old(t)),
        period_of(*final(t)) == period_of(*old(t)),
        burst_of(*final(t)) == burst_of(*old(t)),
    no_unwind
{
    t.inner.check().is_ok()
}

/// What a throttle remembers: the stored arrival time (0 for none) and the
/// latest clock reading it was asked at, both in nanoseconds.
pub struct LimiterState {
    pub tat: nat,
    pub clock: nat,
}

/// The state of a throttle that has not been asked yet.
pub open spec fn fresh() -> LimiterState {
    LimiterState { tat: 0, clock: 0 }
}

/// The reading a throttle in state `s` judges a request at `now` by: its
/// clock never runs backwards.
pub open spec fn reading(s: LimiterState, now: nat) -> nat {
    if now >= s.clock {
        now
    } else {
        s.clock
    }
}

/// Whether a throttle in state `s` lets a request at `now` through.
pub open spec fn admits(s: LimiterState, now: nat) -> bool {
    conforms(s.tat, reading(s, now), PERIOD_NANOS as nat, BURST as nat)
}

/// The state of a throttle that was in state `s` and got a request at `now`.
pub open spec fn after_request(s: LimiterState, now: nat) -> LimiterState {
    LimiterState {
        tat: tat_after(s.tat, reading(s, now), PERIOD_NANOS as nat, BURST as nat),
        clock: reading(s, now),
    }
}

/// The throttle of one peer: three registrations back to back, then one
/// every six seconds.
pub struct PkLimiter {
    throttle: Throttle,
}

impl View for PkLimiter {
    type V = LimiterState;

    closed spec fn view(&self) -> LimiterState {
        LimiterState { tat: tat_of(self.throttle) as nat, clock: clock_of(self.throttle) as nat }
    }
}

impl PkLimiter {
    #[verifier::type_invariant]
    spec fn configured(self) -> bool {
        &&& period_of(self.throttle) == PERIOD_NANOS
        &&& burst_of(self.throttle) == BURST
        &&& clock_of(self.throttle) <= MAX_NANOS
    }

    /// A throttle that has not been asked yet.
    pub fn new() -> (r: PkLimiter)
        ensures
            r@ == fresh(),
    {
        PkLimiter { throttle: throttle_new(PERIOD_NANOS, BURST) }
    }

    /// Asks for one registration at the reading `now`, and counts it if it is
    /// let through.
    pub fn check_at(&mut self, now: Instant) -> (ok: bool)
        ensures
            ok == admits(old(self)@, now@),
            final(self)@ == after_request(old(self)@, now@),
    {
        proof {
            use_type_invariant(&*self);
        }
        let at = now.nanos();
        let clock = throttle_clock(&self.throttle);
        if at > clock {
            throttle_advance(&mut self.throttle, at - clock);
        }
        throttle_check(&mut self.throttle)
    }
}

/// The state of a throttle that was fresh and then got requests at the
/// readings `times`, in that order.
pub open spec fn state_after(times: Seq<nat>) -> LimiterState
    decreases times.len(),
{
    if times.len() == 0 {
        fresh()
    } else {
        after_request(state_after(times.drop_last()), times.last())
    }
}

/// Whether request number `i` of `times`, counted from 0, is let through by
/// a throttle that was fresh before the first of them.
pub open spec fn admitted(times: Seq<nat>, i: int) -> bool {
    admits(state_after(times.take(i)), times[i])
}

/// The readings never step back.
pub open spec fn monotonic(times: Seq<nat>) -> bool {
    forall|a: int, b: int| 0 <= a <= b < times.len() ==> times[a] <= times[b]
}

proof fn lemma_state_unfold(times: Seq<nat>, n: int)
    requires
        0 <= n < times.len(),
    ensures
        state_after(times.take(n + 1)) == after_request(state_after(times.take(n)), times[n]),
{
    assert(times.take(n + 1).drop_last() =~= times.take(n));
}

proof fn lemma_clock_behind(times: Seq<nat>, n: int)
    requires
        monotonic(times),
        0 <= n <= times.len(),
    ensures
        n < times.len() ==> state_after(times.take(n)).clock <= times[n],
        n > 0 ==> state_after(times.take(n)).clock == times[n - 1],
    decreases n,
{
    if n > 0 {
        lemma_clock_behind(times, n - 1);
        lemma_state_unfold(times, n - 1);
    }
}

proof fn lemma_tat_grows(times: Seq<nat>, a: int, b: int)
    requires
        0 <= a <= b <= times.len(),
    ensures
        state_after(times.take(a)).tat <= state_after(times.take(b)).tat,
    decreases b - a,
{
    if a < b {
        lemma_tat_grows(times, a, b - 1);
        lemma_state_unfold(times, b - 1);
    }
}

proof fn lemma_admitted_step(times: Seq<nat>, n: int)
    requires
        monotonic(times),
        0 <= n < times.len(),
        admitted(times, n),
    ensures
        state_after(times.take(n + 1)).tat >= state_after(times.take(n)).tat + PERIOD_NANOS,
        state_after(times.take(n + 1)).tat >= times[n] + PERIOD_NANOS,
{
    lemma_state_unfold(times, n);
    lemma_clock_behind(times, n);
}

/// The throttle lets at most three requests through in any six seconds: once
/// three have passed, any later request that comes less than six seconds
/// after the first of the three is turned away.
pub proof fn law_fourth_in_window_rejected(times: Seq<nat>, i: int, j: int, k: int, l: int)
    requires
        monotonic(times),
        0 <= i < j < k < l < times.len(),
        admitted(times, i),
        admitted(times, j),
        admitted(times, k),
        times[l] < times[i] + PERIOD_NANOS,
    ensures
        !admitted(times, l),
{
    lemma_admitted_step(times, i);
    lemma_tat_grows(times, i + 1, j);
    lemma_admitted_step(times, j);
    lemma_tat_grows(times, j + 1, k);
    lemma_admitted_step(times, k);
    lemma_tat_grows(times, k + 1, l);
    lemma_clock_behind(times, l);
}

/// A fresh throttle lets the first three requests through, whenever they come.
pub proof fn law_burst_admitted(times: Seq<nat>)
    requires
        monotonic(times),
        times.len() >= 3,
    ensures
        admitted(times, 0),
        admitted(times, 1),
        admitted(times, 2),
{
    lemma_state_unfold(times, 0);
    lemma_state_unfold(times, 1);
    lemma_clock_behind(times, 0);
    lemma_clock_behind(times, 1);
    lemma_clock_behind(times, 2);
}

} // verus!
