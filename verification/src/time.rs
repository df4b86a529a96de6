//! Readings of a monotonic clock, counted in nanoseconds from a start that
//! the caller picks (the moment the server came up).

use vstd::prelude::*;

verus! {

/// Nanoseconds in a millisecond.
pub const NANOS_PER_MILLI: u64 = 1_000_000;

/// The latest reading an `Instant` can hold: half of what fits in 64 bits,
/// some 292 years, so that a timeout added to a reading never overflows.
pub const MAX_NANOS: u64 = 0x7fff_ffff_ffff_ffff;

/// A reading of the monotonic clock.
#[derive(Debug, Clone, Copy, PartialEq, Eq, Structural)]
pub struct Instant {
    nanos: u64,
}

impl View for Instant {
    type V = nat;

    closed spec fn view(&self) -> nat {
        self.nanos as nat
    }
}

/// `start` moved on by `millis` milliseconds, held at `MAX_NANOS`.
pub open spec fn later_by(start: nat, millis: nat) -> nat {
    if start + millis * NANOS_PER_MILLI <= MAX_NANOS {
        (start + millis * NANOS_PER_MILLI) as nat
    } else {
        MAX_NANOS as nat
    }
}

impl Instant {
    #[verifier::type_invariant]
    spec fn in_range(self) -> bool {
        self.nanos <= MAX_NANOS
    }

    /// The start of the clock.
    pub fn zero() -> (r: Instant)
        ensures
            r@ == 0,
    {
        Instant { nanos: 0 }
    }

    /// The reading `nanos` nanoseconds after the start, if an `Instant` can hold it.
    pub fn from_nanos(nanos: u64) -> (r: Option<Instant>)
        ensures
            r is Some <==> nanos <= MAX_NANOS,
            r matches Some(t) ==> t@ == nanos,
    {
        if nanos <= MAX_NANOS {
            Some(Instant { nanos })
        } else {
            None
        }
    }

    /// The reading `millis` milliseconds after the start, if an `Instant` can hold it.
    pub fn from_millis(millis: u64) -> (r: Option<Instant>)
        ensures
            r is Some <==> millis * NANOS_PER_MILLI <= MAX_NANOS,
            r matches Some(t) ==> t@ == millis * NANOS_PER_MILLI,
    {
        if millis <= MAX_NANOS / NANOS_PER_MILLI {
            assert(millis * NANOS_PER_MILLI <= MAX_NANOS) by (nonlinear_arith)
                requires
                    millis <= MAX_NANOS / NANOS_PER_MILLI,
            ;
            Some(Instant { nanos: millis * NANOS_PER_MILLI })
        } else {
            assert(millis * NANOS_PER_MILLI > MAX_NANOS) by (nonlinear_arith)
                requires
                    millis > MAX_NANOS / NANOS_PER_MILLI,
            ;
            None
        }
    }

    /// Nanoseconds since the start.
    pub fn nanos(&self) -> (n: u64)
        ensures
            n == self@,
            n <= MAX_NANOS,
    {
        proof {
            use_type_invariant(self);
        }
        self.nanos
    }

    /// This reading moved on by `millis` milliseconds; it stops at `MAX_NANOS`.
    pub fn plus_millis(&self, millis: u32) -> (r: Instant)
        ensures
            r@ == later_by(self@, millis as nat),
    {
        proof {
            use_type_invariant(self);
        }
        let step: u64 = (millis as u64) * NANOS_PER_MILLI;
        if step <= MAX_NANOS - self.nanos {
            Instant { nanos: self.nanos + step }
        } else {
            Instant { nanos: MAX_NANOS }
        }
    }

    /// Whether this reading lies at or after `deadline`.
    pub fn reached(&self, deadline: &Instant) -> (b: bool)
        ensures
            b == (self@ >= deadline@),
    {
        self.nanos >= deadline.nanos
    }
}

} // verus!
