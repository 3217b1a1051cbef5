//! A span of time as `std::time::Duration` holds it: whole seconds and the
//! nanoseconds below one second.
use vstd::prelude::*;

verus! {

/// Nanoseconds in one second.
pub const NANOS_PER_SEC: u32 = 1_000_000_000;

/// Nanoseconds in one millisecond.
pub const NANOS_PER_MILLI: u32 = 1_000_000;

/// A span of time: whole seconds and the nanoseconds below one second.
#[derive(Debug)]
pub struct Duration {
    secs: u64,
    nanos: u32,
}

impl Duration {
    #[verifier::type_invariant]
    spec fn inv(self) -> bool {
        self.nanos < NANOS_PER_SEC
    }

    /// Whole seconds.
    pub closed spec fn secs_spec(self) -> nat {
        self.secs as nat
    }

    /// Nanoseconds below one second.
    pub closed spec fn subsec_nanos_spec(self) -> nat {
        self.nanos as nat
    }

    /// The whole span in nanoseconds.
    pub open spec fn total_nanos(self) -> nat {
        self.secs_spec() * (NANOS_PER_SEC as nat) + self.subsec_nanos_spec()
    }

    /// Two durations with the same seconds and nanoseconds are the same value.
    pub proof fn lemma_same(a: Duration, b: Duration)
        requires
            a.secs_spec() == b.secs_spec(),
            a.subsec_nanos_spec() == b.subsec_nanos_spec(),
        ensures
            a == b,
    {
    }

    /// `Duration::new`: the nanoseconds beyond one second roll over into the seconds.
    pub fn new(secs: u64, nanos: u32) -> (d: Duration)
        requires
            secs + (nanos as int) / (NANOS_PER_SEC as int) <= u64::MAX,
        ensures
            d.secs_spec() == secs + (nanos as int) / (NANOS_PER_SEC as int),
            d.subsec_nanos_spec() == (nanos as int) % (NANOS_PER_SEC as int),
    {
        Duration { secs: secs + (nanos / NANOS_PER_SEC) as u64, nanos: nanos % NANOS_PER_SEC }
    }

    /// `Duration::from_secs`.
    pub fn from_secs(secs: u64) -> (d: Duration)
        ensures
            d.secs_spec() == secs,
            d.subsec_nanos_spec() == 0,
    {
        Duration { secs, nanos: 0 }
    }

    /// `Duration::from_millis`.
    pub fn from_millis(millis: u64) -> (d: Duration)
        ensures
            d.secs_spec() == millis / 1000,
            d.subsec_nanos_spec() == (millis % 1000) * (NANOS_PER_MILLI as int),
    {
        let rest: u32 = (millis % 1000) as u32;
        Duration { secs: millis / 1000, nanos: rest * NANOS_PER_MILLI }
    }

    /// `Duration + Duration`, which std only defines when the sum fits.
    pub fn add(self, other: Duration) -> (d: Duration)
        requires
            self.total_nanos() + other.total_nanos() < (u64::MAX as nat + 1) * (
            NANOS_PER_SEC as nat),
        ensures
            d.total_nanos() == self.total_nanos() + other.total_nanos(),
            d.subsec_nanos_spec() == (self.subsec_nanos_spec() + other.subsec_nanos_spec()) % (
            NANOS_PER_SEC as nat),
            d.secs_spec() == self.secs_spec() + other.secs_spec() + (self.subsec_nanos_spec()
                + other.subsec_nanos_spec()) / (NANOS_PER_SEC as nat),
    {
        proof {
            use_type_invariant(&self);
            use_type_invariant(&other);
        }
        let n: u32 = self.nanos + other.nanos;
        if n >= NANOS_PER_SEC {
            assert(self.secs + other.secs + 1 <= u64::MAX) by (nonlinear_arith)
                requires
                    self.secs * 1_000_000_000 + self.nanos + other.secs * 1_000_000_000 + other.nanos
                        < (u64::MAX + 1) * 1_000_000_000,
                    n == self.nanos + other.nanos,
                    n >= 1_000_000_000,
            ;
            Duration { secs: self.secs + other.secs + 1, nanos: n - NANOS_PER_SEC }
        } else {
            assert(self.secs + other.secs <= u64::MAX) by (nonlinear_arith)
                requires
                    self.secs * 1_000_000_000 + self.nanos + other.secs * 1_000_000_000 + other.nanos
                        < (u64::MAX + 1) * 1_000_000_000,
            ;
            Duration { secs: self.secs + other.secs, nanos: n }
        }
    }

    /// `Duration::as_secs`.
    pub fn as_secs(&self) -> (s: u64)
        ensures
            s == self.secs_spec(),
    {
        self.secs
    }

    /// `Duration::subsec_nanos`.
    pub fn subsec_nanos(&self) -> (n: u32)
        ensures
            n == self.subsec_nanos_spec(),
            n < NANOS_PER_SEC,
    {
        proof {
            use_type_invariant(self);
        }
        self.nanos
    }

    /// `Duration::subsec_millis`: whole milliseconds below one second.
    pub fn subsec_millis(&self) -> (m: u32)
        ensures
            m == self.subsec_nanos_spec() / (NANOS_PER_MILLI as nat),
            m < 1000,
    {
        proof {
            use_type_invariant(self);
        }
        self.nanos / NANOS_PER_MILLI
    }
}

} // verus!
