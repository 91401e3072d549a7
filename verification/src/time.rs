use vstd::prelude::*;

verus! {

/// Number of nanoseconds in one second.
pub const NANOS_PER_SEC: u64 = 1_000_000_000;

/// Number of nanoseconds in one millisecond.
pub const NANOS_PER_MILLI: u64 = 1_000_000;

/// A span of time, counted in whole nanoseconds.
#[derive(Clone, Copy, Debug, PartialEq, Eq, Structural)]
pub struct Duration {
    pub nanos: u64,
}

/// A point on the controller's monotonic clock: the nanoseconds that have
/// passed since the clock's origin.
#[derive(Clone, Copy, Debug, PartialEq, Eq, Structural)]
pub struct Instant {
    pub nanos: u64,
}

impl View for Duration {
    type V = nat;

    open spec fn view(&self) -> nat {
        self.nanos as nat
    }
}

impl View for Instant {
    type V = nat;

    open spec fn view(&self) -> nat {
        self.nanos as nat
    }
}

/// The time that lies between `earlier` and `later`, zero where `later` is
/// not after `earlier`.
pub open spec fn elapsed(later: Instant, earlier: Instant) -> nat {
    if later.nanos >= earlier.nanos {
        (later.nanos - earlier.nanos) as nat
    } else {
        0
    }
}

impl Duration {
    pub fn from_nanos(nanos: u64) -> (d: Duration)
        ensures
            d@ == nanos,
    {
        Duration { nanos }
    }

    pub fn from_millis(millis: u64) -> (d: Duration)
        requires
            millis * NANOS_PER_MILLI <= u64::MAX,
        ensures
            d@ == millis * NANOS_PER_MILLI,
    {
        Duration { nanos: millis * NANOS_PER_MILLI }
    }

    pub fn from_secs(secs: u64) -> (d: Duration)
        requires
            secs * NANOS_PER_SEC <= u64::MAX,
        ensures
            d@ == secs * NANOS_PER_SEC,
    {
        Duration { nanos: secs * NANOS_PER_SEC }
    }

    pub fn as_nanos(&self) -> (n: u64)
        ensures
            n == self@,
    {
        self.nanos
    }
}

impl Instant {
    /// The origin of the clock.
    pub fn origin() -> (t: Instant)
        ensures
            t@ == 0,
    {
        Instant { nanos: 0 }
    }

    pub fn from_nanos(nanos: u64) -> (t: Instant)
        ensures
            t@ == nanos,
    {
        Instant { nanos }
    }

    /// The time passed since `earlier`, zero where `earlier` is the later of
    /// the two.
    pub fn duration_since(&self, earlier: Instant) -> (d: Duration)
        ensures
            d@ == elapsed(*self, earlier),
    {
        if self.nanos >= earlier.nanos {
            Duration { nanos: self.nanos - earlier.nanos }
        } else {
            Duration { nanos: 0 }
        }
    }
}

} // verus!
