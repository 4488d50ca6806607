//! Monotonic time as plain microsecond counts.

use vstd::prelude::*;

verus! {

/// Microseconds in one second.
pub const MICROS_PER_SEC: u64 = 1_000_000;

/// A point in time: microseconds since the clock started.
#[derive(Clone, Copy, Debug, PartialEq, Eq, Structural)]
pub struct Instant {
    pub micros: u64,
}

/// A span of time in microseconds.
#[derive(Clone, Copy, Debug, PartialEq, Eq, Structural)]
pub struct Duration {
    pub micros: u64,
}

impl Duration {
    pub fn from_micros(micros: u64) -> (d: Duration)
        ensures
            d.micros == micros,
    {
        Duration { micros }
    }

    /// Whole seconds as a duration; the product has to fit in 64 bits.
    pub fn from_secs(secs: u64) -> (d: Duration)
        requires
            secs * MICROS_PER_SEC <= u64::MAX,
        ensures
            d.micros == secs * MICROS_PER_SEC,
    {
        Duration { micros: secs * MICROS_PER_SEC }
    }

    /// Whole seconds as a duration, or `None` when the microsecond count
    /// does not fit in 64 bits.
    pub fn try_from_secs(secs: u64) -> (d: Option<Duration>)
        ensures
            d is Some <==> secs * MICROS_PER_SEC <= u64::MAX,
            d matches Some(v) ==> v.micros == secs * MICROS_PER_SEC,
    {
        match secs.checked_mul(MICROS_PER_SEC) {
            Some(micros) => Some(Duration { micros }),
            None => None,
        }
    }

    pub fn as_micros(&self) -> (m: u64)
        ensures
            m == self.micros,
    {
        self.micros
    }

    /// Whole seconds, rounded down.
    pub fn as_secs(&self) -> (s: u64)
        ensures
            s == self.micros / MICROS_PER_SEC,
    {
        self.micros / MICROS_PER_SEC
    }

    /// `self - other`, or zero where `other` is the longer one.
    pub fn saturating_sub(self, other: Duration) -> (d: Duration)
        ensures
            d.micros == if self.micros >= other.micros {
                self.micros - other.micros
            } else {
                0
            },
    {
        if self.micros >= other.micros {
            Duration { micros: self.micros - other.micros }
        } else {
            Duration { micros: 0 }
        }
    }
}

impl Instant {
    pub fn from_micros(micros: u64) -> (t: Instant)
        ensures
            t.micros == micros,
    {
        Instant { micros }
    }

    pub fn as_micros(&self) -> (m: u64)
        ensures
            m == self.micros,
    {
        self.micros
    }

    /// True when `period` counted from `start` lies strictly before `self`.
    pub open spec fn is_past(self, start: Instant, period: Duration) -> bool {
        self.micros > start.micros + period.micros
    }

    /// Has more than `period` gone by since `start`? The sum is taken without
    /// wrapping: a deadline beyond the clock's range has never passed.
    pub fn has_passed(&self, start: Instant, period: Duration) -> (past: bool)
        ensures
            past == self.is_past(start, period),
    {
        match start.micros.checked_add(period.micros) {
            Some(deadline) => self.micros > deadline,
            None => false,
        }
    }

    /// Time from `earlier` to `self`, or zero where `earlier` is the later one.
    pub fn saturating_duration_since(&self, earlier: Instant) -> (d: Duration)
        ensures
            d.micros == if self.micros >= earlier.micros {
                self.micros - earlier.micros
            } else {
                0
            },
    {
        if self.micros >= earlier.micros {
            Duration { micros: self.micros - earlier.micros }
        } else {
            Duration { micros: 0 }
        }
    }
}

/// Reads the clock through `embassy_time::Instant::now` and reports it in
/// microseconds (`as_micros`). Nothing is claimed about the value: two
/// readings may be any two instants.
#[verifier::external_body]
pub(crate) fn clock_now() -> (now: Instant) {
    Instant { micros: embassy_time::Instant::now().as_micros() }
}

} // verus!
