//! A span of time at nanosecond precision.
//!
//! The engine itself keeps every duration as a plain count of nanoseconds.
//! [`Dur`] mirrors how a wall-clock duration is stored outside the engine:
//! whole seconds plus a subsecond remainder. The two conversions are exact,
//! and [`lemma_nanos_round_trip`] proves that going through the nanosecond
//! count and back reproduces the starting span.

use vstd::arithmetic::div_mod::lemma_fundamental_div_mod_converse;
use vstd::prelude::*;

verus! {

/// Nanoseconds in one second.
pub const NANOS_PER_SEC: u32 = 1_000_000_000;

/// Saturating difference of two nanosecond counts.
pub open spec fn sat_sub(a: u64, b: u64) -> u64 {
    if a >= b {
        (a - b) as u64
    } else {
        0
    }
}

/// Saturating sum of two nanosecond counts.
pub open spec fn sat_add(a: u64, b: u64) -> u64 {
    if a + b > u64::MAX {
        u64::MAX
    } else {
        (a + b) as u64
    }
}

/// A span of time: whole seconds plus a subsecond remainder in nanoseconds.
#[derive(Clone, Copy, Debug, PartialEq, Eq, Structural)]
pub struct Dur {
    pub secs: u64,
    pub nanos: u32,
}

impl Dur {
    /// A well-formed span keeps its subsecond part below one second.
    pub open spec fn wf(self) -> bool {
        self.nanos < 1_000_000_000
    }

    /// The span as a total count of nanoseconds.
    pub open spec fn spec_as_nanos(self) -> int {
        self.secs * 1_000_000_000 + self.nanos
    }

    /// The span denoted by a total count of nanoseconds.
    pub open spec fn spec_from_nanos(n: int) -> Dur {
        Dur { secs: (n / 1_000_000_000) as u64, nanos: (n % 1_000_000_000) as u32 }
    }

    pub fn new(secs: u64, nanos: u32) -> (d: Dur)
        requires
            nanos < 1_000_000_000,
        ensures
            d.wf(),
            d.secs == secs,
            d.nanos == nanos,
    {
        Dur { secs, nanos }
    }

    pub fn zero() -> (d: Dur)
        ensures
            d.wf(),
            d.spec_as_nanos() == 0,
    {
        Dur { secs: 0, nanos: 0 }
    }

    /// The total count of nanoseconds in this span.
    pub fn as_nanos(&self) -> (n: u128)
        requires
            self.wf(),
        ensures
            n == self.spec_as_nanos(),
    {
        self.secs as u128 * 1_000_000_000 + self.nanos as u128
    }

    /// The span holding a total count of nanoseconds.
    ///
    /// Every count below 2^64 seconds is representable, which covers all
    /// counts the engine itself produces.
    pub fn from_nanos(n: u128) -> (d: Dur)
        requires
            n / 1_000_000_000 <= u64::MAX,
        ensures
            d.wf(),
            d == Dur::spec_from_nanos(n as int),
            d.spec_as_nanos() == n,
    {
        let secs: u128 = n / 1_000_000_000;
        let nanos: u128 = n % 1_000_000_000;
        Dur { secs: secs as u64, nanos: nanos as u32 }
    }
}

/// Converting a span to its total nanosecond count and back reproduces the
/// span exactly: nothing is lost at nanosecond precision.
pub proof fn lemma_nanos_round_trip(d: Dur)
    requires
        d.wf(),
    ensures
        Dur::spec_from_nanos(d.spec_as_nanos()) == d,
{
    lemma_fundamental_div_mod_converse(
        d.spec_as_nanos(),
        1_000_000_000,
        d.secs as int,
        d.nanos as int,
    );
}

} // verus!
