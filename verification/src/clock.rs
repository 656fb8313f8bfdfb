//! Instants on the UTC time line, and the waits between them.

use chrono::{DateTime, Utc};
use vstd::prelude::*;

verus! {

/// Nanoseconds in one second.
pub const NANOS_PER_SEC: u32 = 1_000_000_000;

/// The first second an instant can name: the start of the year -262143.
pub const MIN_TIMESTAMP: i64 = -8_334_601_228_800;

/// The last second an instant can name: the end of the year 262142.
pub const MAX_TIMESTAMP: i64 = 8_210_266_876_799;

/// A length of time that is never negative, as whole seconds and the
/// nanoseconds beyond them.
#[derive(Clone, Copy, Debug, PartialEq, Eq, PartialOrd, Ord, Hash, Structural)]
pub struct Delay {
    pub secs: u64,
    pub nanos: u32,
}

impl View for Delay {
    type V = int;

    /// The length in nanoseconds.
    open spec fn view(&self) -> int {
        self.secs * 1_000_000_000 + self.nanos
    }
}

impl Delay {
    /// The wait of `n` nanoseconds.
    pub open spec fn of_nanos(n: int) -> Delay {
        Delay { secs: (n / 1_000_000_000) as u64, nanos: (n % 1_000_000_000) as u32 }
    }

    /// No wait at all.
    pub fn zero() -> (d: Delay)
        ensures
            d == Delay::of_nanos(0),
    {
        Delay { secs: 0, nanos: 0 }
    }

    /// Whether the wait has no length.
    pub fn is_zero(&self) -> (r: bool)
        ensures
            r <==> self@ == 0,
    {
        self.secs == 0 && self.nanos == 0
    }
}

/// An instant of UTC, to the nanosecond, between the seconds `MIN_TIMESTAMP`
/// and `MAX_TIMESTAMP` counted from 1970-01-01T00:00:00Z.
#[derive(Clone, Copy, Debug, PartialEq, Eq, PartialOrd, Ord, Hash, Structural)]
pub struct UtcInstant {
    secs: i64,
    nanos: u32,
}

impl View for UtcInstant {
    type V = int;

    /// The nanoseconds from 1970-01-01T00:00:00Z to the instant.
    closed spec fn view(&self) -> int {
        self.secs * 1_000_000_000 + self.nanos
    }
}

impl UtcInstant {
    /// Whether the value names an instant: every value that runs does.
    #[verifier::type_invariant]
    pub closed spec fn in_range(self) -> bool {
        &&& MIN_TIMESTAMP <= self.secs <= MAX_TIMESTAMP
        &&& self.nanos < NANOS_PER_SEC
    }

    /// Whether the pair names an instant.
    pub open spec fn valid_parts(secs: i64, nanos: u32) -> bool {
        &&& MIN_TIMESTAMP <= secs <= MAX_TIMESTAMP
        &&& nanos < NANOS_PER_SEC
    }

    /// The instant at the start of the given second.
    pub closed spec fn at_second(secs: i64) -> UtcInstant {
        UtcInstant { secs, nanos: 0 }
    }

    /// The instant `nanos` nanoseconds into the second `secs`; `None` where
    /// the pair names no instant.
    pub fn new(secs: i64, nanos: u32) -> (r: Option<UtcInstant>)
        ensures
            r is Some <==> Self::valid_parts(secs, nanos),
            r matches Some(t) ==> t@ == secs * 1_000_000_000 + nanos,
    {
        if MIN_TIMESTAMP <= secs && secs <= MAX_TIMESTAMP && nanos < NANOS_PER_SEC {
            Some(UtcInstant { secs, nanos })
        } else {
            None
        }
    }

    /// The whole seconds from 1970-01-01T00:00:00Z to the instant, rounded
    /// towards the past.
    pub fn timestamp(&self) -> (secs: i64)
        ensures
            MIN_TIMESTAMP <= secs <= MAX_TIMESTAMP,
            secs == self@ / 1_000_000_000,
    {
        proof {
            use_type_invariant(self);
        }
        self.secs
    }

    /// The nanoseconds of the instant beyond its whole second.
    pub fn subsec_nanos(&self) -> (nanos: u32)
        ensures
            nanos < NANOS_PER_SEC,
            nanos == self@ % 1_000_000_000,
    {
        proof {
            use_type_invariant(self);
        }
        self.nanos
    }

    /// Whether this instant lies strictly after `other`.
    pub fn is_after(&self, other: &UtcInstant) -> (r: bool)
        ensures
            r <==> self@ > other@,
    {
        proof {
            use_type_invariant(self);
            use_type_invariant(other);
        }
        self.secs > other.secs || (self.secs == other.secs && self.nanos > other.nanos)
    }

    /// The nanoseconds from `earlier` up to this instant: none where this
    /// instant is not the later one.
    pub open spec fn nanos_since(self, earlier: UtcInstant) -> int {
        if self@ > earlier@ {
            self@ - earlier@
        } else {
            0
        }
    }

    /// The time from `earlier` up to this instant, or no time where this
    /// instant is not the later one.
    pub fn saturating_since(&self, earlier: &UtcInstant) -> (d: Delay)
        ensures
            d == Delay::of_nanos(self.nanos_since(*earlier)),
            d@ == self.nanos_since(*earlier),
    {
        proof {
            use_type_invariant(self);
            use_type_invariant(earlier);
        }
        if !self.is_after(earlier) {
            return Delay::zero();
        }
        let whole: i64 = self.secs - earlier.secs;
        if self.nanos >= earlier.nanos {
            Delay { secs: whole as u64, nanos: self.nanos - earlier.nanos }
        } else {
            Delay { secs: (whole - 1) as u64, nanos: NANOS_PER_SEC - earlier.nanos + self.nanos }
        }
    }
}

/// The instant at the start of a second in range is an instant, that many
/// whole seconds from 1970-01-01T00:00:00Z.
pub proof fn lemma_at_second(secs: i64)
    requires
        MIN_TIMESTAMP <= secs <= MAX_TIMESTAMP,
    ensures
        UtcInstant::at_second(secs).in_range(),
        UtcInstant::at_second(secs)@ == secs * 1_000_000_000,
{
}

/// The time between two instants always fits a `Delay`, which then holds
/// just that many nanoseconds.
pub proof fn lemma_nanos_since_fits(later: UtcInstant, earlier: UtcInstant)
    requires
        later.in_range(),
        earlier.in_range(),
    ensures
        0 <= later.nanos_since(earlier) < 0x1_0000_0000_0000_0000 * 1_000_000_000,
        Delay::of_nanos(later.nanos_since(earlier))@ == later.nanos_since(earlier),
        Delay::of_nanos(later.nanos_since(earlier)).nanos < NANOS_PER_SEC,
{
}

/// `chrono::Utc::now`, as an instant of this library. The reading depends
/// on the system clock, so nothing is said of it but that it names an
/// instant. `chrono` panics where the clock stands before 1970 or beyond the
/// last instant it can name.
#[verifier::external_body]
pub(crate) fn utc_now() -> (now: UtcInstant)
    ensures
        now.in_range(),
{
    let now: DateTime<Utc> = Utc::now();
    UtcInstant { secs: now.timestamp(), nanos: now.timestamp_subsec_nanos() }
}

/// `chrono::DateTime::from_timestamp` with no nanoseconds, as an instant of
/// this library. `chrono` accepts the seconds of the years -262143 to
/// 262142, which are those from `MIN_TIMESTAMP` to `MAX_TIMESTAMP`, and
/// gives the instant at the start of the second.
#[verifier::external_body]
pub(crate) fn utc_from_timestamp(secs: i64) -> (at: Option<UtcInstant>)
    ensures
        at is Some <==> MIN_TIMESTAMP <= secs <= MAX_TIMESTAMP,
        at matches Some(t) ==> t == UtcInstant::at_second(secs),
{
    match DateTime::from_timestamp(secs, 0) {
        Some(at) => Some(UtcInstant { secs: at.timestamp(), nanos: at.timestamp_subsec_nanos() }),
        None => None,
    }
}

} // verus!
