//! Instants on the UTC time line and the whole days between two of them.
//!
//! An instant is held as seconds and nanoseconds since the epoch. The range
//! is that of the calendar of `chrono`, from which the instants come: the
//! years -262143 to 262142.

use vstd::prelude::*;

verus! {

/// Nanoseconds in one second.
pub const NANOS_PER_SECOND: u32 = 1_000_000_000;

/// Nanoseconds in one day.
pub const NANOS_PER_DAY: i128 = 86_400_000_000_000;

/// The first second that a `Timestamp` can hold: midnight before
/// 1 January of the year -262143.
pub const MIN_SECONDS: i64 = -8_334_601_228_800;

/// The last second that a `Timestamp` can hold: the one before midnight after
/// 31 December of the year 262142.
pub const MAX_SECONDS: i64 = 8_210_266_876_799;

/// An instant: whole seconds since 1 January 1970, 00:00:00 UTC, and the
/// nanoseconds into that second.
#[derive(Clone, Copy, Debug, PartialEq, Eq, Structural)]
pub struct Timestamp {
    secs: i64,
    nanos: u32,
}

/// Whether `secs` and `nanos` name an instant that a `Timestamp` can hold.
pub open spec fn representable(secs: int, nanos: int) -> bool {
    &&& MIN_SECONDS <= secs <= MAX_SECONDS
    &&& 0 <= nanos < NANOS_PER_SECOND
}

/// The quotient of `a` by `b`, rounded towards zero.
pub open spec fn quotient_towards_zero(a: int, b: int) -> int {
    if a >= 0 {
        a / b
    } else {
        -((-a) / b)
    }
}

/// The whole days that lie between `earlier` and `later`: positive when
/// `later` is the later one, negative when it is not, and zero when less
/// than a day parts them.
pub open spec fn whole_days_between(earlier: Timestamp, later: Timestamp) -> int {
    quotient_towards_zero(later.total_nanos() - earlier.total_nanos(), NANOS_PER_DAY as int)
}

impl Timestamp {
    /// The whole seconds since the epoch.
    pub closed spec fn seconds(self) -> int {
        self.secs as int
    }

    /// The nanoseconds into the second.
    pub closed spec fn subsec_nanos(self) -> int {
        self.nanos as int
    }

    /// Holds of every `Timestamp` that executable code can get hold of.
    #[verifier::type_invariant]
    pub open spec fn valid(self) -> bool {
        representable(self.seconds(), self.subsec_nanos())
    }

    /// The nanoseconds since the epoch.
    pub open spec fn total_nanos(self) -> int {
        self.seconds() * NANOS_PER_SECOND + self.subsec_nanos()
    }

    /// The instant `nanos` nanoseconds into the second `secs`, if a
    /// `Timestamp` can hold it.
    pub fn new(secs: i64, nanos: u32) -> (made: Option<Timestamp>)
        ensures
            made is Some <==> representable(secs as int, nanos as int),
            made matches Some(t) ==> t.seconds() == secs && t.subsec_nanos() == nanos,
    {
        if MIN_SECONDS <= secs && secs <= MAX_SECONDS && nanos < NANOS_PER_SECOND {
            Some(Timestamp { secs, nanos })
        } else {
            None
        }
    }

    /// The whole seconds since the epoch.
    pub fn secs(&self) -> (s: i64)
        ensures
            s == self.seconds(),
            MIN_SECONDS <= s <= MAX_SECONDS,
    {
        proof {
            use_type_invariant(self);
        }
        self.secs
    }

    /// The nanoseconds into the second.
    pub fn nanos(&self) -> (n: u32)
        ensures
            n == self.subsec_nanos(),
            n < NANOS_PER_SECOND,
    {
        proof {
            use_type_invariant(self);
        }
        self.nanos
    }

    /// Whether `self` is `other` or comes before it.
    pub fn not_after(&self, other: &Timestamp) -> (b: bool)
        ensures
            b == (self.total_nanos() <= other.total_nanos()),
    {
        proof {
            use_type_invariant(self);
            use_type_invariant(other);
        }
        self.secs < other.secs || (self.secs == other.secs && self.nanos <= other.nanos)
    }

    /// The nanoseconds since the epoch.
    pub fn nanos_since_epoch(&self) -> (total: i128)
        ensures
            total == self.total_nanos(),
    {
        proof {
            use_type_invariant(self);
        }
        (self.secs as i128) * (NANOS_PER_SECOND as i128) + (self.nanos as i128)
    }

    /// The whole days from `earlier` to `self`.
    pub fn days_since(&self, earlier: &Timestamp) -> (days: i32)
        ensures
            days == whole_days_between(*earlier, *self),
    {
        proof {
            use_type_invariant(self);
            use_type_invariant(earlier);
        }
        let apart: i128 = self.nanos_since_epoch() - earlier.nanos_since_epoch();
        if apart >= 0 {
            (apart / NANOS_PER_DAY) as i32
        } else {
            (-((-apart) / NANOS_PER_DAY)) as i32
        }
    }
}

/// The present instant, as `chrono::Utc::now` reads it from the system clock,
/// in the seconds and nanoseconds that `DateTime::timestamp` and
/// `DateTime::timestamp_subsec_nanos` give for it. Trusted: that this is an
/// instant of the range above, with less than a second's worth of
/// nanoseconds. Nothing is claimed of which instant it is: two readings may
/// even come out of order.
///
/// `now` panics on a system whose clock stands before 1970 or beyond the
/// range.
#[verifier::external_body]
pub(crate) fn utc_now() -> (now: Timestamp)
    ensures
        now.valid(),
{
    let now = chrono::Utc::now();
    Timestamp { secs: now.timestamp(), nanos: now.timestamp_subsec_nanos() }
}

} // verus!
