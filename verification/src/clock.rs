//! Points in time as the statistics pipeline sees them: whole seconds since
//! the Unix epoch plus the nanoseconds within that second, in UTC.

use vstd::prelude::*;

verus! {

/// No instant that the calendar library can represent lies further from the
/// epoch than this many seconds: it counts days in 32 bits.
pub const MAX_EPOCH_SECONDS: i64 = 200_000_000_000_000;

pub const SECONDS_PER_HOUR: i64 = 3600;

pub const SECONDS_PER_DAY: i64 = 86_400;

/// Largest number of hours, either way, by which an instant may be moved.
pub const MAX_SHIFT_HOURS: i64 = 1_000_000_000_000;

/// Largest number of days, either way, by which an instant may be moved.
pub const MAX_SHIFT_DAYS: i64 = 40_000_000_000;

/// An instant in UTC. Instants are ordered by `secs`, then by `nanos`.
#[derive(Clone, Copy, Debug, PartialEq, Eq, Structural)]
pub struct Timestamp {
    /// Whole seconds since 1970-01-01T00:00:00Z; negative before it.
    pub secs: i64,
    /// Nanoseconds since the start of that second.
    pub nanos: u32,
}

/// What the calendar library makes of `text` read as an RFC 3339 date and
/// time: the instant it denotes, or `None` where the text is not accepted.
pub uninterp spec fn rfc3339_instant(text: Seq<char>) -> Option<Timestamp>;

impl Timestamp {
    /// The instant is close enough to the epoch that shifting it by a few
    /// months cannot leave the range of `i64`.
    pub open spec fn in_range(self) -> bool {
        -MAX_EPOCH_SECONDS <= self.secs <= MAX_EPOCH_SECONDS
    }

    /// `self` lies strictly before `other`.
    pub open spec fn before(self, other: Timestamp) -> bool {
        self.secs < other.secs || (self.secs == other.secs && self.nanos < other.nanos)
    }

    /// `self` moved by `seconds`, which may be negative.
    pub open spec fn shifted(self, seconds: int) -> Timestamp
        recommends
            i64::MIN <= self.secs + seconds <= i64::MAX,
    {
        Timestamp { secs: (self.secs + seconds) as i64, nanos: self.nanos }
    }

    /// Builds an instant, or `None` if it is too far from the epoch.
    pub fn new(secs: i64, nanos: u32) -> (r: Option<Timestamp>)
        ensures
            r == (if -MAX_EPOCH_SECONDS <= secs <= MAX_EPOCH_SECONDS {
                Some(Timestamp { secs, nanos })
            } else {
                None
            }),
    {
        if -MAX_EPOCH_SECONDS <= secs && secs <= MAX_EPOCH_SECONDS {
            Some(Timestamp { secs, nanos })
        } else {
            None
        }
    }

    /// `self` strictly before `other`.
    pub fn is_before(&self, other: &Timestamp) -> (b: bool)
        ensures
            b == self.before(*other),
    {
        self.secs < other.secs || (self.secs == other.secs && self.nanos < other.nanos)
    }

    /// `self` strictly after `other`.
    pub fn is_after(&self, other: &Timestamp) -> (b: bool)
        ensures
            b == other.before(*self),
    {
        other.is_before(self)
    }

    /// The instant `hours` hours later (earlier, if `hours` is negative).
    pub fn plus_hours(&self, hours: i64) -> (r: Timestamp)
        requires
            self.in_range(),
            -MAX_SHIFT_HOURS <= hours <= MAX_SHIFT_HOURS,
        ensures
            r == self.shifted(hours * SECONDS_PER_HOUR),
            r.secs == self.secs + hours * SECONDS_PER_HOUR,
            self.before(r) <==> hours > 0,
    {
        Timestamp { secs: self.secs + hours * SECONDS_PER_HOUR, nanos: self.nanos }
    }

    /// The instant `days` days earlier (later, if `days` is negative).
    pub fn minus_days(&self, days: i64) -> (r: Timestamp)
        requires
            self.in_range(),
            -MAX_SHIFT_DAYS <= days <= MAX_SHIFT_DAYS,
        ensures
            r == self.shifted(-(days * SECONDS_PER_DAY)),
            r.secs == self.secs - days * SECONDS_PER_DAY,
    {
        Timestamp { secs: self.secs - days * SECONDS_PER_DAY, nanos: self.nanos }
    }

    /// Reads the system clock through `chrono::Utc::now`. Nothing is claimed
    /// of the instant but that it is one the calendar library can represent:
    /// its `timestamp()` is a 32-bit day count times 86 400 plus the seconds
    /// of the day.
    #[verifier::external_body]
    pub(crate) fn now() -> (r: Timestamp)
        ensures
            r.in_range(),
    {
        let t = chrono::Utc::now();
        Timestamp { secs: t.timestamp(), nanos: t.timestamp_subsec_nanos() }
    }

    /// Parses `text` with `chrono::DateTime::parse_from_rfc3339` and reads the
    /// result's `timestamp()` and `timestamp_subsec_nanos()`. The contract
    /// only gives the result its name: the same text always yields the same
    /// instant.
    #[verifier::external_body]
    pub(crate) fn parse_rfc3339(text: &str) -> (r: Option<Timestamp>)
        ensures
            r == rfc3339_instant(text@),
    {
        match chrono::DateTime::parse_from_rfc3339(text) {
            Ok(t) => Some(Timestamp { secs: t.timestamp(), nanos: t.timestamp_subsec_nanos() }),
            Err(_) => None,
        }
    }
}

} // verus!
