//! Points in time: calendar timestamps, clock readings, and playback ticks.

use vstd::prelude::*;

verus! {

/// A UTC date and time: whole seconds since 1970-01-01, and nanoseconds into
/// the second (a leap second counts beyond a thousand million).
#[derive(Clone, Copy, Debug, PartialEq, Eq, Structural)]
pub struct Timestamp {
    pub secs: i64,
    pub nanos: u32,
}

impl Timestamp {
    /// Strictly later than `other`.
    pub open spec fn later_than(self, other: Timestamp) -> bool {
        self.secs > other.secs || (self.secs == other.secs && self.nanos > other.nanos)
    }

    /// Whether `self` is strictly later than `other`.
    pub fn is_after(self, other: Timestamp) -> (r: bool)
        ensures
            r == self.later_than(other),
    {
        self.secs > other.secs || (self.secs == other.secs && self.nanos > other.nanos)
    }
}

/// A reading of a monotonic clock, in nanoseconds since the process started.
#[derive(Clone, Copy, Debug, PartialEq, Eq, Structural)]
pub struct Moment {
    pub nanos: u64,
}

/// Nanoseconds in a second.
pub const NANOS_PER_SEC: u128 = 1_000_000_000;

/// The nanoseconds from `earlier` to `later`, or none where `later` comes
/// first.
pub open spec fn elapsed_nanos(earlier: Moment, later: Moment) -> int {
    if later.nanos >= earlier.nanos {
        later.nanos - earlier.nanos
    } else {
        0
    }
}

/// Less than `secs` whole seconds have passed from `earlier` to `later`.
pub open spec fn within_secs(earlier: Moment, later: Moment, secs: u64) -> bool {
    elapsed_nanos(earlier, later) < secs * NANOS_PER_SEC
}

/// Whether less than `secs` whole seconds have passed.
pub fn is_within(earlier: Moment, later: Moment, secs: u64) -> (r: bool)
    ensures
        r == within_secs(earlier, later, secs),
{
    let passed: u64 = if later.nanos >= earlier.nanos {
        later.nanos - earlier.nanos
    } else {
        0
    };
    assert(secs * NANOS_PER_SEC <= u64::MAX * NANOS_PER_SEC) by (nonlinear_arith)
        requires
            secs <= u64::MAX,
            NANOS_PER_SEC == 1_000_000_000,
    ;
    (passed as u128) < (secs as u128) * NANOS_PER_SEC
}

/// Playback positions count ten million ticks to the second.
pub const TICKS_PER_SECOND: i64 = 10_000_000;

/// The unit of a run time.
#[derive(Clone, Copy, Debug, PartialEq, Eq, Structural)]
pub enum TickUnit {
    Seconds,
    Minutes,
}

impl TickUnit {
    /// Ticks in one unit.
    pub open spec fn ticks(self) -> int {
        match self {
            TickUnit::Seconds => TICKS_PER_SECOND as int,
            TickUnit::Minutes => 60 * TICKS_PER_SECOND,
        }
    }
}

/// The ticks of an amount of time, if they fit.
pub open spec fn ticks_of(amount: i64, unit: TickUnit) -> Option<i64> {
    let t = amount * unit.ticks();
    if i64::MIN <= t <= i64::MAX {
        Some(t as i64)
    } else {
        None
    }
}

/// Converts an amount of time to ticks; `None` where they do not fit.
pub fn to_ticks(amount: i64, unit: TickUnit) -> (r: Option<i64>)
    ensures
        r == ticks_of(amount, unit),
{
    match unit {
        TickUnit::Seconds => amount.checked_mul(TICKS_PER_SECOND),
        TickUnit::Minutes => amount.checked_mul(600_000_000),
    }
}

/// What `chrono::DateTime::parse_from_rfc3339` makes of a text: seconds and
/// nanoseconds in UTC, or nothing where the text is no RFC 3339 date.
pub uninterp spec fn rfc3339_utc(text: Seq<char>) -> Option<(i64, u32)>;

/// The same, as a timestamp.
pub open spec fn rfc3339_timestamp(text: Seq<char>) -> Option<Timestamp> {
    match rfc3339_utc(text) {
        Some((secs, nanos)) => Some(Timestamp { secs, nanos }),
        None => None,
    }
}

/// Calls `chrono::DateTime::parse_from_rfc3339`; the grammar of RFC 3339 is
/// left unsaid.
#[verifier::external_body]
pub(crate) fn parse_rfc3339(text: &str) -> (r: Option<(i64, u32)>)
    ensures
        r == rfc3339_utc(text@),
{
    match chrono::DateTime::parse_from_rfc3339(text) {
        Ok(at) => Some((at.timestamp(), at.timestamp_subsec_nanos())),
        Err(_) => None,
    }
}

/// Leap years from year 1 through year `y` of the Gregorian calendar.
pub open spec fn leap_years_through(y: int) -> int {
    y / 4 - y / 100 + y / 400
}

/// The second at which year `y` starts in UTC, counted from 1970-01-01.
pub open spec fn year_start(y: int) -> int {
    86400 * (365 * (y - 1970) + leap_years_through(y - 1) - leap_years_through(1969))
}

/// Year `y` holds the second `secs`.
pub open spec fn in_year(secs: i64, y: int) -> bool {
    year_start(y) <= secs < year_start(y + 1)
}

/// Calls `Datelike::year` of chrono on the UTC date of a second. chrono
/// knows the years from -262143 to 262142; a second outside has none.
#[verifier::external_body]
pub(crate) fn year_of_second(secs: i64) -> (r: Option<i32>)
    ensures
        r is Some <==> year_start(-262143) <= secs < year_start(262143),
        r matches Some(y) ==> in_year(secs, y as int),
{
    match chrono::DateTime::from_timestamp(secs, 0) {
        Some(at) => Some(chrono::Datelike::year(&at.naive_utc())),
        None => None,
    }
}

/// The calendar year of a timestamp is `year`.
pub open spec fn has_year(at: Timestamp, year: Option<i32>) -> bool {
    match year {
        Some(y) => -262143 <= y <= 262142 && in_year(at.secs, y as int),
        None => !(year_start(-262143) <= at.secs < year_start(262143)),
    }
}

/// The calendar year of a timestamp.
pub fn calendar_year(at: Timestamp) -> (r: Option<i32>)
    ensures
        has_year(at, r),
{
    let year: Option<i32> = year_of_second(at.secs);
    proof {
        if let Some(y) = year {
            if y < -262143 {
                lemma_year_start_increases(y + 1, -262143);
            }
            if y > 262142 {
                lemma_year_start_increases(262143, y as int);
            }
        }
    }
    year
}

proof fn lemma_year_start_step(y: int)
    ensures
        86400 * 365 <= year_start(y + 1) - year_start(y) <= 86400 * 366,
{
    let z = y - 1;
    assert(leap_years_through(z + 1) - leap_years_through(z) >= 0 && leap_years_through(z + 1)
        - leap_years_through(z) <= 1) by {
        assert((z + 1) / 4 - z / 4 == (if (z + 1) % 4 == 0 { 1int } else { 0 }));
        assert((z + 1) / 100 - z / 100 == (if (z + 1) % 100 == 0 { 1int } else { 0 }));
        assert((z + 1) / 400 - z / 400 == (if (z + 1) % 400 == 0 { 1int } else { 0 }));
    }
}

proof fn lemma_year_start_increases(y: int, z: int)
    requires
        y <= z,
    ensures
        year_start(y) <= year_start(z),
    decreases z - y,
{
    if y < z {
        lemma_year_start_increases(y, z - 1);
        lemma_year_start_step(z - 1);
    }
}

/// A second lies in one calendar year only.
pub proof fn year_is_unique(secs: i64, y: int, z: int)
    requires
        in_year(secs, y),
        in_year(secs, z),
    ensures
        y == z,
{
    if y < z {
        lemma_year_start_increases(y + 1, z);
    } else if z < y {
        lemma_year_start_increases(z + 1, y);
    }
}

} // verus!
