use vstd::prelude::*;

verus! {

/// Nanoseconds in one second.
pub const NANOS_PER_SEC: u32 = 1_000_000_000;

/// Nanoseconds in one day.
pub const NANOS_PER_DAY: i128 = 86_400_000_000_000;

/// Month of the year (1 to 12) of the UTC calendar date of the instant
/// `secs` seconds and `nanos` nanoseconds after the Unix epoch.
pub uninterp spec fn utc_month_of(secs: int, nanos: int) -> int;

/// Day of the month (1 to 31) of the UTC calendar date of the instant
/// `secs` seconds and `nanos` nanoseconds after the Unix epoch.
pub uninterp spec fn utc_day_of(secs: int, nanos: int) -> int;

/// chrono can represent the instant `secs` seconds and `nanos` nanoseconds
/// after the Unix epoch as a UTC date and time (`nanos` of a second or more
/// only within a leap second).
pub uninterp spec fn utc_representable(secs: int, nanos: int) -> bool;

/// Relies on chrono's `DateTime::<Utc>::from_timestamp` (`None` where chrono
/// cannot represent the instant) and on `Datelike::month` and `Datelike::day`
/// of the result (1 to 12 and 1 to 31).
#[verifier::external_body]
fn utc_month_and_day(secs: i64, nanos: u32) -> (r: Option<(u32, u32)>)
    ensures
        r is Some <==> utc_representable(secs as int, nanos as int),
        r matches Some((m, d)) ==> {
            &&& m == utc_month_of(secs as int, nanos as int)
            &&& d == utc_day_of(secs as int, nanos as int)
            &&& 1 <= m <= 12
            &&& 1 <= d <= 31
        },
{
    match chrono::DateTime::from_timestamp(secs, nanos) {
        Some(t) => Some((chrono::Datelike::month(&t), chrono::Datelike::day(&t))),
        None => None,
    }
}

/// A point in time in UTC: whole seconds since the Unix epoch and the
/// nanoseconds past that second (a second or more within a leap second),
/// with the calendar month and day of the date it falls on.
#[derive(Debug, Clone, Copy, PartialEq, Eq)]
pub struct Timestamp {
    secs: i64,
    nanos: u32,
    month: u32,
    day: u32,
}

impl Timestamp {
    /// Whole seconds since the Unix epoch.
    pub closed spec fn secs_spec(&self) -> int {
        self.secs as int
    }

    /// Nanoseconds past the whole second.
    pub closed spec fn nanos_spec(&self) -> int {
        self.nanos as int
    }

    /// Month of the year of the UTC date.
    pub closed spec fn month_spec(&self) -> int {
        self.month as int
    }

    /// Day of the month of the UTC date.
    pub closed spec fn day_spec(&self) -> int {
        self.day as int
    }

    /// Nanoseconds since the Unix epoch.
    pub open spec fn instant(&self) -> int {
        self.secs_spec() * NANOS_PER_SEC as int + self.nanos_spec()
    }

    /// The calendar fields agree with the instant.
    pub closed spec fn wf(&self) -> bool {
        &&& utc_representable(self.secs as int, self.nanos as int)
        &&& self.month as int == utc_month_of(self.secs as int, self.nanos as int)
        &&& self.day as int == utc_day_of(self.secs as int, self.nanos as int)
        &&& 1 <= self.month <= 12
        &&& 1 <= self.day <= 31
    }

    /// The instant `secs` seconds and `nanos` nanoseconds after the Unix
    /// epoch; `None` where chrono cannot place it on the calendar (it takes
    /// a second's worth of nanoseconds or more only within a leap second).
    pub fn from_unix(secs: i64, nanos: u32) -> (r: Option<Timestamp>)
        ensures
            r is Some <==> utc_representable(secs as int, nanos as int),
            r matches Some(t) ==> {
                &&& t.wf()
                &&& t.secs_spec() == secs
                &&& t.nanos_spec() == nanos
                &&& t.month_spec() == utc_month_of(secs as int, nanos as int)
                &&& t.day_spec() == utc_day_of(secs as int, nanos as int)
            },
    {
        match utc_month_and_day(secs, nanos) {
            Some((month, day)) => Some(Timestamp { secs, nanos, month, day }),
            None => None,
        }
    }

    /// Whole seconds since the Unix epoch.
    pub fn unix_seconds(&self) -> (r: i64)
        ensures
            r == self.secs_spec(),
    {
        self.secs
    }

    /// Nanoseconds past the whole second.
    pub fn subsec_nanos(&self) -> (r: u32)
        ensures
            r == self.nanos_spec(),
    {
        self.nanos
    }

    /// Month of the year of the UTC date.
    pub fn month(&self) -> (r: u32)
        ensures
            r == self.month_spec(),
    {
        self.month
    }

    /// Day of the month of the UTC date.
    pub fn day(&self) -> (r: u32)
        ensures
            r == self.day_spec(),
    {
        self.day
    }

    /// Nanoseconds since the Unix epoch.
    pub fn nanos_since_epoch(&self) -> (r: i128)
        ensures
            r == self.instant(),
    {
        assert(-9_223_372_036_854_775_808 <= self.secs <= 9_223_372_036_854_775_807);
        assert(self.secs as int * 1_000_000_000 <= 9_223_372_036_854_775_807 * 1_000_000_000)
            by (nonlinear_arith)
            requires
                self.secs <= 9_223_372_036_854_775_807,
        ;
        assert(self.secs as int * 1_000_000_000 >= -9_223_372_036_854_775_808 * 1_000_000_000)
            by (nonlinear_arith)
            requires
                self.secs >= -9_223_372_036_854_775_808,
        ;
        self.secs as i128 * 1_000_000_000 + self.nanos as i128
    }
}

/// More than six days of time passed from `earlier` to `later`.
pub open spec fn more_than_six_days(earlier: Timestamp, later: Timestamp) -> bool {
    later.instant() - earlier.instant() > 6 * NANOS_PER_DAY
}

/// Whether more than six days of time passed from `earlier` to `later`.
pub fn is_more_than_six_days(earlier: &Timestamp, later: &Timestamp) -> (r: bool)
    ensures
        r == more_than_six_days(*earlier, *later),
{
    let a = earlier.nanos_since_epoch();
    let b = later.nanos_since_epoch();
    assert(-9_223_372_036_854_775_808 * 1_000_000_001 <= a <= 9_223_372_036_854_775_807 * 1_000_000_001);
    b - a > 6 * NANOS_PER_DAY
}

} // verus!
