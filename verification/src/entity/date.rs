//! A point in time, to the nanosecond, as the calendar of UTC can show it.

use chrono::TimeZone;
use vstd::prelude::*;

verus! {

/// A point in time as the standard library measures it. Nothing inside it is
/// visible to proofs.
#[verifier::external_type_specification]
#[verifier::external_body]
pub struct ExSystemTime(std::time::SystemTime);

/// The first second of the calendar: midnight before 1 January of the year
/// -262143, the first year that chrono shows.
pub const FIRST_SECOND: i64 = -8_334_601_228_800;

/// The last second of the calendar: the one before midnight after
/// 31 December of the year 262142, the last year that chrono shows.
pub const LAST_SECOND: i64 = 8_210_266_876_799;

/// Whether the calendar has a date for a timestamp: the seconds lie within
/// the years that the calendar shows, and the nanoseconds are below one
/// second, or below two where they name a leap second, which follows the
/// last second of a minute.
pub open spec fn timestamp_exists(secs: i64, nanos: u32) -> bool {
    &&& FIRST_SECOND <= secs <= LAST_SECOND
    &&& nanos < 1_000_000_000 || (nanos < 2_000_000_000 && secs % 60 == 59)
}

/// What `chrono` writes for the date of a timestamp under the format
/// `%d/%m/%Y`: day, month and year of the UTC calendar.
pub uninterp spec fn calendar_day_text(secs: i64, nanos: u32) -> Seq<char>;

/// Calls `chrono::Utc.timestamp_opt` and says whether it yields a date.
/// chrono yields one where the day of the timestamp lies in a year from
/// -262143 to 262142, and the nanoseconds are below one second or, after the
/// fifty-ninth second of a minute, below two.
#[verifier::external_body]
fn timestamp_is_date(secs: i64, nanos: u32) -> (exists: bool)
    ensures
        exists == timestamp_exists(secs, nanos),
{
    chrono::Utc.timestamp_opt(secs, nanos).single().is_some()
}

/// Calls `chrono::DateTime::format` with `%d/%m/%Y` on the date of the
/// timestamp, which must exist.
#[verifier::external_body]
fn format_calendar_day(secs: i64, nanos: u32) -> (text: String)
    requires
        timestamp_exists(secs, nanos),
    ensures
        text@ == calendar_day_text(secs, nanos),
{
    chrono::Utc.timestamp_opt(secs, nanos).unwrap().format("%d/%m/%Y").to_string()
}

/// Calls `std::time::SystemTime::now`. The clock decides, so nothing is
/// claimed about the time.
#[verifier::external_body]
fn clock_now() -> (time: std::time::SystemTime) {
    std::time::SystemTime::now()
}

/// Calls `SystemTime::duration_since` with the Unix epoch: whole seconds and
/// the nanoseconds beyond them, which stay below one second; `None` for a
/// time before the epoch.
#[verifier::external_body]
fn since_unix_epoch(time: std::time::SystemTime) -> (elapsed: Option<(u64, u32)>)
    ensures
        elapsed matches Some((_, nanos)) ==> nanos < 1_000_000_000,
{
    time.duration_since(std::time::SystemTime::UNIX_EPOCH).ok().map(
        |d| (d.as_secs(), d.subsec_nanos()),
    )
}

/// A date of the UTC calendar, held as seconds and nanoseconds since the
/// Unix epoch. Every value is a timestamp for which the calendar has a date.
#[derive(Eq, PartialOrd, Ord, Clone, Copy, Debug, Hash)]
pub struct EntityDate {
    secs: i64,
    nanos: u32,
}

/// Seconds since the Unix epoch, negative before it, and the nanoseconds
/// beyond the whole seconds.
pub struct Timestamp {
    pub secs: i64,
    pub nanos: u32,
}

impl View for EntityDate {
    type V = Timestamp;

    closed spec fn view(&self) -> Timestamp {
        Timestamp { secs: self.secs, nanos: self.nanos }
    }
}

impl PartialEq for EntityDate {
    fn eq(&self, other: &Self) -> (same: bool) {
        self.secs == other.secs && self.nanos == other.nanos
    }
}

impl vstd::std_specs::cmp::PartialEqSpecImpl for EntityDate {
    open spec fn obeys_eq_spec() -> bool {
        true
    }

    open spec fn eq_spec(&self, other: &Self) -> bool {
        self@ == other@
    }
}

/// The Unix epoch.
pub open spec fn epoch() -> Timestamp {
    Timestamp { secs: 0, nanos: 0 }
}

impl Timestamp {
    /// Whether this timestamp comes before `other`.
    pub open spec fn earlier_than(self, other: Self) -> bool {
        self.secs < other.secs || (self.secs == other.secs && self.nanos < other.nanos)
    }
}

/// The timestamp itself where the calendar has a date for it, else the epoch.
pub open spec fn date_or_epoch(secs: i64, nanos: u32) -> Timestamp {
    if timestamp_exists(secs, nanos) {
        Timestamp { secs, nanos }
    } else {
        epoch()
    }
}

/// The date of a time that lies `elapsed` after the epoch, in whole seconds
/// and nanoseconds, or before it where `elapsed` is `None`: the epoch for a
/// time before it, and else the date of the timestamp, whose seconds are
/// those elapsed, cut to 64 bits with a sign.
pub open spec fn date_since_epoch(elapsed: Option<(u64, u32)>) -> Timestamp {
    match elapsed {
        Some((secs, nanos)) => date_or_epoch(secs as i64, nanos),
        None => epoch(),
    }
}

impl EntityDate {
    #[verifier::type_invariant]
    spec fn on_calendar(self) -> bool {
        timestamp_exists(self.secs, self.nanos)
    }

    /// The date of `date`. A time before the epoch, or one that the calendar
    /// cannot show, gives the epoch.
    pub fn new(date: std::time::SystemTime) -> (made: Self)
        ensures
            timestamp_exists(made@.secs, made@.nanos),
    {
        Self::since_epoch(since_unix_epoch(date))
    }

    /// The date of a time that lies `elapsed` after the epoch, or before it
    /// where `elapsed` is `None`.
    pub fn since_epoch(elapsed: Option<(u64, u32)>) -> (made: Self)
        ensures
            made@ == date_since_epoch(elapsed),
            timestamp_exists(made@.secs, made@.nanos),
    {
        match elapsed {
            Some((secs, nanos)) => Self::from_timestamp(
                #[verifier::truncate]
                (secs as i64),
                nanos,
            ),
            None => Self::default(),
        }
    }

    /// The date of the timestamp, or the epoch where the calendar has none.
    pub fn from_timestamp(secs: i64, nanos: u32) -> (made: Self)
        ensures
            made@ == date_or_epoch(secs, nanos),
            timestamp_exists(made@.secs, made@.nanos),
    {
        if timestamp_is_date(secs, nanos) {
            Self { secs, nanos }
        } else {
            Self::default()
        }
    }

    /// The date that the clock shows now; the epoch should the clock show a
    /// time before the epoch or one for which the calendar has no date.
    pub fn now() -> (made: Self)
        ensures
            timestamp_exists(made@.secs, made@.nanos),
    {
        Self::new(clock_now())
    }

    /// Seconds since the Unix epoch.
    pub fn timestamp(&self) -> (secs: i64)
        ensures
            secs == self@.secs,
    {
        self.secs
    }

    /// Nanoseconds beyond the whole seconds.
    pub fn timestamp_subsec_nanos(&self) -> (nanos: u32)
        ensures
            nanos == self@.nanos,
    {
        self.nanos
    }

    /// Day, month and year, as in `31/12/1999`.
    pub fn date_str(&self) -> (text: String)
        ensures
            text@ == calendar_day_text(self@.secs, self@.nanos),
    {
        proof {
            use_type_invariant(self);
        }
        format_calendar_day(self.secs, self.nanos)
    }

    /// Whether this date comes before `other`.
    pub fn before(&self, other: &Self) -> (earlier: bool)
        ensures
            earlier == self@.earlier_than(other@),
    {
        self.secs < other.secs || (self.secs == other.secs && self.nanos < other.nanos)
    }
}

impl Default for EntityDate {
    /// The Unix epoch.
    fn default() -> (made: Self)
        ensures
            made@ == epoch(),
            timestamp_exists(made@.secs, made@.nanos),
    {
        Self { secs: 0, nanos: 0 }
    }
}

} // verus!
