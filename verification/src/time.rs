//! Conversion of Unix epoch seconds into a wall-clock timestamp at the fixed
//! offset UTC+8.
//!
//! The calendar itself (the proleptic Gregorian calendar of ISO 8601) is
//! stated here as spec functions, so that the contract of [`localize`] pins
//! the wall-clock fields down exactly: the day count of the civil date, plus
//! the seconds of the day, must equal the input instant shifted east by
//! eight hours.

use vstd::prelude::*;

verus! {

/// Seconds of offset east of UTC for the fixed +08:00 zone this library uses.
pub const UTC8_OFFSET_SECONDS: i64 = 28800;

/// Earliest epoch second the calendar library can represent
/// (00:00:00 on January 1 of year -262143).
pub const MIN_EPOCH_SECONDS: i64 = -8334601228800;

/// Latest epoch second the calendar library can represent
/// (23:59:59 on December 31 of year 262142).
pub const MAX_EPOCH_SECONDS: i64 = 8210266876799;

/// A year divisible by 4 is a leap year, except century years not divisible
/// by 400 (proleptic Gregorian rule, applied to all years).
pub open spec fn is_leap_year(y: int) -> bool {
    y % 4 == 0 && (y % 100 != 0 || y % 400 == 0)
}

pub open spec fn days_in_month(y: int, m: int) -> int {
    if m == 2 {
        if is_leap_year(y) {
            29
        } else {
            28
        }
    } else if m == 4 || m == 6 || m == 9 || m == 11 {
        30
    } else {
        31
    }
}

pub open spec fn valid_civil_date(y: int, m: int, d: int) -> bool {
    &&& 1 <= m <= 12
    &&& 1 <= d <= days_in_month(y, m)
}

/// Number of days from 1970-01-01 to the civil date `y-m-d` in the proleptic
/// Gregorian calendar (negative for earlier dates). The computation counts
/// whole 400-year eras from year 0 (shifting the year down by one for
/// January and February, so that each era's leap day falls last in the
/// March-to-February year it belongs to), then days within the era.
pub open spec fn days_from_civil(y: int, m: int, d: int) -> int {
    let ys = if m <= 2 { y - 1 } else { y };
    let era = ys / 400;
    let yoe = ys - era * 400;
    let mp = if m > 2 { m - 3 } else { m + 9 };
    let doy = (153 * mp + 2) / 5 + d - 1;
    let doe = yoe * 365 + yoe / 4 - yoe / 100 + doy;
    era * 146097 + doe - 719468
}

/// The epoch second at which the civil date `y-m-d` reads `h:mi:s` on a UTC
/// wall clock.
pub open spec fn epoch_of_civil(y: int, m: int, d: int, h: int, mi: int, s: int) -> int {
    days_from_civil(y, m, d) * 86400 + h * 3600 + mi * 60 + s
}

/// The epoch seconds whose UTC+8 wall clock the calendar library can
/// represent: the instant itself must be representable, and so must the
/// instant eight hours later, whose calendar fields the wall clock shows.
pub open spec fn in_instant_range(n: int) -> bool {
    MIN_EPOCH_SECONDS as int <= n && n + UTC8_OFFSET_SECONDS as int <= MAX_EPOCH_SECONDS as int
}

// The (year, month, day, hour, minute, second) that the calendar library
// reports for an epoch second at offset +08:00. A function of the epoch
// second alone; `utc8_civil_fields` states what is known of it.
pub uninterp spec fn utc8_civil_of(epoch_seconds: int) -> (int, int, int, int, int, int);

/// The reason `localize` can fail.
#[derive(Clone, Copy, Debug, PartialEq, Eq, Structural)]
pub enum TimeError {
    /// The input does not map to a representable instant.
    OutOfRange,
}

/// An absolute instant together with its wall-clock reading at the fixed
/// offset +08:00. `epoch_seconds` carries the instant; the remaining fields
/// carry the calendar reading, which `wf` ties to the instant.
#[derive(Clone, Copy, Debug, PartialEq, Eq, Structural)]
pub struct LocalizedTimestamp {
    pub epoch_seconds: i64,
    pub year: i32,
    pub month: u8,
    pub day: u8,
    pub hour: u8,
    pub minute: u8,
    pub second: u8,
}

impl LocalizedTimestamp {
    /// The calendar fields are a valid civil date and time of day, and read,
    /// on a UTC wall clock, as the instant shifted east by eight hours:
    /// exactly what "the wall clock at +08:00" means.
    pub open spec fn wf(self) -> bool {
        &&& in_instant_range(self.epoch_seconds as int)
        &&& valid_civil_date(self.year as int, self.month as int, self.day as int)
        &&& self.hour < 24
        &&& self.minute < 60
        &&& self.second < 60
        &&& epoch_of_civil(
            self.year as int,
            self.month as int,
            self.day as int,
            self.hour as int,
            self.minute as int,
            self.second as int,
        ) == self.epoch_seconds as int + UTC8_OFFSET_SECONDS as int
    }

    /// `self` is the UTC+8 localization of the epoch second `n`: it carries
    /// `n` as its instant, is well formed, and its calendar fields are the
    /// ones the calendar library reports for `n`.
    pub open spec fn is_localization_of(self, n: i64) -> bool {
        &&& self.epoch_seconds == n
        &&& self.wf()
        &&& (
            self.year as int,
            self.month as int,
            self.day as int,
            self.hour as int,
            self.minute as int,
            self.second as int,
        ) == utc8_civil_of(n as int)
    }

    /// The offset this timestamp is displayed at, in seconds east of UTC:
    /// always +08:00.
    pub fn offset_seconds(&self) -> (r: i64)
        ensures
            r == UTC8_OFFSET_SECONDS,
    {
        28800
    }
}

/// Relies on chrono: `DateTime::from_timestamp` returns the UTC date-time of
/// an epoch second, `None` exactly on the seconds outside chrono's calendar
/// range; `NaiveDateTime::checked_add_signed` shifts that date-time by the
/// +08:00 offset (the shifted value is chrono's local wall clock for a fixed
/// offset), `None` when the shift leaves the range; the `Datelike` and
/// `Timelike` accessors read the shifted value's proleptic Gregorian
/// calendar fields, which depend on the epoch second alone.
#[verifier::external_body]
fn utc8_civil_fields(epoch_seconds: i64) -> (r: Option<(i32, u8, u8, u8, u8, u8)>)
    ensures
        r is Some <==> in_instant_range(epoch_seconds as int),
        r matches Some(f) ==> {
            &&& (
                f.0 as int,
                f.1 as int,
                f.2 as int,
                f.3 as int,
                f.4 as int,
                f.5 as int,
            ) == utc8_civil_of(epoch_seconds as int)
            &&& valid_civil_date(f.0 as int, f.1 as int, f.2 as int)
            &&& f.3 < 24
            &&& f.4 < 60
            &&& f.5 < 60
            &&& epoch_of_civil(
                f.0 as int,
                f.1 as int,
                f.2 as int,
                f.3 as int,
                f.4 as int,
                f.5 as int,
            ) == epoch_seconds as int + UTC8_OFFSET_SECONDS as int
        },
{
    let utc = chrono::DateTime::from_timestamp(epoch_seconds, 0)?;
    let local = utc.naive_utc().checked_add_signed(chrono::TimeDelta::seconds(28800))?;
    Some((
        chrono::Datelike::year(&local),
        chrono::Datelike::month(&local) as u8,
        chrono::Datelike::day(&local) as u8,
        chrono::Timelike::hour(&local) as u8,
        chrono::Timelike::minute(&local) as u8,
        chrono::Timelike::second(&local) as u8,
    ))
}

/// Everything `localize` promises of its result: success exactly on the
/// representable instants, the input carried through as the instant, the
/// wall-clock fields tied to the instant by `wf`, and the range error
/// otherwise.
pub open spec fn localize_result_spec(n: i64, r: Result<LocalizedTimestamp, TimeError>) -> bool {
    &&& r is Ok <==> in_instant_range(n as int)
    &&& (r matches Ok(t) ==> t.is_localization_of(n))
    &&& (r matches Err(e) ==> e == TimeError::OutOfRange)
}

/// Interpret `epoch_seconds` as an absolute UTC instant and return that
/// instant together with its wall-clock reading at the fixed offset +08:00.
/// Inputs outside the representable range are reported as `OutOfRange`
/// rather than aborting.
pub fn localize(epoch_seconds: i64) -> (r: Result<LocalizedTimestamp, TimeError>)
    ensures
        localize_result_spec(epoch_seconds, r),
{
    match utc8_civil_fields(epoch_seconds) {
        Some((year, month, day, hour, minute, second)) => Ok(
            LocalizedTimestamp { epoch_seconds, year, month, day, hour, minute, second },
        ),
        None => Err(TimeError::OutOfRange),
    }
}

/// Localization is a pure function of its input: two results of localizing
/// the same epoch second are identical, whether they succeeded or failed.
pub proof fn lemma_localize_deterministic(
    n: i64,
    r1: Result<LocalizedTimestamp, TimeError>,
    r2: Result<LocalizedTimestamp, TimeError>,
)
    requires
        localize_result_spec(n, r1),
        localize_result_spec(n, r2),
    ensures
        r1 == r2,
{
    if in_instant_range(n as int) {
        let t1 = r1->Ok_0;
        let t2 = r2->Ok_0;
        assert(t1.year == t2.year);
        assert(t1.month == t2.month);
        assert(t1.day == t2.day);
        assert(t1.hour == t2.hour);
        assert(t1.minute == t2.minute);
        assert(t1.second == t2.second);
        assert(t1 == t2);
    }
}

} // verus!
