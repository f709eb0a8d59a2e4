//! Local wall-clock instants and the calendar arithmetic the mode catalog
//! needs: leap years, month lengths, the successor calendar day, and the
//! conversion of a UTC instant to the local calendar of a named IANA zone.

use vstd::prelude::*;

verus! {

/// Timestamps are kept below this bound (seconds since the Unix epoch,
/// roughly the year 9892) so that every local calendar year fits in four
/// digits and the successor day is always defined.
pub const UTC_MAX: i64 = 250_000_000_000;

/// A wall-clock instant as seen in some timezone: the local calendar date and
/// the local time of day. All mode eligibility rules read only these fields.
#[derive(Clone, Copy, PartialEq, Eq, Structural, Debug)]
pub struct LocalInstant {
    pub year: i32,
    pub month: u8,
    pub day: u8,
    pub hour: u8,
    pub minute: u8,
    pub second: u8,
}

pub open spec fn is_leap_year_spec(y: int) -> bool {
    y % 4 == 0 && (y % 100 != 0 || y % 400 == 0)
}

pub open spec fn days_in_month_spec(y: int, m: int) -> int {
    if m == 2 {
        if is_leap_year_spec(y) {
            29
        } else {
            28
        }
    } else if m == 4 || m == 6 || m == 9 || m == 11 {
        30
    } else {
        31
    }
}

impl LocalInstant {
    /// A valid local instant: a real calendar date and a real time of day,
    /// in the four-digit year range every supported timestamp maps into.
    pub open spec fn wf(self) -> bool {
        &&& 1 <= self.year <= 9999
        &&& 1 <= self.month <= 12
        &&& 1 <= self.day <= days_in_month_spec(self.year as int, self.month as int)
        &&& self.hour < 24
        &&& self.minute < 60
        &&& self.second < 60
    }

    /// Seconds of local time already elapsed since local midnight.
    pub open spec fn seconds_of_day_spec(self) -> int {
        self.hour * 3600 + self.minute * 60 + self.second
    }

    /// Seconds of local time until the next local midnight.
    pub fn seconds_to_midnight(&self) -> (r: u32)
        requires
            self.wf(),
        ensures
            r == 86400 - self.seconds_of_day_spec(),
    {
        86400 - ((self.hour as u32) * 3600 + (self.minute as u32) * 60 + (self.second as u32))
    }
}

pub fn is_leap_year(y: i32) -> (r: bool)
    requires
        y >= 1,
    ensures
        r == is_leap_year_spec(y as int),
{
    y % 4 == 0 && (y % 100 != 0 || y % 400 == 0)
}

pub fn days_in_month(y: i32, m: u8) -> (r: u8)
    requires
        y >= 1,
        1 <= m <= 12,
    ensures
        r == days_in_month_spec(y as int, m as int),
{
    if m == 2 {
        if is_leap_year(y) {
            29
        } else {
            28
        }
    } else if m == 4 || m == 6 || m == 9 || m == 11 {
        30
    } else {
        31
    }
}

/// The calendar day after the given one: `(year, month, day)`.
pub open spec fn next_day_spec(y: int, m: int, d: int) -> (int, int, int) {
    if d < days_in_month_spec(y, m) {
        (y, m, d + 1)
    } else if m < 12 {
        (y, m + 1, 1)
    } else {
        (y + 1, 1, 1)
    }
}

/// The calendar day immediately after this instant's local date. Always
/// defined: supported years stay far below the integer limits.
pub fn next_day(now: &LocalInstant) -> (r: (i32, u8, u8))
    requires
        now.wf(),
    ensures
        (r.0 as int, r.1 as int, r.2 as int) == next_day_spec(
            now.year as int,
            now.month as int,
            now.day as int,
        ),
{
    if now.day < days_in_month(now.year, now.month) {
        (now.year, now.month, now.day + 1)
    } else if now.month < 12 {
        (now.year, now.month + 1, 1)
    } else {
        (now.year + 1, 1, 1)
    }
}

/// The successor day is Jan 1 exactly on Dec 31: "tomorrow is New Year's Day"
/// is the same condition as "today is the last day of December".
pub proof fn lemma_next_day_new_year(now: LocalInstant)
    requires
        now.wf(),
    ensures
        ({
            let (_, m, d) = next_day_spec(now.year as int, now.month as int, now.day as int);
            (m == 1 && d == 1) <==> (now.month == 12 && now.day == 31)
        }),
{
}

/// Whether a timezone name is in the IANA database that the process carries.
pub uninterp spec fn zone_known(name: Seq<char>) -> bool;

/// The local calendar fields of a UTC instant in a named zone, or `None` for
/// a name outside the database.
pub uninterp spec fn local_of(name: Seq<char>, utc_secs: int) -> Option<LocalInstant>;

/// Relies on chrono_tz's `Tz::from_str`: whether a timezone name parses
/// depends on the name alone (a lookup in the bundled IANA table).
#[verifier::external_body]
pub(crate) fn zone_exists(name: &str) -> (r: bool)
    ensures
        r == zone_known(name@),
{
    <chrono_tz::Tz as core::str::FromStr>::from_str(name).is_ok()
}

/// Relies on chrono_tz's `Tz::from_str` and chrono's `DateTime::from_timestamp`
/// and `with_timezone`: the local calendar fields depend on the zone name and
/// the instant alone, conversion is total for every known zone in the
/// supported timestamp range, and the fields form a valid date and time of day.
#[verifier::external_body]
pub(crate) fn local_fields(name: &str, utc_secs: i64) -> (r: Option<LocalInstant>)
    requires
        0 <= utc_secs < UTC_MAX,
    ensures
        r == local_of(name@, utc_secs as int),
        r is Some <==> zone_known(name@),
        r matches Some(loc) ==> loc.wf(),
{
    let tz: chrono_tz::Tz = match <chrono_tz::Tz as core::str::FromStr>::from_str(name) {
        Ok(tz) => tz,
        Err(_) => return None,
    };
    let utc = chrono::DateTime::from_timestamp(utc_secs, 0)?;
    let local = utc.with_timezone(&tz);
    Some(LocalInstant {
        year: chrono::Datelike::year(&local),
        month: chrono::Datelike::month(&local) as u8,
        day: chrono::Datelike::day(&local) as u8,
        hour: chrono::Timelike::hour(&local) as u8,
        minute: chrono::Timelike::minute(&local) as u8,
        second: chrono::Timelike::second(&local) as u8,
    })
}

} // verus!
