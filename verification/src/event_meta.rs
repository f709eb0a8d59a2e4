//! Event overview metadata: the hybrid datetime strings the event wiki
//! format uses (with a trailing `Z` for UTC, without one for event-local
//! time) and the timezone fallback chain of an event record.

use vstd::prelude::*;
use vstd::string::{StringExecFns, StringSliceAdditionalSpecFns};

use crate::clock::LocalInstant;

verus! {

/// A datetime that is either specified as UTC (`aware`) or given without a
/// timezone, to be interpreted in the event's own zone.
#[derive(Clone, Copy, PartialEq, Eq, Structural, Debug)]
pub struct HybridDateTime {
    pub inner: LocalInstant,
    pub aware: bool,
}

pub open spec fn is_digit(b: u8) -> bool {
    ('0' as u8) <= b <= ('9' as u8)
}

pub open spec fn dv(b: u8) -> int {
    b - ('0' as u8)
}

pub open spec fn num2(s: Seq<u8>, i: int) -> int {
    10 * dv(s[i]) + dv(s[i + 1])
}

pub open spec fn num4(s: Seq<u8>, i: int) -> int {
    1000 * dv(s[i]) + 100 * dv(s[i + 1]) + 10 * dv(s[i + 2]) + dv(s[i + 3])
}

/// The fixed layout `YYYY-MM-DDTHH:MM:SS`, optionally followed by `Z`.
pub open spec fn dt_shape_ok(s: Seq<u8>) -> bool {
    &&& (s.len() == 19 || (s.len() == 20 && s[19] == ('Z' as u8)))
    &&& is_digit(s[0]) && is_digit(s[1]) && is_digit(s[2]) && is_digit(s[3])
    &&& s[4] == ('-' as u8) && s[7] == ('-' as u8)
    &&& is_digit(s[5]) && is_digit(s[6])
    &&& is_digit(s[8]) && is_digit(s[9])
    &&& s[10] == ('T' as u8)
    &&& is_digit(s[11]) && is_digit(s[12])
    &&& s[13] == (':' as u8) && s[16] == (':' as u8)
    &&& is_digit(s[14]) && is_digit(s[15])
    &&& is_digit(s[17]) && is_digit(s[18])
}

/// The calendar fields spelled by a well-shaped datetime string.
pub open spec fn dt_fields(s: Seq<u8>) -> LocalInstant {
    LocalInstant {
        year: num4(s, 0) as i32,
        month: num2(s, 5) as u8,
        day: num2(s, 8) as u8,
        hour: num2(s, 11) as u8,
        minute: num2(s, 14) as u8,
        second: num2(s, 17) as u8,
    }
}

/// A hybrid datetime parses exactly when the layout fits and the fields
/// form a real calendar date and time of day.
pub open spec fn parse_hybrid_spec(s: Seq<u8>) -> Option<HybridDateTime> {
    if dt_shape_ok(s) && dt_fields(s).wf() {
        Some(HybridDateTime { inner: dt_fields(s), aware: s.len() == 20 })
    } else {
        None
    }
}

fn digit(b: u8) -> (r: bool)
    ensures
        r == is_digit(b),
{
    b >= 48 && b <= 57
}

fn num2_at(bytes: &[u8], i: usize) -> (r: u8)
    requires
        i + 2 <= bytes@.len(),
        is_digit(bytes@[i as int]),
        is_digit(bytes@[i + 1]),
    ensures
        r == num2(bytes@, i as int),
{
    (bytes[i] - 48) * 10 + (bytes[i + 1] - 48)
}

impl HybridDateTime {
    /// Parse the event wiki's datetime format; `None` for anything that is
    /// not exactly this layout or not a real date.
    pub fn parse(s: &str) -> (r: Option<HybridDateTime>)
        ensures
            r == parse_hybrid_spec(s.spec_bytes()),
    {
        Self::parse_bytes(s.as_bytes())
    }

    /// The same parser, over the raw bytes.
    pub fn parse_bytes(bytes: &[u8]) -> (r: Option<HybridDateTime>)
        ensures
            r == parse_hybrid_spec(bytes@),
    {
        let n = bytes.len();
        if n != 19 && n != 20 {
            return None;
        }
        if n == 20 && bytes[19] != 90 {
            return None;
        }
        if bytes[4] != 45 || bytes[7] != 45 || bytes[10] != 84 || bytes[13] != 58 || bytes[16]
            != 58 {
            return None;
        }
        if !(digit(bytes[0]) && digit(bytes[1]) && digit(bytes[2]) && digit(bytes[3])) {
            return None;
        }
        if !(digit(bytes[5]) && digit(bytes[6]) && digit(bytes[8]) && digit(bytes[9])) {
            return None;
        }
        if !(digit(bytes[11]) && digit(bytes[12]) && digit(bytes[14]) && digit(bytes[15])
            && digit(bytes[17]) && digit(bytes[18])) {
            return None;
        }
        let year: i32 = ((bytes[0] - 48) as i32) * 1000 + ((bytes[1] - 48) as i32) * 100 + ((
        bytes[2] - 48) as i32) * 10 + ((bytes[3] - 48) as i32);
        let month = num2_at(bytes, 5);
        let day = num2_at(bytes, 8);
        let hour = num2_at(bytes, 11);
        let minute = num2_at(bytes, 14);
        let second = num2_at(bytes, 17);
        if year < 1 {
            return None;
        }
        if month < 1 || month > 12 {
            return None;
        }
        if day < 1 || day > crate::clock::days_in_month(year, month) {
            return None;
        }
        if hour >= 24 || minute >= 60 || second >= 60 {
            return None;
        }
        let inner = LocalInstant { year, month, day, hour, minute, second };
        proof {
            assert(inner == dt_fields(bytes@));
            assert(dt_shape_ok(bytes@) && dt_fields(bytes@).wf());
        }
        Some(HybridDateTime { inner, aware: n == 20 })
    }
}

/// The fields of an event's overview record that this engine reads: the
/// optional start and end instants and the timezone fallback chain.
#[derive(Debug, PartialEq, Eq)]
pub struct EventMeta {
    pub start: Option<HybridDateTime>,
    pub end: Option<HybridDateTime>,
    pub timezone: Option<String>,
    pub location_timezone: Option<String>,
}

impl EventMeta {
    /// The event's timezone: an explicit one wins, else the venue's, else
    /// Europe/Berlin.
    pub open spec fn timezone_spec(self) -> Seq<char> {
        match self.timezone {
            Some(tz) => tz@,
            None => match self.location_timezone {
                Some(tz) => tz@,
                None => "Europe/Berlin"@,
            },
        }
    }

    /// The timezone identifier to evaluate this event's modes in.
    pub fn timezone(&self) -> (r: String)
        ensures
            r@ == self.timezone_spec(),
    {
        match &self.timezone {
            Some(tz) => tz.clone(),
            None => match &self.location_timezone {
                Some(tz) => tz.clone(),
                None => String::from_str("Europe/Berlin"),
            },
        }
    }
}

} // verus!
