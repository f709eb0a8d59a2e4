//! Event identifiers for the recurring event: which term of the year a
//! calendar date falls in, and the identifier prefix each term carries. The
//! caller supplies the date; reading the clock stays outside.

use vstd::prelude::*;

verus! {

/// The three terms the recurring event cycles through.
#[derive(Clone, Copy, PartialEq, Eq, Structural, Debug)]
pub enum Term {
    Oster,
    Sommer,
    Winter,
}

/// One concrete event: a term and the year it is counted under.
#[derive(Clone, Copy, PartialEq, Eq, Structural, Debug)]
pub struct EventId {
    pub term: Term,
    pub year: i32,
}

pub open spec fn term_of_month_spec(month: int) -> Term {
    if 2 <= month <= 5 {
        Term::Oster
    } else if 6 <= month <= 9 {
        Term::Sommer
    } else {
        Term::Winter
    }
}

/// The winter event spans the turn of the year, so January and February
/// still count under the previous year's identifier.
pub open spec fn id_year_spec(year: int, month: int) -> int {
    if month < 3 {
        year - 1
    } else {
        year
    }
}

impl EventId {
    /// The event a calendar date belongs to.
    pub fn for_date(year: i32, month: u8) -> (r: EventId)
        requires
            1 <= year <= 9999,
            1 <= month <= 12,
        ensures
            r.term == term_of_month_spec(month as int),
            r.year == id_year_spec(year as int, month as int),
    {
        let term = if month >= 2 && month <= 5 {
            Term::Oster
        } else if month >= 6 && month <= 9 {
            Term::Sommer
        } else {
            Term::Winter
        };
        EventId { term, year: if month < 3 {
            year - 1
        } else {
            year
        } }
    }

    /// The identifier prefix of this event's term; the full identifier is
    /// the prefix followed by the decimal year.
    pub fn prefix(&self) -> (r: &'static str)
        ensures
            r@ == self.prefix_spec(),
    {
        match self.term {
            Term::Oster => "osil",
            Term::Sommer => "sosil",
            Term::Winter => "sil",
        }
    }

    pub open spec fn prefix_spec(self) -> Seq<char> {
        match self.term {
            Term::Oster => "osil"@,
            Term::Sommer => "sosil"@,
            Term::Winter => "sil"@,
        }
    }
}

} // verus!
