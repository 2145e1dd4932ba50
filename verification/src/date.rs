//! Release dates, held as plain `(year, month, day)` components.
//!
//! A zero year means the date is unknown; a zero month or day means
//! that component was absent. Parsing of free-form date strings is
//! delegated to the `readable` crate behind a trusted wrapper.

use vstd::prelude::*;

verus! {

/// A release date. `year == 0` means the whole date is unknown.
#[derive(Clone, Copy, Debug, Hash, PartialEq, Eq, Structural)]
pub struct Date {
    pub year: u16,
    pub month: u8,
    pub day: u8,
}

/// The components a date may hold: either wholly unknown, or a year
/// in `1000..=9999` with optional month `1..=12` and day `1..=31`,
/// where a day needs a month.
pub open spec fn date_wf(year: u16, month: u8, day: u8) -> bool {
    &&& year == 0 ==> month == 0
    &&& month == 0 ==> day == 0
    &&& year == 0 || (1000 <= year <= 9999)
    &&& month <= 12
    &&& day <= 31
}

/// What `readable::date::Date::from_str_silent` parses out of a
/// string: `(year, month, day)` components.
pub uninterp spec fn date_of(s: Seq<char>) -> (u16, u8, u8);

/// Relies on `readable::date::Date::from_str_silent`: the parse
/// depends on the characters alone; the components come back either
/// zero or in calendar range (year `1000..=9999`, month `1..=12`,
/// day `1..=31`), a month only with a year, a day only with a month.
/// The parser may panic on non-ASCII input, so that input is kept out.
#[verifier::external_body]
fn parse_date_ascii(s: &str) -> (r: (u16, u8, u8))
    requires
        vstd::string::is_ascii(s),
    ensures
        r == date_of(s@),
        date_wf(r.0, r.1, r.2),
{
    let d = readable::date::Date::from_str_silent(s);
    (d.year(), d.month(), d.day())
}

impl Date {
    /// Well-formedness: see [`date_wf`].
    pub open spec fn wf(&self) -> bool {
        date_wf(self.year, self.month, self.day)
    }

    /// The wholly unknown date.
    pub fn unknown() -> (r: Self)
        ensures
            r.year == 0 && r.month == 0 && r.day == 0,
            r.wf(),
    {
        Date { year: 0, month: 0, day: 0 }
    }

    /// Whether anything at all is known of this date.
    pub fn is_known(&self) -> (r: bool)
        ensures
            r == (self.year != 0),
    {
        self.year != 0
    }

    /// Parse a free-form date string, silently falling back to the
    /// unknown date. Non-ASCII strings parse as unknown.
    pub fn from_str_silent(s: &str) -> (r: Self)
        ensures
            r.wf(),
            vstd::string::is_ascii(s) ==> (r.year, r.month, r.day) == date_of(s@),
            !vstd::string::is_ascii(s) ==> r.year == 0 && r.month == 0 && r.day == 0,
    {
        if s.is_ascii() {
            let (y, m, d) = parse_date_ascii(s);
            Date { year: y, month: m, day: d }
        } else {
            Date { year: 0, month: 0, day: 0 }
        }
    }

    /// The rank a date sorts by: known dates ascend by
    /// `year, month, day`; unknown dates come last.
    pub open spec fn spec_code(&self) -> u64 {
        if self.year == 0 {
            0xffff_ffff_ffff_ffff
        } else {
            ((self.year as u64) * 10000 + (self.month as u64) * 100 + (self.day as u64)) as u64
        }
    }

    /// Compute [`Self::spec_code`].
    pub fn code(&self) -> (r: u64)
        ensures
            r == self.spec_code(),
    {
        if self.year == 0 {
            0xffff_ffff_ffff_ffff
        } else {
            (self.year as u64) * 10000 + (self.month as u64) * 100 + (self.day as u64)
        }
    }
}

} // verus!
