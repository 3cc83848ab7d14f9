//! Capture dates.

use chrono::Datelike;
use vstd::prelude::*;

verus! {

/// The calendar day that an RFC 3339 date-and-time names, as year, month and day in the
/// offset from UTC that the text is written in; `None` for a text that is no RFC 3339
/// date-and-time.
pub uninterp spec fn rfc3339_date(text: Seq<char>) -> Option<(int, int, int)>;

/// The parts of a calendar day as integers.
pub open spec fn date_parts(parts: Option<(i32, u32, u32)>) -> Option<(int, int, int)> {
    match parts {
        Some((year, month, day)) => Some((year as int, month as int, day as int)),
        None => None,
    }
}

/// Reads an RFC 3339 date-and-time with `chrono::DateTime::parse_from_rfc3339` and takes
/// the year, the month and the day of what was read, in the offset that it was written in.
///
/// Nothing is proved of this function. It is taken to give what `rfc3339_date` names, for
/// every text, and to give `None` where chrono reports an error.
#[verifier::external_body]
fn parse_rfc3339(text: &str) -> (parts: Option<(i32, u32, u32)>)
    ensures
        date_parts(parts) == rfc3339_date(text@),
{
    match chrono::DateTime::parse_from_rfc3339(text) {
        Ok(moment) => Some((moment.year(), moment.month(), moment.day())),
        Err(_) => None,
    }
}

/// The calendar day on which a media file was captured.
///
/// A capture date is read once from a file's metadata and never changes afterwards. Its
/// month lies between 1 and 12 and its day between 1 and 31.
#[derive(Clone, Copy, Debug, PartialEq, Eq, Structural)]
pub struct CaptureDate {
    year: i32,
    month: u32,
    day: u32,
}

impl CaptureDate {
    pub closed spec fn spec_year(&self) -> i32 {
        self.year
    }

    pub closed spec fn spec_month(&self) -> u32 {
        self.month
    }

    pub closed spec fn spec_day(&self) -> u32 {
        self.day
    }

    /// Whether a month and a day lie in the ranges that a capture date admits.
    pub open spec fn admits(month: int, day: int) -> bool {
        1 <= month <= 12 && 1 <= day <= 31
    }

    /// What holds of every capture date.
    #[verifier::type_invariant]
    pub open spec fn in_range(self) -> bool {
        Self::admits(self.spec_month() as int, self.spec_day() as int)
    }

    /// Two capture dates with the same year, month and day are the same date.
    pub proof fn lemma_parts_decide_date(self, other: CaptureDate)
        requires
            self.year() == other.year(),
            self.month() == other.month(),
            self.day() == other.day(),
        ensures
            self == other,
    {
    }

    /// Builds a capture date, or `None` when the month or the day is out of range.
    pub fn new(year: i32, month: u32, day: u32) -> (date: Option<CaptureDate>)
        ensures
            date is Some <==> Self::admits(month as int, day as int),
            date matches Some(d) ==> d.year() == year && d.month() == month && d.day() == day
                && d.in_range(),
    {
        if 1 <= month && month <= 12 && 1 <= day && day <= 31 {
            Some(CaptureDate { year, month, day })
        } else {
            None
        }
    }

    /// The capture date that a timestamp names. Media files record the moment of capture as
    /// an RFC 3339 date-and-time, such as `2023-05-04T10:20:30Z`; the capture date is the
    /// calendar day of that moment in the offset that the timestamp is written in.
    ///
    /// Returns `None` for a text that is no RFC 3339 date-and-time.
    pub fn from_rfc3339(text: &str) -> (date: Option<CaptureDate>)
        ensures
            date is Some <==> (rfc3339_date(text@) matches Some((_, month, day)) && Self::admits(
                month,
                day,
            )),
            date matches Some(d) ==> rfc3339_date(text@) == Some(
                (d.year() as int, d.month() as int, d.day() as int),
            ) && d.in_range(),
    {
        match parse_rfc3339(text) {
            Some((year, month, day)) => CaptureDate::new(year, month, day),
            None => None,
        }
    }

    /// The year of the calendar date.
    #[verifier::when_used_as_spec(spec_year)]
    pub fn year(&self) -> (year: i32)
        ensures
            year == self.spec_year(),
    {
        self.year
    }

    /// The month, from 1 to 12.
    #[verifier::when_used_as_spec(spec_month)]
    pub fn month(&self) -> (month: u32)
        ensures
            month == self.spec_month(),
            1 <= month <= 12,
    {
        proof {
            use_type_invariant(self);
        }
        self.month
    }

    /// The day of the month, from 1 to 31.
    #[verifier::when_used_as_spec(spec_day)]
    pub fn day(&self) -> (day: u32)
        ensures
            day == self.spec_day(),
            1 <= day <= 31,
    {
        proof {
            use_type_invariant(self);
        }
        self.day
    }
}

} // verus!
