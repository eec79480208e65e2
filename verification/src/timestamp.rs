//! Calendar time as plain numbers, and the compact texts it is rendered to.

use crate::text::fixed_digits;
use std::fmt::Write;
use vstd::prelude::*;

verus! {

/// A local date and time of day, to the microsecond.
#[derive(Clone, Copy, Debug, PartialEq, Eq, Structural)]
pub struct Timestamp {
    pub year: i32,
    pub month: u32,
    pub day: u32,
    pub hour: u32,
    pub minute: u32,
    pub second: u32,
    pub microsecond: u32,
}

/// What the wall clock showed at one moment: the local calendar time and
/// the seconds since the Unix epoch.
#[derive(Clone, Copy, Debug, PartialEq, Eq, Structural)]
pub struct ClockReading {
    pub civil: Timestamp,
    pub unix_seconds: i64,
}

/// Leap years of the Gregorian calendar.
pub open spec fn is_leap_year(year: int) -> bool {
    year % 4 == 0 && (year % 100 != 0 || year % 400 == 0)
}

/// The number of days of a month, 0 for a month that does not exist.
pub open spec fn days_in_month(year: int, month: int) -> int {
    if month == 2 {
        if is_leap_year(year) {
            29
        } else {
            28
        }
    } else if month == 4 || month == 6 || month == 9 || month == 11 {
        30
    } else if 1 <= month <= 12 {
        31
    } else {
        0
    }
}

/// The pattern of the time stamp of a line without the year.
pub open spec fn line_pattern() -> Seq<char> {
    "%m%d %H:%M:%S%.6f"@
}

/// The pattern of the time stamp of a line with the year.
pub open spec fn line_pattern_with_year() -> Seq<char> {
    "%Y%m%d %H:%M:%S%.6f"@
}

/// The pattern of the creation time in a log file's name.
pub open spec fn file_pattern() -> Seq<char> {
    "%Y%m%d-%H%M%S"@
}

/// The pattern of the creation time in a log file's header.
pub open spec fn header_pattern() -> Seq<char> {
    "%Y/%m/%d %H:%M:%S"@
}

impl Timestamp {
    /// The fields name a day of the Gregorian calendar in a year of four
    /// digits, and a time of that day.
    pub open spec fn wf(&self) -> bool {
        &&& 0 <= self.year <= 9999
        &&& 1 <= self.month <= 12
        &&& 1 <= self.day <= days_in_month(self.year as int, self.month as int)
        &&& self.hour < 24
        &&& self.minute < 60
        &&& self.second < 60
        &&& self.microsecond < 1_000_000
    }

    /// `YYYY`.
    pub open spec fn year_text(&self) -> Seq<char> {
        fixed_digits(self.year as nat, 4)
    }

    /// `MM`.
    pub open spec fn month_text(&self) -> Seq<char> {
        fixed_digits(self.month as nat, 2)
    }

    /// `DD`.
    pub open spec fn day_text(&self) -> Seq<char> {
        fixed_digits(self.day as nat, 2)
    }

    /// `HH`.
    pub open spec fn hour_text(&self) -> Seq<char> {
        fixed_digits(self.hour as nat, 2)
    }

    /// `MM` of the time of day.
    pub open spec fn minute_text(&self) -> Seq<char> {
        fixed_digits(self.minute as nat, 2)
    }

    /// `SS`.
    pub open spec fn second_text(&self) -> Seq<char> {
        fixed_digits(self.second as nat, 2)
    }

    /// `HH:MM:SS`.
    pub open spec fn clock_text(&self) -> Seq<char> {
        self.hour_text() + seq![':'] + self.minute_text() + seq![':'] + self.second_text()
    }

    /// The time stamp of a line: `MMDD HH:MM:SS.uuuuuu`, after the year
    /// where it is asked for.
    pub open spec fn line_stamp_text(&self, with_year: bool) -> Seq<char> {
        (if with_year {
            self.year_text()
        } else {
            Seq::<char>::empty()
        }) + self.month_text() + self.day_text() + seq![' '] + self.clock_text() + seq!['.']
            + fixed_digits(self.microsecond as nat, 6)
    }

    /// The creation time in a file name: `YYYYMMDD-HHMMSS`.
    pub open spec fn file_stamp_text(&self) -> Seq<char> {
        self.year_text() + self.month_text() + self.day_text() + seq!['-'] + self.hour_text()
            + self.minute_text() + self.second_text()
    }

    /// The creation time in a file header: `YYYY/MM/DD HH:MM:SS`.
    pub open spec fn header_stamp_text(&self) -> Seq<char> {
        self.year_text() + seq!['/'] + self.month_text() + seq!['/'] + self.day_text() + seq![' ']
            + self.clock_text()
    }

    /// Whether the fields name a time that can be rendered.
    pub fn is_valid(&self) -> (r: bool)
        ensures
            r == self.wf(),
    {
        if self.year < 0 || self.year > 9999 || self.month < 1 || self.month > 12 {
            return false;
        }
        let leap = self.year % 4 == 0 && (self.year % 100 != 0 || self.year % 400 == 0);
        let days: u32 = if self.month == 2 {
            if leap {
                29
            } else {
                28
            }
        } else if self.month == 4 || self.month == 6 || self.month == 9 || self.month == 11 {
            30
        } else {
            31
        };
        1 <= self.day && self.day <= days && self.hour < 24 && self.minute < 60 && self.second < 60
            && self.microsecond < 1_000_000
    }

    /// A time stamp from its fields, where they name a time that can be
    /// rendered.
    pub fn new(
        year: i32,
        month: u32,
        day: u32,
        hour: u32,
        minute: u32,
        second: u32,
        microsecond: u32,
    ) -> (r: Option<Timestamp>)
        ensures
            r == (if (Timestamp { year, month, day, hour, minute, second, microsecond }).wf() {
                Some(Timestamp { year, month, day, hour, minute, second, microsecond })
            } else {
                None
            }),
    {
        let t = Timestamp { year, month, day, hour, minute, second, microsecond };
        if t.is_valid() {
            Some(t)
        } else {
            None
        }
    }

    /// The time stamp that opens a line.
    pub fn line_stamp(&self, with_year: bool) -> (r: String)
        requires
            self.wf(),
        ensures
            r@ == self.line_stamp_text(with_year),
    {
        let formatted = if with_year {
            strftime(self, "%Y%m%d %H:%M:%S%.6f")
        } else {
            strftime(self, "%m%d %H:%M:%S%.6f")
        };
        match formatted {
            Some(text) => text,
            None => String::new(),
        }
    }

    /// The creation time as it stands in a log file's name.
    pub fn file_stamp(&self) -> (r: String)
        requires
            self.wf(),
        ensures
            r@ == self.file_stamp_text(),
    {
        match strftime(self, "%Y%m%d-%H%M%S") {
            Some(text) => text,
            None => String::new(),
        }
    }

    /// The creation time as it stands in a log file's header.
    pub fn header_stamp(&self) -> (r: String)
        requires
            self.wf(),
        ensures
            r@ == self.header_stamp_text(),
    {
        match strftime(self, "%Y/%m/%d %H:%M:%S") {
            Some(text) => text,
            None => String::new(),
        }
    }
}

impl ClockReading {
    /// Reads the wall clock.
    ///
    /// The result is `None` where the clock shows a time that cannot be
    /// rendered, such as a year of more than four digits.
    pub fn now() -> (r: Option<ClockReading>)
        ensures
            exists|shown: ClockReading| r == #[trigger] shown.if_renderable(),
            r matches Some(reading) ==> reading.civil.wf(),
    {
        let shown = local_now();
        let r = ClockReading::checked(shown);
        assert(r == shown.if_renderable());
        r
    }

    /// A reading, if its calendar time can be rendered.
    pub fn checked(reading: ClockReading) -> (r: Option<ClockReading>)
        ensures
            r == reading.if_renderable(),
    {
        if reading.civil.is_valid() {
            Some(reading)
        } else {
            None
        }
    }

    /// The reading itself where its calendar time can be rendered, and
    /// nothing otherwise.
    pub open spec fn if_renderable(self) -> Option<ClockReading> {
        if self.civil.wf() {
            Some(self)
        } else {
            None
        }
    }
}

/// `chrono::NaiveDateTime::format`, on the date and time that
/// `chrono::NaiveDate::from_ymd_opt` and `and_hms_micro_opt` make of the
/// fields, written out with `write!`.
///
/// Trusted: for a well-formed time stamp and each of the four patterns
/// this crate uses, the text is the one that chrono documents for the
/// pattern's items: `%Y` four digits, `%m %d %H %M %S` two digits each,
/// `%.6f` a dot and six digits, all zero-padded, other characters as they
/// stand. Nothing is claimed of other patterns or other field values.
#[verifier::external_body]
pub(crate) fn strftime(ts: &Timestamp, pattern: &str) -> (formatted: Option<String>)
    ensures
        ts.wf() && pattern@ == line_pattern() ==> formatted is Some && formatted.unwrap()@
            == ts.line_stamp_text(false),
        ts.wf() && pattern@ == line_pattern_with_year() ==> formatted is Some
            && formatted.unwrap()@ == ts.line_stamp_text(true),
        ts.wf() && pattern@ == file_pattern() ==> formatted is Some && formatted.unwrap()@
            == ts.file_stamp_text(),
        ts.wf() && pattern@ == header_pattern() ==> formatted is Some && formatted.unwrap()@
            == ts.header_stamp_text(),
{
    let date = chrono::NaiveDate::from_ymd_opt(ts.year, ts.month, ts.day)?;
    let time = date.and_hms_micro_opt(ts.hour, ts.minute, ts.second, ts.microsecond)?;
    let mut text = String::new();
    write!(text, "{}", time.format(pattern)).ok()?;
    Some(text)
}

/// `chrono::Local::now`, with the fields of the local time read through
/// `chrono::Datelike` and `chrono::Timelike`, and `DateTime::timestamp`.
///
/// Trusted: nothing is claimed of what the clock shows.
#[verifier::external_body]
pub(crate) fn local_now() -> (reading: ClockReading) {
    let now = chrono::Local::now();
    ClockReading {
        civil: Timestamp {
            year: chrono::Datelike::year(&now),
            month: chrono::Datelike::month(&now),
            day: chrono::Datelike::day(&now),
            hour: chrono::Timelike::hour(&now),
            minute: chrono::Timelike::minute(&now),
            second: chrono::Timelike::second(&now),
            microsecond: now.timestamp_subsec_micros(),
        },
        unix_seconds: now.timestamp(),
    }
}

} // verus!
