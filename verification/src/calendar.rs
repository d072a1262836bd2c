//! Broken-down calendar time, and the two calls into the `time` crate that
//! parse and render it.

use vstd::prelude::*;

verus! {

/// `time::ParseError`, as an opaque value that is carried through.
#[verifier::external_type_specification]
#[verifier::external_body]
pub struct ExTimeParseError(time::ParseError);

/// The timestamp layout with a fraction of a second.
pub const UTCTIMESTAMPFORMAT: &'static str = "%Y-%m-%d %H:%M:%S.%f";

/// The timestamp layout without a fraction of a second.
pub const UTCTIMESTAMPNOMILLISFORMAT: &'static str = "%Y-%m-%d %H:%M:%S";

/// Whether `format` is one of the two timestamp layouts.
pub open spec fn is_timestamp_format(format: Seq<char>) -> bool {
    format == UTCTIMESTAMPFORMAT@ || format == UTCTIMESTAMPNOMILLISFORMAT@
}

/// A date and time broken down into its components, field for field what
/// `time::Tm` holds.
#[derive(Clone, Copy, Debug, PartialEq, Eq, Structural)]
pub struct CalendarTime {
    /// Seconds after the minute.
    pub tm_sec: i32,
    /// Minutes after the hour.
    pub tm_min: i32,
    /// Hours after midnight.
    pub tm_hour: i32,
    /// Day of the month.
    pub tm_mday: i32,
    /// Months since January.
    pub tm_mon: i32,
    /// Years since 1900.
    pub tm_year: i32,
    /// Days since Sunday.
    pub tm_wday: i32,
    /// Days since January 1.
    pub tm_yday: i32,
    /// Daylight saving time flag.
    pub tm_isdst: i32,
    /// Seconds east of UTC.
    pub tm_utcoff: i32,
    /// Nanoseconds after the second.
    pub tm_nsec: i32,
}

impl CalendarTime {
    /// Whether the time can be rendered: the day of the week and the month
    /// name a day and a month, and the calendar year fits in 32 bits.
    pub open spec fn renderable(self) -> bool {
        &&& 0 <= self.tm_wday <= 6
        &&& 0 <= self.tm_mon <= 11
        &&& self.tm_year + 1900 <= i32::MAX
    }

    /// The time with every component zero.
    pub fn empty() -> (t: CalendarTime)
        ensures
            t == Self::spec_empty(),
    {
        CalendarTime {
            tm_sec: 0,
            tm_min: 0,
            tm_hour: 0,
            tm_mday: 0,
            tm_mon: 0,
            tm_year: 0,
            tm_wday: 0,
            tm_yday: 0,
            tm_isdst: 0,
            tm_utcoff: 0,
            tm_nsec: 0,
        }
    }

    pub open spec fn spec_empty() -> CalendarTime {
        CalendarTime {
            tm_sec: 0,
            tm_min: 0,
            tm_hour: 0,
            tm_mday: 0,
            tm_mon: 0,
            tm_year: 0,
            tm_wday: 0,
            tm_yday: 0,
            tm_isdst: 0,
            tm_utcoff: 0,
            tm_nsec: 0,
        }
    }

    /// Tells whether the time can be rendered.
    pub fn is_renderable(&self) -> (b: bool)
        ensures
            b == self.renderable(),
    {
        0 <= self.tm_wday && self.tm_wday <= 6 && 0 <= self.tm_mon && self.tm_mon <= 11
            && self.tm_year <= i32::MAX - 1900
    }
}

/// What `time::strptime` makes of the text `s` under the layout `format`:
/// the time it reads, or `None` where it reports an error.
pub uninterp spec fn strptime_result(s: Seq<char>, format: Seq<char>) -> Option<CalendarTime>;

/// What `time::strftime` writes for `tm` under the layout `format`.
pub uninterp spec fn strftime_text(format: Seq<char>, tm: CalendarTime) -> Seq<char>;

/// `time::strptime`, under one of the two timestamp layouts. The outcome
/// depends on the text and the layout alone and is named by
/// `strptime_result`. Under these layouts a time that was read has a month
/// from 0 to 11 and a year of four digits less 1900, and its day of the week
/// is left at 0, so it can be rendered.
#[verifier::external_body]
pub(crate) fn strptime(s: &str, format: &str) -> (r: Result<CalendarTime, time::ParseError>)
    requires
        is_timestamp_format(format@),
    ensures
        r is Ok <==> strptime_result(s@, format@) is Some,
        r is Ok ==> strptime_result(s@, format@) == Some(r->Ok_0),
        r is Ok ==> r->Ok_0.renderable(),
{
    match time::strptime(s, format) {
        Ok(tm) => Ok(CalendarTime {
            tm_sec: tm.tm_sec, tm_min: tm.tm_min, tm_hour: tm.tm_hour,
            tm_mday: tm.tm_mday, tm_mon: tm.tm_mon, tm_year: tm.tm_year,
            tm_wday: tm.tm_wday, tm_yday: tm.tm_yday, tm_isdst: tm.tm_isdst,
            tm_utcoff: tm.tm_utcoff, tm_nsec: tm.tm_nsec,
        }),
        Err(e) => Err(e),
    }
}

/// `time::strftime`, under one of the two timestamp layouts and for a time
/// that can be rendered: it then reports no error, and the text depends on
/// the layout and the time alone and is named by `strftime_text`.
#[verifier::external_body]
pub(crate) fn strftime(format: &str, tm: &CalendarTime) -> (r: Result<String, time::ParseError>)
    requires
        is_timestamp_format(format@),
        tm.renderable(),
    ensures
        r is Ok,
        r is Ok ==> r->Ok_0@ == strftime_text(format@, *tm),
{
    let tm = time::Tm {
        tm_sec: tm.tm_sec, tm_min: tm.tm_min, tm_hour: tm.tm_hour,
        tm_mday: tm.tm_mday, tm_mon: tm.tm_mon, tm_year: tm.tm_year,
        tm_wday: tm.tm_wday, tm_yday: tm.tm_yday, tm_isdst: tm.tm_isdst,
        tm_utcoff: tm.tm_utcoff, tm_nsec: tm.tm_nsec,
    };
    time::strftime(format, &tm)
}

} // verus!
