//! The UTC timestamp codec: `YYYY-MM-DD HH:MM:SS`, with or without a
//! fraction of a second.

use vstd::prelude::*;
use vstd::slice::slice_to_vec;
use vstd::string::*;
use vstd::utf8::{decode_utf8, encode_utf8, valid_utf8};
use crate::calendar::{
    strftime, strftime_text, strptime, strptime_result, CalendarTime, UTCTIMESTAMPFORMAT,
    UTCTIMESTAMPNOMILLISFORMAT,
};
use crate::error::FixError;
use crate::field::{FieldValueReader, FieldValueWriter};
use crate::text::string_from_utf8;

verus! {

/// What a timestamp holds: the time, and whether it is written without a
/// fraction of a second.
pub struct TimestampView {
    pub time: CalendarTime,
    pub no_millisecond: bool,
}

/// A UTC timestamp field value. The time it holds can always be rendered.
pub struct FIXUTCTimestamp {
    time: CalendarTime,
    no_millisecond: bool,
}

impl View for FIXUTCTimestamp {
    type V = TimestampView;

    closed spec fn view(&self) -> TimestampView {
        TimestampView { time: self.time, no_millisecond: self.no_millisecond }
    }
}

/// The layout that a timestamp is written in.
pub open spec fn layout(no_millisecond: bool) -> Seq<char> {
    if no_millisecond {
        UTCTIMESTAMPNOMILLISFORMAT@
    } else {
        UTCTIMESTAMPFORMAT@
    }
}

/// The timestamp that the text denotes: the one read with a fraction of a
/// second where that layout fits, else the one read without; `None` where
/// neither layout fits.
pub open spec fn timestamp_of(text: Seq<char>) -> Option<TimestampView> {
    match strptime_result(text, layout(false)) {
        Some(time) => Some(TimestampView { time, no_millisecond: false }),
        None => match strptime_result(text, layout(true)) {
            Some(time) => Some(TimestampView { time, no_millisecond: true }),
            None => None,
        },
    }
}

impl FIXUTCTimestamp {
    #[verifier::type_invariant]
    spec fn renderable(self) -> bool {
        self.time.renderable()
    }

    /// A timestamp of `time`, written with a fraction of a second.
    pub fn new(time: CalendarTime) -> (t: FIXUTCTimestamp)
        requires
            time.renderable(),
        ensures
            t@ == (TimestampView { time, no_millisecond: false }),
    {
        FIXUTCTimestamp { time, no_millisecond: false }
    }

    /// A timestamp of `time`, written without a fraction of a second where
    /// `no_millis` is set.
    pub fn new_no_millis(time: CalendarTime, no_millis: bool) -> (t: FIXUTCTimestamp)
        requires
            time.renderable(),
        ensures
            t@ == (TimestampView { time, no_millisecond: no_millis }),
    {
        FIXUTCTimestamp { time, no_millisecond: no_millis }
    }

    /// A timestamp of the time with every component zero.
    pub fn empty() -> (t: FIXUTCTimestamp)
        ensures
            t@ == (TimestampView { time: CalendarTime::spec_empty(), no_millisecond: false }),
    {
        FIXUTCTimestamp { time: CalendarTime::empty(), no_millisecond: false }
    }

    /// Takes over what reading a text under one layout gave: `parsed` is the
    /// outcome, `no_millisecond` tells whether the layout was the one without
    /// a fraction of a second. A time that was read replaces the one held; an
    /// error leaves the timestamp as it was and is handed on.
    pub fn take_parsed(
        &mut self,
        parsed: Result<CalendarTime, time::ParseError>,
        no_millisecond: bool,
    ) -> (r: Result<(), FixError>)
        requires
            parsed is Ok ==> parsed->Ok_0.renderable(),
        ensures
            match parsed {
                Ok(time) => r is Ok && final(self)@ == (TimestampView { time, no_millisecond }),
                Err(e) => r == Err::<(), FixError>(FixError::TimeParseError(e)) && *final(self)
                    == *old(self),
            },
    {
        match parsed {
            Ok(time) => {
                self.time = time;
                self.no_millisecond = no_millisecond;
                Ok(())
            },
            Err(err) => Err(FixError::TimeParseError(err)),
        }
    }

    /// The time that the timestamp holds.
    pub fn into(self) -> (time: CalendarTime)
        ensures
            time == self@.time,
            time.renderable(),
    {
        proof {
            use_type_invariant(&self);
        }
        self.time
    }
}

impl FieldValueReader for FIXUTCTimestamp {
    open spec fn accepts(&self, bytes: Seq<u8>) -> bool {
        valid_utf8(bytes) && timestamp_of(decode_utf8(bytes)) is Some
    }

    open spec fn holds_read(&self, bytes: Seq<u8>, after: &Self) -> bool {
        timestamp_of(decode_utf8(bytes)) == Some(after@)
    }

    fn read(&mut self, value: &[u8]) -> (r: Result<(), FixError>)
        ensures
            r is Err ==> *final(self) == *old(self),
            match r {
                Ok(_) => true,
                Err(FixError::FromUtf8Error(_)) => !valid_utf8(value@),
                Err(FixError::TimeParseError(_)) => valid_utf8(value@),
                Err(_) => false,
            },
    {
        let values = slice_to_vec(value);
        let str_time = match string_from_utf8(values) {
            Ok(s) => s,
            Err(err) => {
                return Err(FixError::FromUtf8Error(err));
            },
        };
        let with_fraction = strptime(str_time.as_str(), UTCTIMESTAMPFORMAT);
        if with_fraction.is_ok() {
            return self.take_parsed(with_fraction, false);
        }
        self.take_parsed(strptime(str_time.as_str(), UTCTIMESTAMPNOMILLISFORMAT), true)
    }
}

impl FieldValueWriter for FIXUTCTimestamp {
    open spec fn written(&self) -> Seq<u8> {
        encode_utf8(strftime_text(layout(self@.no_millisecond), self@.time))
    }

    fn write(&self) -> (bytes: Vec<u8>) {
        proof {
            use_type_invariant(self);
        }
        let text = if self.no_millisecond {
            strftime(UTCTIMESTAMPNOMILLISFORMAT, &self.time)
        } else {
            strftime(UTCTIMESTAMPFORMAT, &self.time)
        };
        match text {
            Ok(s) => s.as_str().as_bytes_vec(),
            Err(_) => vstd::pervasive::unreached(),
        }
    }
}

} // verus!
