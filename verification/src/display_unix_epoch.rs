//! A time span since the Unix epoch shown as a calendar date and time in UTC.
//!
//! The calendar arithmetic and the formatting are chrono's. This module
//! decides what chrono is asked: which pattern, and whether it is asked at
//! all.

use std::time::Duration;
use chrono::DateTime;
use vstd::prelude::*;
use vstd::string::*;
use crate::display_option::none_text;

verus! {

/// The last second since the epoch that chrono can place in its calendar:
/// 23:59:59 on the 31st of December of the year 262142.
pub const MAX_UNIX_SECONDS: u64 = 8_210_266_876_799;

/// The whole seconds in a time span: what `Duration::as_secs` returns.
pub uninterp spec fn duration_secs(duration: Duration) -> u64;

/// The part of a time span beyond its whole seconds, in nanoseconds: what
/// `Duration::subsec_nanos` returns.
pub uninterp spec fn duration_subsec_nanos(duration: Duration) -> u32;

/// What chrono writes for the instant `secs` seconds and `nanos` nanoseconds
/// after the epoch, as a date and time in UTC, under the strftime pattern
/// `pattern`.
pub uninterp spec fn utc_text(secs: int, nanos: int, pattern: Seq<char>) -> Seq<char>;

/// `Duration::as_secs` of std. Assumed: the result depends on the time span
/// alone.
pub assume_specification[ Duration::as_secs ](duration: &Duration) -> (secs: u64)
    ensures
        secs == duration_secs(*duration),
;

/// `Duration::subsec_nanos` of std. Assumed: the result depends on the time
/// span alone and, as documented, is less than one second.
pub assume_specification[ Duration::subsec_nanos ](duration: &Duration) -> (nanos: u32)
    ensures
        nanos == duration_subsec_nanos(*duration),
        nanos < 1_000_000_000,
;

/// The pattern for each choice of precision and time zone suffix.
pub open spec fn pattern_for(in_millis: bool, with_timezone: bool) -> Seq<char> {
    if in_millis {
        if with_timezone {
            "%Y-%m-%dT%H:%M:%S%.3fZ%z"@
        } else {
            "%Y-%m-%dT%H:%M:%S%.3f"@
        }
    } else if with_timezone {
        "%Y-%m-%dT%H:%M:%S%.6fZ%z"@
    } else {
        "%Y-%m-%dT%H:%M:%S%.6f"@
    }
}

/// Whether `pattern` is one of the patterns that this module uses.
pub open spec fn is_timestamp_pattern(pattern: Seq<char>) -> bool {
    ||| pattern == pattern_for(true, true)
    ||| pattern == pattern_for(true, false)
    ||| pattern == pattern_for(false, true)
    ||| pattern == pattern_for(false, false)
}

/// `DateTime::from_timestamp` of chrono, and `DateTime::format` on what it
/// returns, written to a string.
///
/// Assumed: within the bound on `secs`, which keeps the date inside chrono's
/// calendar, and with `nanos` below one second, `from_timestamp` returns a
/// date and time; the patterns of this module are well formed, so that
/// writing does not fail; and the text depends on the three arguments alone.
#[verifier::external_body]
fn format_utc(secs: u64, nanos: u32, pattern: &str) -> (text: String)
    requires
        secs <= MAX_UNIX_SECONDS,
        nanos < 1_000_000_000,
        is_timestamp_pattern(pattern@),
    ensures
        text@ == utc_text(secs as int, nanos as int, pattern@),
{
    DateTime::from_timestamp(secs as i64, nanos).unwrap().format(pattern).to_string()
}

/// What a [`DisplayUnixTimeStamp`] stands for.
pub struct TimestampFormat {
    /// The whole seconds since the epoch and the nanoseconds beyond them, if
    /// there is a time to show.
    pub since_epoch: Option<(u64, u32)>,
    /// Whether the fraction of a second has three digits rather than six.
    pub in_millis: bool,
    /// Whether `Z` and the offset from UTC follow the time.
    pub with_timezone: bool,
}

impl TimestampFormat {
    /// The format of a time span for which no option was set: six digits of
    /// a second's fraction, with the time zone.
    pub open spec fn of(duration: Option<Duration>) -> Self {
        TimestampFormat {
            since_epoch: match duration {
                Some(d) => Some((duration_secs(d), duration_subsec_nanos(d))),
                None => None,
            },
            in_millis: false,
            with_timezone: true,
        }
    }

    /// The pattern that chrono is given.
    pub open spec fn pattern(self) -> Seq<char> {
        pattern_for(self.in_millis, self.with_timezone)
    }

    /// Whether there is no time to show, or one that chrono's calendar
    /// reaches.
    pub open spec fn representable(self) -> bool {
        match self.since_epoch {
            Some((secs, _)) => secs <= MAX_UNIX_SECONDS,
            None => true,
        }
    }

    /// The text: `None` where there is no time to show, else what chrono
    /// writes for the time under the pattern.
    pub open spec fn text(self) -> Seq<char> {
        match self.since_epoch {
            Some((secs, nanos)) => utc_text(secs as int, nanos as int, self.pattern()),
            None => none_text(),
        }
    }
}

/// A time span since the Unix epoch, or none, together with the options for
/// writing it.
pub struct DisplayUnixTimeStamp {
    duration: Option<Duration>,
    in_millis: bool,
    with_timezone: bool,
}

impl View for DisplayUnixTimeStamp {
    type V = TimestampFormat;

    closed spec fn view(&self) -> TimestampFormat {
        TimestampFormat {
            in_millis: self.in_millis,
            with_timezone: self.with_timezone,
            ..TimestampFormat::of(self.duration)
        }
    }
}

impl DisplayUnixTimeStamp {
    /// Wraps `duration`, to be written with six digits of a second's
    /// fraction and with the time zone.
    pub fn new(duration: Option<Duration>) -> (shown: Self)
        ensures
            shown@ == TimestampFormat::of(duration),
    {
        DisplayUnixTimeStamp { duration, in_millis: false, with_timezone: true }
    }

    /// Chooses three digits of a second's fraction (`true`) or six.
    pub fn in_millis(self, in_millis: bool) -> (shown: Self)
        ensures
            shown@ == (TimestampFormat { in_millis, ..self@ }),
    {
        DisplayUnixTimeStamp { in_millis, ..self }
    }

    /// Chooses whether `Z` and the offset from UTC follow the time.
    pub fn with_timezone(self, with_timezone: bool) -> (shown: Self)
        ensures
            shown@ == (TimestampFormat { with_timezone, ..self@ }),
    {
        DisplayUnixTimeStamp { with_timezone, ..self }
    }

    /// The pattern for the options that are set.
    fn pattern(&self) -> (pattern: &'static str)
        ensures
            pattern@ == self@.pattern(),
    {
        if self.in_millis {
            if self.with_timezone {
                "%Y-%m-%dT%H:%M:%S%.3fZ%z"
            } else {
                "%Y-%m-%dT%H:%M:%S%.3f"
            }
        } else if self.with_timezone {
            "%Y-%m-%dT%H:%M:%S%.6fZ%z"
        } else {
            "%Y-%m-%dT%H:%M:%S%.6f"
        }
    }

    /// Writes the time, or `None`.
    pub fn to_string(&self) -> (out: String)
        requires
            self@.representable(),
        ensures
            out@ == self@.text(),
    {
        match self.duration {
            Some(duration) => {
                format_utc(duration.as_secs(), duration.subsec_nanos(), self.pattern())
            },
            None => {
                proof {
                    reveal_strlit("None");
                }
                let out = String::from_str("None");
                assert(out@ =~= none_text());
                out
            },
        }
    }

    /// Writes the time, or `None`, unless the time lies beyond chrono's
    /// calendar.
    pub fn try_to_string(&self) -> (out: Option<String>)
        ensures
            out is Some <==> self@.representable(),
            out matches Some(text) ==> text@ == self@.text(),
    {
        let reachable = match self.duration {
            Some(duration) => duration.as_secs() <= MAX_UNIX_SECONDS,
            None => true,
        };
        if reachable {
            Some(self.to_string())
        } else {
            None
        }
    }
}

/// Time spans that can be shown as Unix timestamps.
pub trait DisplayUnixTimeStampExt {
    /// This time span, if there is one.
    spec fn since_epoch(&self) -> Option<Duration>;

    /// Wraps the time span with no option set.
    fn display_unix_timestamp(&self) -> (shown: DisplayUnixTimeStamp)
        ensures
            shown@ == TimestampFormat::of(self.since_epoch()),
    ;

    /// Wraps the time span to be written with three digits of a second's
    /// fraction and without the time zone.
    fn display_unix_timestamp_short(&self) -> (shown: DisplayUnixTimeStamp)
        ensures
            shown@ == (TimestampFormat {
                in_millis: true,
                with_timezone: false,
                ..TimestampFormat::of(self.since_epoch())
            }),
    {
        self.display_unix_timestamp().in_millis(true).with_timezone(false)
    }
}

impl DisplayUnixTimeStampExt for Duration {
    open spec fn since_epoch(&self) -> Option<Duration> {
        Some(*self)
    }

    fn display_unix_timestamp(&self) -> (shown: DisplayUnixTimeStamp) {
        DisplayUnixTimeStamp::new(Some(*self))
    }
}

impl DisplayUnixTimeStampExt for Option<Duration> {
    open spec fn since_epoch(&self) -> Option<Duration> {
        *self
    }

    fn display_unix_timestamp(&self) -> (shown: DisplayUnixTimeStamp) {
        DisplayUnixTimeStamp::new(*self)
    }
}

} // verus!
