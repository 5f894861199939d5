//! Small things that the rest stands on: text, numbers as text, the
//! output of a process, ranges, and the clock.

pub mod program_output;
pub mod range;
pub mod text;

pub use program_output::ProgramOutput;
pub use range::Range;

use crate::utils::text::{
    decimal, i32_to_string, push_char, signed_decimal, two_digit_string, two_digits, u64_to_string,
};
use chrono::{Datelike, Timelike};
use vstd::prelude::*;
use vstd::string::*;

verus! {

/// Splits a number of seconds into whole hours, minutes below sixty and
/// seconds below sixty.
pub fn seconds_to_hours_and_minutes(seconds: u64) -> (parts: (u64, u64, u64))
    ensures
        parts.0 == seconds / 3600,
        parts.1 == (seconds % 3600) / 60,
        parts.2 == seconds % 60,
        parts.1 < 60,
        parts.2 < 60,
        parts.0 * 3600 + parts.1 * 60 + parts.2 == seconds,
{
    let hours: u64 = seconds / 3600;
    let rest: u64 = seconds % 3600;
    let minutes: u64 = rest / 60;
    let secs: u64 = rest % 60;
    (hours, minutes, secs)
}

} // verus!

verus! {

/// A moment of the clock on the wall, as the calendar and the time of day
/// give it.
#[derive(Debug, Clone, Copy)]
pub struct Moment {
    pub hour: u32,
    pub minute: u32,
    pub second: u32,
    pub day: u32,
    pub month: u32,
    pub year: i32,
}

/// Whether the numbers of a moment are such as a clock and a calendar
/// show.
pub open spec fn on_the_clock(moment: Moment) -> bool {
    &&& moment.hour <= 23
    &&& moment.minute <= 59
    &&& moment.second <= 59
    &&& 1 <= moment.day <= 31
    &&& 1 <= moment.month <= 12
}

/// `chrono::Local::now` reads the clock of the machine in its time zone.
/// The methods `hour`, `minute` and `second` of `Timelike` give numbers
/// from 0 to 23, to 59 and to 59; `day` and `month` of `Datelike` give
/// numbers from 1 to 31 and to 12; `year` gives the year. Which moment
/// comes back is left open.
#[verifier::external_body]
fn local_now() -> (moment: Moment)
    ensures
        on_the_clock(moment),
{
    let now = chrono::Local::now();
    Moment {
        hour: now.hour(),
        minute: now.minute(),
        second: now.second(),
        day: now.day(),
        month: now.month(),
        year: now.year(),
    }
}

/// A moment as a stamp: hour, minute and second with two digits each and
/// colons between them, a dash, then day, month and year with underscores
/// between them.
pub open spec fn stamp_of(moment: Moment) -> Seq<char> {
    two_digits(moment.hour as nat) + seq![':'] + two_digits(moment.minute as nat) + seq![':']
        + two_digits(moment.second as nat) + seq!['-'] + decimal(moment.day as nat) + seq!['_']
        + decimal(moment.month as nat) + seq!['_'] + signed_decimal(moment.year as int)
}

/// Writes a moment as a stamp.
pub fn format_timestamp(moment: Moment) -> (stamp: String)
    ensures
        stamp@ == stamp_of(moment),
{
    let mut stamp = two_digit_string(moment.hour as u64);
    push_char(&mut stamp, ':');
    let minute = two_digit_string(moment.minute as u64);
    stamp.append(minute.as_str());
    push_char(&mut stamp, ':');
    let second = two_digit_string(moment.second as u64);
    stamp.append(second.as_str());
    push_char(&mut stamp, '-');
    let day = u64_to_string(moment.day as u64);
    stamp.append(day.as_str());
    push_char(&mut stamp, '_');
    let month = u64_to_string(moment.month as u64);
    stamp.append(month.as_str());
    push_char(&mut stamp, '_');
    let year = i32_to_string(moment.year);
    stamp.append(year.as_str());
    proof {
        assert(stamp@ =~= stamp_of(moment));
    }
    stamp
}

/// The stamp of the present moment.
pub fn timestamp() -> (stamp: String)
    ensures
        exists|moment: Moment| on_the_clock(moment) && stamp@ == #[trigger] stamp_of(moment),
{
    let moment = local_now();
    let stamp = format_timestamp(moment);
    proof {
        assert(on_the_clock(moment) && stamp@ == stamp_of(moment));
    }
    stamp
}

/// A length of time as the candidate reads it.
pub open spec fn duration_text(seconds: u64) -> Seq<char> {
    decimal((seconds / 3600) as nat) + "hrs, "@ + decimal(((seconds % 3600) / 60) as nat)
        + "mins and "@ + decimal((seconds % 60) as nat) + "sec"@
}

/// Writes a length of time in hours, minutes and seconds.
pub fn format_duration(seconds: u64) -> (text: String)
    ensures
        text@ == duration_text(seconds),
{
    let (hours, minutes, secs) = seconds_to_hours_and_minutes(seconds);
    let mut text = u64_to_string(hours);
    text.append("hrs, ");
    let minutes_text = u64_to_string(minutes);
    text.append(minutes_text.as_str());
    text.append("mins and ");
    let seconds_text = u64_to_string(secs);
    text.append(seconds_text.as_str());
    text.append("sec");
    text
}

/// The width of the bar that divides the screen, for a terminal of so many
/// columns: ten less, and eleven at least.
pub fn divider_width(columns: usize) -> (width: usize)
    ensures
        width == if columns <= 11 {
            11
        } else {
            columns - 10
        },
{
    if columns <= 11 {
        11
    } else {
        columns - 10
    }
}

} // verus!
