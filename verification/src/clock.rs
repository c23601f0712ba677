//! Times of day and their text.

use vstd::prelude::*;
use crate::text::{three_digits, two_digits};

verus! {

/// The times of day that can be written down: hours, minutes and seconds in
/// their usual ranges, and milliseconds below 1000, or from 1000 to 1999 in
/// second 59 for a leap second.
pub open spec fn valid_time_of_day(hour: int, minute: int, second: int, milli: int) -> bool {
    &&& 0 <= hour < 24
    &&& 0 <= minute < 60
    &&& 0 <= second < 60
    &&& 0 <= milli < 2000
    &&& milli >= 1000 ==> second == 59
}

/// The text `HH:MM:SS.mmm` of a time of day. A leap second shows as second 60.
pub open spec fn clock_digits(hour: int, minute: int, second: int, milli: int) -> Seq<char> {
    two_digits(hour) + seq![':'] + two_digits(minute) + seq![':'] + two_digits(
        second + milli / 1000,
    ) + seq!['.'] + three_digits(milli % 1000)
}

/// The time of day that a clock reading stands for. A reading that is a time
/// of day stands for itself. One whose milliseconds are more than its second
/// can hold stands for the last millisecond of that second, and one whose
/// hour, minute or second is out of range for midnight.
pub open spec fn reading_time(hour: int, minute: int, second: int, milli: int) -> (int, int, int, int) {
    if valid_time_of_day(hour, minute, second, milli) {
        (hour, minute, second, milli)
    } else if valid_time_of_day(hour, minute, second, 999) {
        (hour, minute, second, 999)
    } else {
        (0, 0, 0, 0)
    }
}

/// A time of day with millisecond resolution.
#[derive(Clone, Copy, Debug)]
pub struct Timestamp {
    hour: u32,
    minute: u32,
    second: u32,
    milli: u32,
}

impl Timestamp {
    #[verifier::type_invariant]
    spec fn well_formed(self) -> bool {
        valid_time_of_day(self.hour as int, self.minute as int, self.second as int, self.milli as int)
    }

    /// Hour of the day.
    pub closed spec fn spec_hour(self) -> int {
        self.hour as int
    }

    /// Minute of the hour.
    pub closed spec fn spec_minute(self) -> int {
        self.minute as int
    }

    /// Second of the minute.
    pub closed spec fn spec_second(self) -> int {
        self.second as int
    }

    /// Milliseconds since the whole second; 1000 and more in a leap second.
    pub closed spec fn spec_milli(self) -> int {
        self.milli as int
    }

    /// The text `HH:MM:SS.mmm` of this time.
    pub open spec fn digits(self) -> Seq<char> {
        clock_digits(self.spec_hour(), self.spec_minute(), self.spec_second(), self.spec_milli())
    }

    /// The start of the day, `00:00:00.000`.
    pub fn midnight() -> (r: Timestamp)
        ensures
            r.spec_hour() == 0,
            r.spec_minute() == 0,
            r.spec_second() == 0,
            r.spec_milli() == 0,
    {
        Timestamp { hour: 0, minute: 0, second: 0, milli: 0 }
    }

    /// The timestamp of the given time of day, or `None` if there is no such
    /// time.
    pub fn new(hour: u32, minute: u32, second: u32, milli: u32) -> (r: Option<Timestamp>)
        ensures
            r is Some <==> valid_time_of_day(hour as int, minute as int, second as int, milli as int),
            r matches Some(t) ==> t.spec_hour() == hour && t.spec_minute() == minute
                && t.spec_second() == second && t.spec_milli() == milli,
    {
        if hour < 24 && minute < 60 && second < 60 && milli < 2000 && (milli < 1000 || second == 59) {
            Some(Timestamp { hour, minute, second, milli })
        } else {
            None
        }
    }

    /// The timestamp of a clock reading, whatever the reading holds. The
    /// reading is taken by the caller, at the moment at which the event is
    /// made.
    pub fn from_reading(hour: u32, minute: u32, second: u32, milli: u32) -> (r: Timestamp)
        ensures
            (r.spec_hour(), r.spec_minute(), r.spec_second(), r.spec_milli()) == reading_time(
                hour as int,
                minute as int,
                second as int,
                milli as int,
            ),
    {
        match Timestamp::new(hour, minute, second, milli) {
            Some(t) => t,
            None => match Timestamp::new(hour, minute, second, 999) {
                Some(t) => t,
                None => Timestamp::midnight(),
            },
        }
    }

    /// Hour of the day.
    pub fn hour(&self) -> (r: u32)
        ensures
            r == self.spec_hour(),
    {
        self.hour
    }

    /// Minute of the hour.
    pub fn minute(&self) -> (r: u32)
        ensures
            r == self.spec_minute(),
    {
        self.minute
    }

    /// Second of the minute.
    pub fn second(&self) -> (r: u32)
        ensures
            r == self.spec_second(),
    {
        self.second
    }

    /// Milliseconds since the whole second.
    pub fn milli(&self) -> (r: u32)
        ensures
            r == self.spec_milli(),
    {
        self.milli
    }

    /// Writes this time as `HH:MM:SS.mmm`.
    pub fn text(&self) -> (r: String)
        ensures
            r@ == self.digits(),
    {
        proof {
            use_type_invariant(self);
        }
        clock_text(self.hour, self.minute, self.second, self.milli)
    }
}

/// Writes a time of day as `HH:MM:SS.mmm`.
///
/// Builds a `chrono::NaiveTime` with `from_hms_milli_opt`, which accepts the
/// times that `requires` admits and no others, and formats it with the pattern
/// `%H:%M:%S%.3f`: hour, minute and second zero-padded to two digits, then a
/// dot and the milliseconds in three digits. The contract restates what
/// chrono documents for these specifiers, leap second included; it is not
/// proved here.
#[verifier::external_body]
fn clock_text(hour: u32, minute: u32, second: u32, milli: u32) -> (r: String)
    requires
        valid_time_of_day(hour as int, minute as int, second as int, milli as int),
    ensures
        r@ == clock_digits(hour as int, minute as int, second as int, milli as int),
{
    let time = chrono::NaiveTime::from_hms_milli_opt(hour, minute, second, milli).unwrap();
    time.format("%H:%M:%S%.3f").to_string()
}

} // verus!
