//! Wall-clock readings to the second.
use chrono::{Datelike, Timelike};
use vstd::prelude::*;
use vstd::string::*;
use vstd::utf8::*;

verus! {

/// Whether `year` of the proleptic Gregorian calendar has a 29th of February.
pub open spec fn is_leap_year(year: int) -> bool {
    year % 4 == 0 && (year % 100 != 0 || year % 400 == 0)
}

/// The number of days of `month` in `year`; 0 where `month` is no month.
pub open spec fn days_in_month(year: int, month: int) -> int {
    if month == 1 || month == 3 || month == 5 || month == 7 || month == 8 || month == 10 || month
        == 12 {
        31
    } else if month == 4 || month == 6 || month == 9 || month == 11 {
        30
    } else if month == 2 {
        if is_leap_year(year) {
            29
        } else {
            28
        }
    } else {
        0
    }
}

/// A calendar date with a time of day.
pub struct CivilTime {
    pub year: int,
    pub month: int,
    pub day: int,
    pub hour: int,
    pub minute: int,
    pub second: int,
}

impl CivilTime {
    /// Whether the fields name a day that exists and a time of that day.
    pub open spec fn valid(self) -> bool {
        &&& 1 <= self.month <= 12
        &&& 1 <= self.day <= days_in_month(self.year, self.month)
        &&& 0 <= self.hour < 24
        &&& 0 <= self.minute < 60
        &&& 0 <= self.second < 60
    }
}

/// The form in which an envelope writes a timestamp, in chrono's notation:
/// `YYYY/MM/DD-HH:MM:SS`.
pub open spec fn envelope_format() -> Seq<char> {
    "%Y/%m/%d-%H:%M:%S"@
}

/// Whether a byte is a decimal digit.
pub open spec fn is_digit(byte: u8) -> bool {
    48 <= byte <= 57
}

/// Whether bytes have the shape `YYYY/MM/DD-HH:MM:SS`: nineteen of them,
/// digits but for the two slashes, the hyphen and the two colons in their
/// places, and the seconds under 60. (The parser would take a second of 60
/// for a leap second and hand out the second before it.)
pub open spec fn envelope_shaped(bytes: Seq<u8>) -> bool {
    &&& bytes.len() == 19
    &&& bytes[17] <= 53
    &&& forall|i: int|
        0 <= i < 19 ==> if i == 4 || i == 7 {
            bytes[i] == 47
        } else if i == 10 {
            bytes[i] == 45
        } else if i == 13 || i == 16 {
            bytes[i] == 58
        } else {
            is_digit(#[trigger] bytes[i])
        }
}

/// The reading that a text in the form of an envelope stands for, where
/// it has that form exactly and names a day and a time that exist.
pub open spec fn envelope_reading(text: Seq<char>) -> Option<CivilTime> {
    if envelope_shaped(encode_utf8(text)) {
        reading_of(chrono_reading(text, envelope_format()))
    } else {
        None
    }
}

/// What chrono's `NaiveDateTime::parse_from_str` makes of `text` under
/// `format`: `None` where it refuses the text, else the year, month, day,
/// hour, minute and second of the reading.
pub uninterp spec fn chrono_reading(text: Seq<char>, format: Seq<char>) -> Option<
    (i32, u32, u32, u32, u32, u32),
>;

/// The reading that six fields stand for, where they stand for one.
pub open spec fn reading_of(fields: Option<(i32, u32, u32, u32, u32, u32)>) -> Option<CivilTime> {
    match fields {
        Some((year, month, day, hour, minute, second)) => {
            let civil = CivilTime {
                year: year as int,
                month: month as int,
                day: day as int,
                hour: hour as int,
                minute: minute as int,
                second: second as int,
            };
            if civil.valid() {
                Some(civil)
            } else {
                None
            }
        },
        None => None,
    }
}

/// A reading that the six fields of a machine can hold, taken apart into
/// those fields and put together again, is the same reading.
pub proof fn lemma_fields_give_the_reading_back(civil: CivilTime)
    requires
        civil.valid(),
        i32::MIN <= civil.year <= i32::MAX,
    ensures
        reading_of(
            Some(
                (
                    civil.year as i32,
                    civil.month as u32,
                    civil.day as u32,
                    civil.hour as u32,
                    civil.minute as u32,
                    civil.second as u32,
                ),
            ),
        ) == Some(civil),
{
}

/// Every reading of an envelope exists, and a machine can hold its year.
pub proof fn lemma_envelope_reading_is_valid(text: Seq<char>)
    requires
        envelope_reading(text) is Some,
    ensures
        envelope_reading(text)->0.valid(),
        i32::MIN <= envelope_reading(text)->0.year <= i32::MAX,
{
}

/// Calls chrono's `NaiveDateTime::parse_from_str` and reads the fields of
/// what it returns through `Datelike` and `Timelike`. Trusted: the result is
/// what this library calls `chrono_reading` of the same text and format.
#[verifier::external_body]
fn parse_naive(text: &str, format: &str) -> (fields: Option<(i32, u32, u32, u32, u32, u32)>)
    ensures
        fields == chrono_reading(text@, format@),
{
    match chrono::NaiveDateTime::parse_from_str(text, format) {
        Ok(t) => Some((t.year(), t.month(), t.day(), t.hour(), t.minute(), t.second())),
        Err(_) => None,
    }
}

fn has_envelope_shape(text: &str) -> (shaped: bool)
    ensures
        shaped == envelope_shaped(encode_utf8(text@)),
{
    let bytes = text.as_bytes();
    if bytes.len() != 19 {
        return false;
    }
    let mut i: usize = 0;
    while i < 19
        invariant
            i <= 19,
            bytes@.len() == 19,
            bytes@ == encode_utf8(text@),
            forall|j: int|
                0 <= j < i ==> if j == 4 || j == 7 {
                    bytes@[j] == 47
                } else if j == 10 {
                    bytes@[j] == 45
                } else if j == 13 || j == 16 {
                    bytes@[j] == 58
                } else {
                    is_digit(#[trigger] bytes@[j])
                },
        decreases 19 - i,
    {
        let byte = bytes[i];
        let fits = if i == 4 || i == 7 {
            byte == 47
        } else if i == 10 {
            byte == 45
        } else if i == 13 || i == 16 {
            byte == 58
        } else {
            48 <= byte && byte <= 57
        };
        if !fits {
            return false;
        }
        i += 1;
    }
    bytes[17] <= 53
}

fn leap_year(year: i32) -> (leap: bool)
    ensures
        leap == is_leap_year(year as int),
{
    year % 4 == 0 && (year % 100 != 0 || year % 400 == 0)
}

fn month_length(year: i32, month: u32) -> (days: u32)
    requires
        1 <= month <= 12,
    ensures
        days == days_in_month(year as int, month as int),
{
    if month == 2 {
        if leap_year(year) {
            29
        } else {
            28
        }
    } else if month == 4 || month == 6 || month == 9 || month == 11 {
        30
    } else {
        31
    }
}

/// A wall-clock reading to the second, always one that exists.
#[derive(Clone, Copy, Debug, PartialEq, Eq)]
pub struct Timestamp {
    year: i32,
    month: u32,
    day: u32,
    hour: u32,
    minute: u32,
    second: u32,
}

impl View for Timestamp {
    type V = CivilTime;

    closed spec fn view(&self) -> CivilTime {
        CivilTime {
            year: self.year as int,
            month: self.month as int,
            day: self.day as int,
            hour: self.hour as int,
            minute: self.minute as int,
            second: self.second as int,
        }
    }
}

impl Timestamp {
    #[verifier::type_invariant]
    spec fn exists_on_the_calendar(self) -> bool {
        self@.valid()
    }

    /// The reading with the given fields, if there is such a day and time.
    pub fn new(year: i32, month: u32, day: u32, hour: u32, minute: u32, second: u32) -> (stamp:
        Option<Timestamp>)
        ensures
            match stamp {
                Some(t) => reading_of(Some((year, month, day, hour, minute, second))) == Some(t@),
                None => reading_of(Some((year, month, day, hour, minute, second))) is None,
            },
    {
        if month < 1 || month > 12 || day < 1 || hour >= 24 || minute >= 60 || second >= 60 {
            return None;
        }
        if day > month_length(year, month) {
            return None;
        }
        Some(Timestamp { year, month, day, hour, minute, second })
    }

    /// Reads a timestamp written as `YYYY/MM/DD-HH:MM:SS`, and in no
    /// other way.
    pub fn parse(text: &str) -> (stamp: Option<Timestamp>)
        ensures
            match stamp {
                Some(t) => envelope_reading(text@) == Some(t@),
                None => envelope_reading(text@) is None,
            },
    {
        if !has_envelope_shape(text) {
            return None;
        }
        match parse_naive(text, "%Y/%m/%d-%H:%M:%S") {
            Some((year, month, day, hour, minute, second)) => Timestamp::new(
                year,
                month,
                day,
                hour,
                minute,
                second,
            ),
            None => None,
        }
    }

    pub fn year(&self) -> (year: i32)
        ensures
            year == self@.year,
    {
        self.year
    }

    pub fn month(&self) -> (month: u32)
        ensures
            month == self@.month,
            1 <= month <= 12,
    {
        proof {
            use_type_invariant(self);
        }
        self.month
    }

    pub fn day(&self) -> (day: u32)
        ensures
            day == self@.day,
            1 <= day <= days_in_month(self@.year, self@.month),
    {
        proof {
            use_type_invariant(self);
        }
        self.day
    }

    pub fn hour(&self) -> (hour: u32)
        ensures
            hour == self@.hour,
            hour < 24,
    {
        proof {
            use_type_invariant(self);
        }
        self.hour
    }

    pub fn minute(&self) -> (minute: u32)
        ensures
            minute == self@.minute,
            minute < 60,
    {
        proof {
            use_type_invariant(self);
        }
        self.minute
    }

    pub fn second(&self) -> (second: u32)
        ensures
            second == self@.second,
            second < 60,
    {
        proof {
            use_type_invariant(self);
        }
        self.second
    }
}

} // verus!
