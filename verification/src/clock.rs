//! The moment at which a recording starts, and the file name that it gives.

use vstd::prelude::*;

verus! {

/// A date of the Gregorian calendar with a time of day, to the second.
pub struct Moment {
    pub year: int,
    pub month: int,
    pub day: int,
    pub hour: int,
    pub minute: int,
    pub second: int,
}

/// Whether `year` of the Gregorian calendar has a 29th of February.
pub open spec fn is_leap_year(year: int) -> bool {
    year % 4 == 0 && (year % 100 != 0 || year % 400 == 0)
}

/// The number of days that `month` has in `year`.
pub open spec fn days_in_month(year: int, month: int) -> int {
    if month == 2 {
        if is_leap_year(year) {
            29
        } else {
            28
        }
    } else if month == 4 || month == 6 || month == 9 || month == 11 {
        30
    } else {
        31
    }
}

impl Moment {
    /// Whether the calendar has this day, the day has this time, and the year
    /// is written with four digits.
    pub open spec fn is_valid(self) -> bool {
        &&& 0 <= self.year <= 9999
        &&& 1 <= self.month <= 12
        &&& 1 <= self.day <= days_in_month(self.year, self.month)
        &&& 0 <= self.hour < 24
        &&& 0 <= self.minute < 60
        &&& 0 <= self.second < 60
    }
}

/// The decimal digit for `value`, which is from 0 to 9.
pub open spec fn digit(value: int) -> char {
    if value == 0 {
        '0'
    } else if value == 1 {
        '1'
    } else if value == 2 {
        '2'
    } else if value == 3 {
        '3'
    } else if value == 4 {
        '4'
    } else if value == 5 {
        '5'
    } else if value == 6 {
        '6'
    } else if value == 7 {
        '7'
    } else if value == 8 {
        '8'
    } else {
        '9'
    }
}

/// `value`, which is from 0 to 99, in two decimal digits.
pub open spec fn two_digits(value: int) -> Seq<char> {
    seq![digit(value / 10), digit(value % 10)]
}

/// `value`, which is from 0 to 9999, in four decimal digits.
pub open spec fn four_digits(value: int) -> Seq<char> {
    two_digits(value / 100) + two_digits(value % 100)
}

/// The file name of the recording that starts at `moment`: the text
/// `YYYY-MM-DD_HH-MM-SS.mp4`.
pub open spec fn stamped_name(moment: Moment) -> Seq<char> {
    four_digits(moment.year) + seq!['-'] + two_digits(moment.month) + seq!['-'] + two_digits(
        moment.day,
    ) + seq!['_'] + two_digits(moment.hour) + seq!['-'] + two_digits(moment.minute) + seq!['-']
        + two_digits(moment.second) + RECORDING_EXTENSION@
}

/// The ending of a recording's file name: the dot and the extension.
pub const RECORDING_EXTENSION: &'static str = ".mp4";

/// Every name of a recording has 23 characters.
pub proof fn lemma_name_length(moment: Moment)
    ensures
        stamped_name(moment).len() == 23,
{
    reveal_strlit(".mp4");
}

proof fn lemma_two_digits_differ(a: int, b: int)
    requires
        0 <= a <= 99,
        0 <= b <= 99,
        two_digits(a) == two_digits(b),
    ensures
        a == b,
{
    assert(two_digits(a)[0] == two_digits(b)[0]);
    assert(two_digits(a)[1] == two_digits(b)[1]);
}

/// Different moments give different names: a name stands for one second.
pub proof fn lemma_names_differ(a: Moment, b: Moment)
    requires
        a.is_valid(),
        b.is_valid(),
        stamped_name(a) == stamped_name(b),
    ensures
        a == b,
{
    let x = stamped_name(a);
    let y = stamped_name(b);
    lemma_name_length(a);
    lemma_name_length(b);
    assert(x.subrange(0, 2) =~= two_digits(a.year / 100));
    assert(y.subrange(0, 2) =~= two_digits(b.year / 100));
    lemma_two_digits_differ(a.year / 100, b.year / 100);
    assert(x.subrange(2, 4) =~= two_digits(a.year % 100));
    assert(y.subrange(2, 4) =~= two_digits(b.year % 100));
    lemma_two_digits_differ(a.year % 100, b.year % 100);
    assert(x.subrange(5, 7) =~= two_digits(a.month));
    assert(y.subrange(5, 7) =~= two_digits(b.month));
    lemma_two_digits_differ(a.month, b.month);
    assert(x.subrange(8, 10) =~= two_digits(a.day));
    assert(y.subrange(8, 10) =~= two_digits(b.day));
    lemma_two_digits_differ(a.day, b.day);
    assert(x.subrange(11, 13) =~= two_digits(a.hour));
    assert(y.subrange(11, 13) =~= two_digits(b.hour));
    lemma_two_digits_differ(a.hour, b.hour);
    assert(x.subrange(14, 16) =~= two_digits(a.minute));
    assert(y.subrange(14, 16) =~= two_digits(b.minute));
    lemma_two_digits_differ(a.minute, b.minute);
    assert(x.subrange(17, 19) =~= two_digits(a.second));
    assert(y.subrange(17, 19) =~= two_digits(b.second));
    lemma_two_digits_differ(a.second, b.second);
}

/// The pattern, in the notation of `strftime`, of a recording's file name.
pub const RECORDING_NAME_PATTERN: &'static str = "%Y-%m-%d_%H-%M-%S.mp4";

/// A moment of local time. Every value is a valid [`Moment`].
#[derive(Debug, Clone, Copy, PartialEq, Eq)]
pub struct Timestamp {
    year: i32,
    month: u32,
    day: u32,
    hour: u32,
    minute: u32,
    second: u32,
}

impl View for Timestamp {
    type V = Moment;

    closed spec fn view(&self) -> Moment {
        Moment {
            year: self.year as int,
            month: self.month as int,
            day: self.day as int,
            hour: self.hour as int,
            minute: self.minute as int,
            second: self.second as int,
        }
    }
}

/// The number of days of `month` in `year`.
fn month_length(year: i32, month: u32) -> (days: u32)
    requires
        0 <= year <= 9999,
    ensures
        days == days_in_month(year as int, month as int),
{
    if month == 2 {
        if year % 4 == 0 && (year % 100 != 0 || year % 400 == 0) {
            29
        } else {
            28
        }
    } else if month == 4 || month == 6 || month == 9 || month == 11 {
        30
    } else {
        31
    }
}

/// Has chrono write a date and time in the pattern of a recording's name. The
/// body builds the date with `NaiveDate::from_ymd_opt`, adds the time with
/// `NaiveDate::and_hms_opt` and writes both with `NaiveDateTime::format`.
///
/// Not proved: that chrono accepts every day of the proleptic Gregorian
/// calendar with a time of day up to 23:59:59, and that under this pattern it
/// writes a year from 0 to 9999 in four digits, each other field in two, all
/// padded with zeros, and the other characters of the pattern as they are.
#[verifier::external_body]
fn write_moment(
    year: i32,
    month: u32,
    day: u32,
    hour: u32,
    minute: u32,
    second: u32,
    pattern: &str,
) -> (text: String)
    requires
        (Moment {
            year: year as int,
            month: month as int,
            day: day as int,
            hour: hour as int,
            minute: minute as int,
            second: second as int,
        }).is_valid(),
        pattern@ == RECORDING_NAME_PATTERN@,
    ensures
        text@ == stamped_name(
            Moment {
                year: year as int,
                month: month as int,
                day: day as int,
                hour: hour as int,
                minute: minute as int,
                second: second as int,
            },
        ),
{
    let date = chrono::NaiveDate::from_ymd_opt(year, month, day).unwrap();
    let date_time = date.and_hms_opt(hour, minute, second).unwrap();
    date_time.format(pattern).to_string()
}

impl Timestamp {
    #[verifier::type_invariant]
    spec fn is_moment(self) -> bool {
        self@.is_valid()
    }

    /// The timestamp of the given date and time, if there is such a moment.
    pub fn new(year: i32, month: u32, day: u32, hour: u32, minute: u32, second: u32) -> (made:
        Option<Timestamp>)
        ensures
            made is Some <==> (Moment {
                year: year as int,
                month: month as int,
                day: day as int,
                hour: hour as int,
                minute: minute as int,
                second: second as int,
            }).is_valid(),
            made matches Some(stamp) ==> stamp@ == (Moment {
                year: year as int,
                month: month as int,
                day: day as int,
                hour: hour as int,
                minute: minute as int,
                second: second as int,
            }),
    {
        if year < 0 || year > 9999 || month < 1 || month > 12 {
            return None;
        }
        if day < 1 || day > month_length(year, month) {
            return None;
        }
        if hour >= 24 || minute >= 60 || second >= 60 {
            return None;
        }
        Some(Timestamp { year, month, day, hour, minute, second })
    }

    /// The year, from 0 to 9999.
    pub fn year(&self) -> (year: i32)
        ensures
            year == self@.year,
            self@.is_valid(),
    {
        proof {
            use_type_invariant(self);
        }
        self.year
    }

    /// The month, from 1 to 12.
    pub fn month(&self) -> (month: u32)
        ensures
            month == self@.month,
            self@.is_valid(),
    {
        proof {
            use_type_invariant(self);
        }
        self.month
    }

    /// The day of the month, from 1.
    pub fn day(&self) -> (day: u32)
        ensures
            day == self@.day,
            self@.is_valid(),
    {
        proof {
            use_type_invariant(self);
        }
        self.day
    }

    /// The hour, from 0 to 23.
    pub fn hour(&self) -> (hour: u32)
        ensures
            hour == self@.hour,
            self@.is_valid(),
    {
        proof {
            use_type_invariant(self);
        }
        self.hour
    }

    /// The minute, from 0 to 59.
    pub fn minute(&self) -> (minute: u32)
        ensures
            minute == self@.minute,
            self@.is_valid(),
    {
        proof {
            use_type_invariant(self);
        }
        self.minute
    }

    /// The second, from 0 to 59.
    pub fn second(&self) -> (second: u32)
        ensures
            second == self@.second,
            self@.is_valid(),
    {
        proof {
            use_type_invariant(self);
        }
        self.second
    }

    /// The file name of the recording that starts at this moment.
    pub fn recording_name(&self) -> (name: String)
        ensures
            name@ == stamped_name(self@),
    {
        proof {
            use_type_invariant(self);
        }
        write_moment(
            self.year,
            self.month,
            self.day,
            self.hour,
            self.minute,
            self.second,
            RECORDING_NAME_PATTERN,
        )
    }
}

} // verus!
