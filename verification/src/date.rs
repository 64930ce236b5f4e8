//! Calendar dates and their one textual form, `YYYY-MM-DD`.
//!
//! A [`Date`] is a day of the proleptic Gregorian calendar in the years 0 to
//! 9999. Within that range the textual form has ten characters, and texts
//! order as the days they stand for do. The `time` crate reads and writes the
//! text.

use vstd::prelude::*;
use crate::digits::{digit_char, digit_value, is_digit};

verus! {

/// The format description of the textual form, in the syntax of the `time`
/// crate.
pub const DATE_FORMAT: &'static str = "[year]-[month]-[day]";

/// The last year that a [`Date`] can hold.
pub const MAX_YEAR: u16 = 9999;

/// A calendar day as three numbers.
pub struct Ymd {
    pub year: int,
    pub month: int,
    pub day: int,
}

/// The day with the given year, month and day of the month.
pub open spec fn ymd(year: int, month: int, day: int) -> Ymd {
    Ymd { year, month, day }
}

/// Whether `year` is a leap year of the Gregorian calendar.
pub open spec fn is_leap_year(year: int) -> bool {
    year % 4 == 0 && (year % 100 != 0 || year % 400 == 0)
}

/// The number of days of `month` in `year`; 0 where `month` is no month.
pub open spec fn days_in_month(year: int, month: int) -> int {
    if month == 4 || month == 6 || month == 9 || month == 11 {
        30
    } else if month == 2 {
        if is_leap_year(year) {
            29
        } else {
            28
        }
    } else if 1 <= month <= 12 {
        31
    } else {
        0
    }
}

/// Whether the three numbers name a day of the calendar.
pub open spec fn is_calendar_day(year: int, month: int, day: int) -> bool {
    1 <= month <= 12 && 1 <= day <= days_in_month(year, month)
}

impl Ymd {
    /// Whether this is a day that a [`Date`] can hold.
    pub open spec fn is_valid(self) -> bool {
        0 <= self.year <= MAX_YEAR && is_calendar_day(self.year, self.month, self.day)
    }

    /// Whether this day is `other` or comes before it.
    pub open spec fn on_or_before(self, other: Ymd) -> bool {
        self.year < other.year || (self.year == other.year && (self.month < other.month || (
        self.month == other.month && self.day <= other.day)))
    }
}

/// `n` in two decimal digits, for `n` from 0 to 99.
pub open spec fn two_digits(n: int) -> Seq<char> {
    seq![digit_char(n / 10), digit_char(n % 10)]
}

/// The textual form of a day: the year in four digits, the month and the day
/// in two each, with `-` between them.
pub open spec fn iso_text(day: Ymd) -> Seq<char> {
    two_digits(day.year / 100) + two_digits(day.year % 100) + seq!['-'] + two_digits(day.month)
        + seq!['-'] + two_digits(day.day)
}

/// Whether `text` has the shape of the textual form: ten characters, digits
/// but for a `-` in the fifth and in the eighth place.
pub open spec fn has_date_shape(text: Seq<char>) -> bool {
    &&& text.len() == 10
    &&& is_digit(text[0])
    &&& is_digit(text[1])
    &&& is_digit(text[2])
    &&& is_digit(text[3])
    &&& text[4] == '-'
    &&& is_digit(text[5])
    &&& is_digit(text[6])
    &&& text[7] == '-'
    &&& is_digit(text[8])
    &&& is_digit(text[9])
}

/// The number that the two digits of `text` from `at` on stand for.
pub open spec fn number_at(text: Seq<char>, at: int) -> int {
    (digit_value(text[at]) * 10 + digit_value(text[at + 1])) as int
}

/// The day whose textual form `text` is, if it is the textual form of a day.
pub open spec fn day_of_text(text: Seq<char>) -> Option<Ymd> {
    let day = ymd(
        number_at(text, 0) * 100 + number_at(text, 2),
        number_at(text, 5),
        number_at(text, 8),
    );
    if has_date_shape(text) && day.is_valid() {
        Some(day)
    } else {
        None
    }
}

/// What `time::Date::parse` makes of `text` under the format description
/// `description`: the year, month and day of the date, or `None` where it
/// reports an error.
pub uninterp spec fn time_date_parse(text: Seq<char>, description: Seq<char>) -> Option<
    (i32, u8, u8),
>;

/// The day that a parse result stands for: the parsed day where it lies in
/// the years 0 to 9999.
pub open spec fn accepted(parsed: Option<(i32, u8, u8)>) -> Option<Ymd> {
    match parsed {
        Some((year, month, day)) => {
            let day = ymd(year as int, month as int, day as int);
            if day.is_valid() {
                Some(day)
            } else {
                None
            }
        },
        None => None,
    }
}

/// The day that `text` is read as, if it is read as one.
///
/// The textual form of a day is read as that day. Of any other text the
/// `time` crate decides, under [`DATE_FORMAT`], and what it makes of the
/// text counts where it lies in the years 0 to 9999.
pub open spec fn read_date(text: Seq<char>) -> Option<Ymd> {
    match day_of_text(text) {
        Some(day) => Some(day),
        None => accepted(time_date_parse(text, DATE_FORMAT@)),
    }
}

/// Whether `parsed` is right for `text` where `text` is the textual form of a
/// day: it is then that day.
pub open spec fn reads_textual_form(text: Seq<char>, parsed: Option<(i32, u8, u8)>) -> bool {
    day_of_text(text) matches Some(day) ==> parsed == Some(
        (day.year as i32, day.month as u8, day.day as u8),
    )
}

/// Parses `text` with `time::Date::parse`, under the format description that
/// `time::format_description::parse_borrowed` (version 1) makes of
/// `description`.
///
/// Trusted: the result is a function of the two texts alone, named
/// [`time_date_parse`]; a date that comes out is a day of the calendar; and
/// under [`DATE_FORMAT`] a text of four digits, `-`, two digits, `-` and two
/// digits, whose numbers name a day of the calendar, is read as that day. A
/// description or a text that `time` rejects gives `None`.
#[verifier::external_body]
fn parse_with(text: &str, description: &str) -> (out: Option<(i32, u8, u8)>)
    ensures
        out == time_date_parse(text@, description@),
        out matches Some((year, month, day)) ==> is_calendar_day(
            year as int,
            month as int,
            day as int,
        ),
        description@ == DATE_FORMAT@ ==> reads_textual_form(text@, out),
{
    let items = time::format_description::parse_borrowed::<1>(description).ok()?;
    let date = time::Date::parse(text, &items).ok()?;
    Some((date.year(), u8::from(date.month()), date.day()))
}

/// Formats a day with `time::Date::format`, under the format description that
/// `time::format_description::parse_borrowed` (version 1) makes of
/// `description`; the date is made by `time::Date::from_calendar_date`.
///
/// Trusted: under [`DATE_FORMAT`], a day of the calendar in the years 0 to
/// 9999 comes out as its year in four digits, its month and its day in two
/// digits each, zero-padded and joined by `-`.
#[verifier::external_body]
fn format_with(year: i32, month: u8, day: u8, description: &str) -> (out: Option<String>)
    requires
        description@ == DATE_FORMAT@,
        ymd(year as int, month as int, day as int).is_valid(),
    ensures
        out is Some,
        out matches Some(text) ==> text@ == iso_text(ymd(year as int, month as int, day as int)),
{
    let items = time::format_description::parse_borrowed::<1>(description).ok()?;
    let month = time::Month::try_from(month).ok()?;
    let date = time::Date::from_calendar_date(year, month, day).ok()?;
    date.format(&items).ok()
}

/// A day of the calendar, in the years 0 to 9999.
#[derive(Debug, Clone, Copy, PartialEq, Eq)]
pub struct Date {
    year: u16,
    month: u8,
    day: u8,
}

impl View for Date {
    type V = Ymd;

    closed spec fn view(&self) -> Ymd {
        Ymd { year: self.year as int, month: self.month as int, day: self.day as int }
    }
}

/// What an optional date holds.
pub open spec fn optional_day(date: Option<Date>) -> Option<Ymd> {
    match date {
        Some(date) => Some(date@),
        None => None,
    }
}

impl Date {
    /// Every date is a day of the calendar in the years 0 to 9999.
    #[verifier::type_invariant]
    pub open spec fn valid(self) -> bool {
        self@.is_valid()
    }

    /// The date of the given day, if there is such a day in the years 0 to
    /// 9999.
    pub fn new(year: i32, month: u8, day: u8) -> (out: Option<Date>)
        ensures
            out is Some <==> ymd(year as int, month as int, day as int).is_valid(),
            out matches Some(date) ==> date@ == ymd(year as int, month as int, day as int),
    {
        if year < 0 || year > 9999 || month < 1 || month > 12 || day < 1 {
            return None;
        }
        let year: u16 = year as u16;
        if day > month_length(year, month) {
            return None;
        }
        Some(Date { year, month, day })
    }

    /// Turns a parse result into a date: the parsed day where it lies in the
    /// years 0 to 9999, and `None` otherwise.
    pub fn from_parsed(parsed: Option<(i32, u8, u8)>) -> (out: Option<Date>)
        ensures
            optional_day(out) == accepted(parsed),
    {
        match parsed {
            Some((year, month, day)) => Date::new(year, month, day),
            None => None,
        }
    }

    /// Parses a date from a text.
    ///
    /// The textual form of a day is read as that day. Any other text is read
    /// as the `time` crate reads it under [`DATE_FORMAT`], and a date outside
    /// the years 0 to 9999 is refused.
    pub fn parse(text: &str) -> (out: Option<Date>)
        ensures
            optional_day(out) == read_date(text@),
    {
        Date::from_parsed(parse_with(text, DATE_FORMAT))
    }

    /// The textual form of the date.
    pub fn format(&self) -> (out: String)
        ensures
            out@ == iso_text(self@),
    {
        proof {
            use_type_invariant(self);
        }
        let year: i32 = self.year as i32;
        format_with(year, self.month, self.day, DATE_FORMAT).unwrap()
    }

    /// The year, from 0 to 9999.
    pub fn year(&self) -> (out: u16)
        ensures
            out == self@.year,
            self@.is_valid(),
    {
        proof {
            use_type_invariant(self);
        }
        self.year
    }

    /// The month, from 1 to 12.
    pub fn month(&self) -> (out: u8)
        ensures
            out == self@.month,
            self@.is_valid(),
    {
        proof {
            use_type_invariant(self);
        }
        self.month
    }

    /// The day of the month, from 1.
    pub fn day(&self) -> (out: u8)
        ensures
            out == self@.day,
            self@.is_valid(),
    {
        proof {
            use_type_invariant(self);
        }
        self.day
    }
}

/// Whether text `a` is text `b` or comes before it, as texts are ordered:
/// by the first character in which they differ, and a text before those that
/// it begins.
pub open spec fn text_le(a: Seq<char>, b: Seq<char>) -> bool {
    ||| (a.len() <= b.len() && forall|i: int| 0 <= i < a.len() ==> a[i] == b[i])
    ||| exists|k: int| differ_first_at(a, b, k) && a[k] < b[k]
}

/// Whether `k` is the first place in which the texts `a` and `b` differ.
pub open spec fn differ_first_at(a: Seq<char>, b: Seq<char>, k: int) -> bool {
    &&& 0 <= k < a.len()
    &&& k < b.len()
    &&& a[k] != b[k]
    &&& forall|i: int| 0 <= i < k ==> a[i] == b[i]
}

/// The characters of the textual form of a day.
pub proof fn lemma_text_characters(day: Ymd)
    requires
        day.is_valid(),
    ensures
        iso_text(day).len() == 10,
        iso_text(day)[0] == digit_char(day.year / 1000),
        iso_text(day)[1] == digit_char(day.year / 100 % 10),
        iso_text(day)[2] == digit_char(day.year % 100 / 10),
        iso_text(day)[3] == digit_char(day.year % 10),
        iso_text(day)[4] == '-',
        iso_text(day)[5] == digit_char(day.month / 10),
        iso_text(day)[6] == digit_char(day.month % 10),
        iso_text(day)[7] == '-',
        iso_text(day)[8] == digit_char(day.day / 10),
        iso_text(day)[9] == digit_char(day.day % 10),
        has_date_shape(iso_text(day)),
{
}

/// The textual form of a day is the textual form of that day alone.
pub proof fn lemma_text_of_day(day: Ymd)
    requires
        day.is_valid(),
    ensures
        day_of_text(iso_text(day)) == Some(day),
        read_date(iso_text(day)) == Some(day),
{
    lemma_text_characters(day);
}

/// A text that is the textual form of a day is the text written for that
/// day.
pub proof fn lemma_day_of_text(text: Seq<char>)
    ensures
        day_of_text(text) matches Some(day) ==> day.is_valid() && iso_text(day) == text,
{
    if let Some(day) = day_of_text(text) {
        lemma_text_characters(day);
        assert(iso_text(day) =~= text);
    }
}

/// Texts order as days do: the textual form of one day is that of another or
/// comes before it exactly where the day is the other or comes before it.
pub proof fn lemma_text_order(a: Ymd, b: Ymd)
    requires
        a.is_valid(),
        b.is_valid(),
    ensures
        text_le(iso_text(a), iso_text(b)) <==> a.on_or_before(b),
{
    let s = iso_text(a);
    let t = iso_text(b);
    lemma_text_characters(a);
    lemma_text_characters(b);
    if a == b {
    } else if text_le(s, t) {
        if s.len() <= t.len() && forall|i: int| 0 <= i < s.len() ==> s[i] == t[i] {
            assert(s[0] == t[0] && s[1] == t[1] && s[2] == t[2] && s[3] == t[3]);
            assert(s[5] == t[5] && s[6] == t[6] && s[8] == t[8] && s[9] == t[9]);
            assert(false);
        } else {
            let k = choose|k: int| differ_first_at(s, t, k) && s[k] < t[k];
            assert(forall|i: int| 0 <= i < k ==> s[i] == t[i]);
        }
    } else {
        if a.on_or_before(b) {
            let k = first_difference(s, t);
            assert(differ_first_at(s, t, k));
            assert(s[k] < t[k]);
        }
    }
}

/// The first place in which two texts of ten characters differ, or 10.
spec fn first_difference(a: Seq<char>, b: Seq<char>) -> int {
    if a[0] != b[0] {
        0
    } else if a[1] != b[1] {
        1
    } else if a[2] != b[2] {
        2
    } else if a[3] != b[3] {
        3
    } else if a[4] != b[4] {
        4
    } else if a[5] != b[5] {
        5
    } else if a[6] != b[6] {
        6
    } else if a[7] != b[7] {
        7
    } else if a[8] != b[8] {
        8
    } else if a[9] != b[9] {
        9
    } else {
        10
    }
}

/// Tests whether `year` is a leap year.
pub fn leap_year(year: u16) -> (out: bool)
    ensures
        out == is_leap_year(year as int),
{
    year % 4 == 0 && (year % 100 != 0 || year % 400 == 0)
}

/// The number of days of `month` in `year`; 0 where `month` is no month.
pub fn month_length(year: u16, month: u8) -> (out: u8)
    ensures
        out == days_in_month(year as int, month as int),
{
    if month == 4 || month == 6 || month == 9 || month == 11 {
        30
    } else if month == 2 {
        if leap_year(year) {
            29
        } else {
            28
        }
    } else if 1 <= month && month <= 12 {
        31
    } else {
        0
    }
}

} // verus!
