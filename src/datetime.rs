use crate::error::CliError;
use chrono::{Datelike, Timelike};
use vstd::prelude::*;

verus! {

/// A point in time on the UTC calendar, held as its wall-clock fields.
/// A leap second is written as second 59 with a nanosecond count of at least
/// one billion.
#[derive(Debug, Clone, Copy, PartialEq, Eq)]
pub struct UtcDateTime {
    pub year: i32,
    pub month: u32,
    pub day: u32,
    pub hour: u32,
    pub minute: u32,
    pub second: u32,
    pub nanosecond: u32,
}

pub open spec fn is_leap_year(y: int) -> bool {
    (y % 4 == 0 && y % 100 != 0) || y % 400 == 0
}

pub open spec fn days_in_month(y: int, m: int) -> int {
    if m == 2 {
        if is_leap_year(y) {
            29
        } else {
            28
        }
    } else if m == 4 || m == 6 || m == 9 || m == 11 {
        30
    } else {
        31
    }
}

/// A day that exists on the proleptic Gregorian calendar.
pub open spec fn is_valid_date(y: int, m: int, d: int) -> bool {
    1 <= m <= 12 && 1 <= d <= days_in_month(y, m)
}

impl UtcDateTime {
    /// The fields hold a real calendar day and a time of day.
    pub open spec fn wf(&self) -> bool {
        &&& is_valid_date(self.year as int, self.month as int, self.day as int)
        &&& self.hour < 24
        &&& self.minute < 60
        &&& self.second < 60
        &&& self.nanosecond < 2_000_000_000
    }

    pub open spec fn date_fields(&self) -> (int, int, int) {
        (self.year as int, self.month as int, self.day as int)
    }

    pub open spec fn time_fields(&self) -> (int, int, int, int) {
        (self.hour as int, self.minute as int, self.second as int, self.nanosecond as int)
    }
}

pub open spec fn is_digit(c: char) -> bool {
    '0' <= c <= '9'
}

pub open spec fn digit_value(c: char) -> int {
    c as int - '0' as int
}

/// The number written by the two digits of `s` at `i` and `i + 1`.
pub open spec fn two_digits(s: Seq<char>, i: int) -> int {
    10 * digit_value(s[i]) + digit_value(s[i + 1])
}

/// Text of the shape `YYYY-MM-DD`, each letter an ASCII digit.
pub open spec fn is_date_shape(s: Seq<char>) -> bool {
    &&& s.len() == 10
    &&& forall|i: int| 0 <= i < 10 && i != 4 && i != 7 ==> is_digit(#[trigger] s[i])
    &&& s[4] == '-'
    &&& s[7] == '-'
}

/// The year, month and day written in text of the shape `YYYY-MM-DD`.
pub open spec fn date_text_fields(s: Seq<char>) -> (int, int, int) {
    (100 * two_digits(s, 0) + two_digits(s, 2), two_digits(s, 5), two_digits(s, 8))
}

/// `YYYY-MM-DD` naming a day that exists.
pub open spec fn is_canonical_date(s: Seq<char>) -> bool {
    is_date_shape(s) && is_valid_date(date_text_fields(s).0, date_text_fields(s).1, date_text_fields(s).2)
}

/// Text of the shape `HH:MM`, each letter an ASCII digit.
pub open spec fn is_hm_shape(s: Seq<char>) -> bool {
    &&& s.len() == 5
    &&& is_digit(s[0]) && is_digit(s[1]) && is_digit(s[3]) && is_digit(s[4])
    &&& s[2] == ':'
}

/// Text of the shape `HH:MM:SS`, each letter an ASCII digit.
pub open spec fn is_hms_shape(s: Seq<char>) -> bool {
    &&& s.len() == 8
    &&& is_hm_shape(s.subrange(0, 5))
    &&& s[5] == ':'
    &&& is_digit(s[6]) && is_digit(s[7])
}

/// `HH:MM` naming a minute of the day.
pub open spec fn is_canonical_hm(s: Seq<char>) -> bool {
    is_hm_shape(s) && two_digits(s, 0) < 24 && two_digits(s, 3) < 60
}

/// `HH:MM:SS` naming a second of the day (leap seconds aside).
pub open spec fn is_canonical_hms(s: Seq<char>) -> bool {
    is_hms_shape(s) && two_digits(s, 0) < 24 && two_digits(s, 3) < 60 && two_digits(s, 6) < 60
}

pub open spec fn date_format() -> Seq<char> {
    "%Y-%m-%d"@
}

pub open spec fn time_format() -> Seq<char> {
    "%H:%M:%S"@
}

/// How many `:` characters `s` holds.
pub open spec fn colon_count(s: Seq<char>) -> nat
    decreases s.len(),
{
    if s.len() == 0 {
        0
    } else {
        colon_count(s.drop_last()) + if s.last() == ':' {
            1nat
        } else {
            0nat
        }
    }
}

/// A time written with exactly one colon gets `:00` seconds appended; any
/// other text is taken as it stands.
pub open spec fn normalized_time(s: Seq<char>) -> Seq<char> {
    if colon_count(s) == 1 {
        s + ":00"@
    } else {
        s
    }
}

pub open spec fn date_triple(v: (i32, u32, u32)) -> (int, int, int) {
    (v.0 as int, v.1 as int, v.2 as int)
}

pub open spec fn time_quad(v: (u32, u32, u32, u32)) -> (int, int, int, int) {
    (v.0 as int, v.1 as int, v.2 as int, v.3 as int)
}

/// The hour, minute, second and (zero) nanosecond written in `HH:MM:SS` text.
pub open spec fn hms_text_fields(s: Seq<char>) -> (int, int, int, int) {
    (two_digits(s, 0), two_digits(s, 3), two_digits(s, 6), 0)
}

/// Hour, minute and second of `HH:MM:SS` text within the ranges a clock
/// reading can take, a leap second included.
pub open spec fn hms_in_range(s: Seq<char>) -> bool {
    two_digits(s, 0) < 24 && two_digits(s, 3) < 60 && two_digits(s, 6) <= 60
}

/// What chrono's `NaiveDate::parse_from_str` reads from `s` under the format
/// `fmt`, as year, month and day.
pub uninterp spec fn date_from_text(s: Seq<char>, fmt: Seq<char>) -> Option<(int, int, int)>;

/// What chrono's `NaiveTime::parse_from_str` reads from `s` under the format
/// `fmt`, as hour, minute, second and nanosecond.
pub uninterp spec fn time_from_text(s: Seq<char>, fmt: Seq<char>) -> Option<(int, int, int, int)>;

/// Relies on chrono's `NaiveDate::parse_from_str`: it yields only days that
/// exist, and under `%Y-%m-%d` it reads text of the shape `YYYY-MM-DD` field
/// by field, accepting it exactly when the day exists.
#[verifier::external_body]
fn naive_date_parse(s: &str, fmt: &str) -> (r: Result<(i32, u32, u32), String>)
    ensures
        r is Ok <==> date_from_text(s@, fmt@) is Some,
        r matches Ok(v) ==> date_from_text(s@, fmt@) == Some(date_triple(v)),
        r matches Ok(v) ==> is_valid_date(v.0 as int, v.1 as int, v.2 as int),
        fmt@ == date_format() && is_date_shape(s@) ==> (r is Ok <==> is_canonical_date(s@)),
        fmt@ == date_format() && is_date_shape(s@) && r is Ok ==> date_triple(r->Ok_0) == date_text_fields(s@),
{
    match chrono::NaiveDate::parse_from_str(s, fmt) {
        Ok(d) => Ok((d.year(), d.month(), d.day())),
        Err(e) => Err(e.to_string()),
    }
}

/// Relies on chrono's `NaiveTime::parse_from_str`: it yields hours below 24,
/// minutes below 60, seconds below 60 (a leap second adds a billion
/// nanoseconds), and under `%H:%M:%S` it reads text of the shape `HH:MM:SS`
/// field by field, accepting it exactly when hour, minute and second are in
/// range (second 60 included).
#[verifier::external_body]
fn naive_time_parse(s: &str, fmt: &str) -> (r: Result<(u32, u32, u32, u32), String>)
    ensures
        r is Ok <==> time_from_text(s@, fmt@) is Some,
        r matches Ok(v) ==> time_from_text(s@, fmt@) == Some(time_quad(v)),
        r matches Ok(v) ==> v.0 < 24 && v.1 < 60 && v.2 < 60 && v.3 < 2_000_000_000,
        fmt@ == time_format() && is_hms_shape(s@) ==> (r is Ok <==> hms_in_range(s@)),
        fmt@ == time_format() && is_canonical_hms(s@) && r is Ok ==> time_quad(r->Ok_0) == hms_text_fields(s@),
{
    match chrono::NaiveTime::parse_from_str(s, fmt) {
        Ok(t) => Ok((t.hour(), t.minute(), t.second(), t.nanosecond())),
        Err(e) => Err(e.to_string()),
    }
}

/// Counts the `:` characters of `s`.
pub fn count_colons(s: &str) -> (n: usize)
    ensures
        n == colon_count(s@),
{
    let len = s.unicode_len();
    let mut n: usize = 0;
    let mut i: usize = 0;
    while i < len
        invariant
            len == s@.len(),
            i <= len,
            n <= i,
            n == colon_count(s@.subrange(0, i as int)),
        decreases len - i,
    {
        let c = s.get_char(i);
        assert(s@.subrange(0, i + 1).drop_last() =~= s@.subrange(0, i as int));
        if c == ':' {
            n = n + 1;
        }
        i = i + 1;
    }
    assert(s@.subrange(0, len as int) =~= s@);
    n
}

/// Brings a time written as `HH:MM` to `HH:MM:SS` by appending `:00`; a time
/// with any other number of colons is returned as it stands.
pub fn normalize_time(time_str: &str) -> (r: String)
    ensures
        r@ == normalized_time(time_str@),
{
    if count_colons(time_str) == 1 {
        String::from_str(time_str).concat(":00")
    } else {
        String::from_str(time_str)
    }
}

/// Combines the outcome of reading the date and the time into one timestamp.
/// A failed date is reported before a failed time.
pub fn datetime_from_parts(
    date: Result<(i32, u32, u32), String>,
    time: Result<(u32, u32, u32, u32), String>,
) -> (r: Result<UtcDateTime, CliError>)
    ensures
        match (date, time) {
            (Ok(d), Ok(t)) => r == Ok::<UtcDateTime, CliError>(
                UtcDateTime {
                    year: d.0,
                    month: d.1,
                    day: d.2,
                    hour: t.0,
                    minute: t.1,
                    second: t.2,
                    nanosecond: t.3,
                },
            ),
            (Err(e), _) => r matches Err(CliError::ParseError(m)) && m@ == "invalid date: "@ + e@,
            (Ok(_), Err(e)) => r matches Err(CliError::ParseError(m)) && m@ == "invalid time: "@
                + e@,
        },
{
    match date {
        Err(e) => Err(CliError::ParseError(String::from_str("invalid date: ").concat(e.as_str()))),
        Ok(d) => match time {
            Err(e) => Err(
                CliError::ParseError(String::from_str("invalid time: ").concat(e.as_str())),
            ),
            Ok(t) => Ok(
                UtcDateTime {
                    year: d.0,
                    month: d.1,
                    day: d.2,
                    hour: t.0,
                    minute: t.1,
                    second: t.2,
                    nanosecond: t.3,
                },
            ),
        },
    }
}

/// Reads a date written `YYYY-MM-DD` and a time written `HH:MM` or
/// `HH:MM:SS` as one UTC timestamp. The wall-clock fields are taken as UTC
/// directly.
pub fn parse_user_datetime(date_str: &str, time_str: &str) -> (r: Result<UtcDateTime, CliError>)
    ensures
        match r {
            Ok(dt) => date_from_text(date_str@, date_format()) == Some(dt.date_fields())
                && time_from_text(normalized_time(time_str@), time_format()) == Some(
                dt.time_fields(),
            ) && dt.wf(),
            Err(e) => e is ParseError && (date_from_text(date_str@, date_format()) is None
                || time_from_text(normalized_time(time_str@), time_format()) is None),
        },
        is_date_shape(date_str@) && !is_canonical_date(date_str@) ==> r is Err,
        is_hms_shape(normalized_time(time_str@)) && (two_digits(normalized_time(time_str@), 0)
            >= 24 || two_digits(normalized_time(time_str@), 3) >= 60) ==> r is Err,
        is_canonical_date(date_str@) && is_canonical_hm(time_str@) ==> (r matches Ok(dt)
            && dt.date_fields() == date_text_fields(date_str@) && dt.hour as int == two_digits(
            time_str@,
            0,
        ) && dt.minute as int == two_digits(time_str@, 3) && dt.second == 0 && dt.nanosecond
            == 0),
        is_canonical_date(date_str@) && is_canonical_hms(time_str@) ==> (r matches Ok(dt)
            && dt.date_fields() == date_text_fields(date_str@) && dt.hour as int == two_digits(
            time_str@,
            0,
        ) && dt.minute as int == two_digits(time_str@, 3) && dt.second as int == two_digits(
            time_str@,
            6,
        ) && dt.nanosecond == 0),
        is_canonical_date(date_str@) && is_canonical_hms(time_str@) ==> (r matches Ok(dt)
            && date_text(dt) == date_str@ && time_text(dt) == time_str@),
{
    let date = naive_date_parse(date_str, "%Y-%m-%d");
    let time_text = normalize_time(time_str);
    let time = naive_time_parse(time_text.as_str(), "%H:%M:%S");
    proof {
        lemma_hm_normalizes(time_str@);
        lemma_hms_kept(time_str@);
    }
    let r = datetime_from_parts(date, time);
    proof {
        if is_canonical_date(date_str@) && is_canonical_hms(time_str@) {
            lemma_datetime_text_round_trip(date_str@, time_str@, r->Ok_0);
        }
    }
    r
}

/// The ASCII digit for a number below ten.
pub open spec fn digit_char(n: int) -> char {
    "0123456789"@[n]
}

/// `n` written with exactly two digits.
pub open spec fn two_digit_text(n: int) -> Seq<char> {
    seq![digit_char(n / 10), digit_char(n % 10)]
}

/// A timestamp's day written as `YYYY-MM-DD`.
pub open spec fn date_text(dt: UtcDateTime) -> Seq<char> {
    two_digit_text(dt.year as int / 100) + two_digit_text(dt.year as int % 100) + seq!['-']
        + two_digit_text(dt.month as int) + seq!['-'] + two_digit_text(dt.day as int)
}

/// A timestamp's time of day written as `HH:MM:SS`.
pub open spec fn time_text(dt: UtcDateTime) -> Seq<char> {
    two_digit_text(dt.hour as int) + seq![':'] + two_digit_text(dt.minute as int) + seq![':']
        + two_digit_text(dt.second as int)
}

proof fn lemma_digit_round_trip(c: char)
    requires
        is_digit(c),
    ensures
        digit_char(digit_value(c)) == c,
{
    reveal_strlit("0123456789");
}

proof fn lemma_two_digit_round_trip(s: Seq<char>, i: int)
    requires
        0 <= i,
        i + 1 < s.len(),
        is_digit(s[i]),
        is_digit(s[i + 1]),
    ensures
        two_digit_text(two_digits(s, i)) =~= s.subrange(i, i + 2),
{
    lemma_digit_round_trip(s[i]);
    lemma_digit_round_trip(s[i + 1]);
    let n = two_digits(s, i);
    assert(n / 10 == digit_value(s[i]) && n % 10 == digit_value(s[i + 1])) by (nonlinear_arith)
        requires
            n == 10 * digit_value(s[i]) + digit_value(s[i + 1]),
            0 <= digit_value(s[i]) < 10,
            0 <= digit_value(s[i + 1]) < 10,
    ;
}

/// Writing a timestamp read from `YYYY-MM-DD` and `HH:MM:SS` text back in
/// the same patterns gives that text again.
pub proof fn lemma_datetime_text_round_trip(date: Seq<char>, time: Seq<char>, dt: UtcDateTime)
    requires
        is_canonical_date(date),
        is_canonical_hms(time),
        dt.date_fields() == date_text_fields(date),
        dt.hour as int == two_digits(time, 0),
        dt.minute as int == two_digits(time, 3),
        dt.second as int == two_digits(time, 6),
    ensures
        date_text(dt) == date,
        time_text(dt) == time,
{
    let y = dt.year as int;
    let hi = two_digits(date, 0);
    let lo = two_digits(date, 2);
    assert(0 <= lo < 100 && 0 <= hi < 100);
    assert(y / 100 == hi && y % 100 == lo) by (nonlinear_arith)
        requires
            y == 100 * hi + lo,
            0 <= lo < 100,
    ;
    lemma_two_digit_round_trip(date, 0);
    lemma_two_digit_round_trip(date, 2);
    lemma_two_digit_round_trip(date, 5);
    lemma_two_digit_round_trip(date, 8);
    assert(date_text(dt) =~= date);
    lemma_two_digit_round_trip(time, 0);
    lemma_two_digit_round_trip(time, 3);
    lemma_two_digit_round_trip(time, 6);
    assert(time_text(dt) =~= time);
}

/// A time written `HH:MM` is read as the same time written `HH:MM:00`: both
/// reach the time parser as the same text.
pub proof fn lemma_minutes_only_time(time: Seq<char>)
    requires
        colon_count(time) == 1,
    ensures
        normalized_time(time) == time + ":00"@,
        normalized_time(time + ":00"@) == normalized_time(time),
{
    reveal_strlit(":00");
    lemma_colon_count_concat(time, ":00"@);
    reveal_with_fuel(colon_count, 4);
    let z = ":00"@;
    assert(z.drop_last().drop_last().drop_last() =~= Seq::<char>::empty());
    assert(!is_digit(':'));
}

/// A time written with any number of colons other than one is read as it
/// stands.
pub proof fn lemma_other_time_kept(time: Seq<char>)
    requires
        colon_count(time) != 1,
    ensures
        normalized_time(time) == time,
{
}

proof fn lemma_colon_count_concat(a: Seq<char>, b: Seq<char>)
    ensures
        colon_count(a + b) == colon_count(a) + colon_count(b),
    decreases b.len(),
{
    if b.len() == 0 {
        assert(a + b =~= a);
    } else {
        lemma_colon_count_concat(a, b.drop_last());
        assert((a + b).drop_last() =~= a + b.drop_last());
    }
}

proof fn lemma_colon_count_hm(s: Seq<char>)
    requires
        is_hm_shape(s),
    ensures
        colon_count(s) == 1,
{
    reveal_with_fuel(colon_count, 6);
    assert(s.drop_last().drop_last().drop_last().drop_last().drop_last() =~= Seq::<char>::empty());
}

/// `HH:MM` text becomes `HH:MM:00`.
proof fn lemma_hm_normalizes(s: Seq<char>)
    ensures
        is_hm_shape(s) ==> is_hms_shape(normalized_time(s)) && normalized_time(s)
            =~= s + ":00"@ && two_digits(normalized_time(s), 0) == two_digits(s, 0)
            && two_digits(normalized_time(s), 3) == two_digits(s, 3) && two_digits(
            normalized_time(s),
            6,
        ) == 0,
{
    if is_hm_shape(s) {
        lemma_colon_count_hm(s);
        reveal_strlit(":00");
        let t = s + ":00"@;
        assert(t.subrange(0, 5) =~= s);
    }
}

/// `HH:MM:SS` text is taken as it stands.
proof fn lemma_hms_kept(s: Seq<char>)
    ensures
        is_hms_shape(s) ==> normalized_time(s) == s,
{
    if is_hms_shape(s) {
        let h = s.subrange(0, 5);
        let rest = s.subrange(5, 8);
        assert(s =~= h + rest);
        lemma_colon_count_hm(h);
        lemma_colon_count_concat(h, rest);
        reveal_with_fuel(colon_count, 4);
        assert(rest.drop_last().drop_last().drop_last() =~= Seq::<char>::empty());
        assert(rest[0] == ':');
        assert(!is_digit(':'));
    }
}

} // verus!
