//! Calendar timestamps as plain field values, with the fixed
//! `YYYY-MM-DDTHH:MM` text form used by the post editor: a verified
//! parser, a verified formatter, and a chronological order.

use chrono::Datelike;
use chrono::Timelike;
use vstd::prelude::*;
use vstd::string::*;

verus! {

/// A timezone-naive calendar point in time (understood as UTC),
/// held as plain field values.
#[derive(Clone, Copy, PartialEq, Eq, Structural, Debug)]
pub struct Timestamp {
    pub year: u16,
    pub month: u8,
    pub day: u8,
    pub hour: u8,
    pub minute: u8,
}

/// Gregorian leap-year rule.
pub open spec fn leap_year(y: int) -> bool {
    y % 4 == 0 && (y % 100 != 0 || y % 400 == 0)
}

/// Number of days of month `m` of year `y`, for `1 <= m <= 12`.
pub open spec fn spec_days_in_month(y: int, m: int) -> int {
    if m == 2 {
        if leap_year(y) {
            29
        } else {
            28
        }
    } else if m == 4 || m == 6 || m == 9 || m == 11 {
        30
    } else {
        31
    }
}

/// Chronological order on timestamps: lexicographic over
/// (year, month, day, hour, minute).
pub open spec fn ts_le(a: Timestamp, b: Timestamp) -> bool {
    if a.year != b.year {
        a.year < b.year
    } else if a.month != b.month {
        a.month < b.month
    } else if a.day != b.day {
        a.day < b.day
    } else if a.hour != b.hour {
        a.hour < b.hour
    } else {
        a.minute <= b.minute
    }
}

impl Timestamp {
    /// The timestamp names a real calendar date and a time of day,
    /// within the four-digit-year range of the text form.
    pub open spec fn valid(self) -> bool {
        &&& self.year <= 9999
        &&& 1 <= self.month <= 12
        &&& 1 <= self.day <= spec_days_in_month(self.year as int, self.month as int)
        &&& self.hour <= 23
        &&& self.minute <= 59
    }

    /// Builds a timestamp from its parts; rejects anything that does
    /// not name a real calendar date and time.
    pub fn try_new(year: u16, month: u8, day: u8, hour: u8, minute: u8) -> (r: Option<Timestamp>)
        ensures
            ({
                let t = Timestamp { year, month, day, hour, minute };
                if t.valid() {
                    r == Some(t)
                } else {
                    r is None
                }
            }),
    {
        let t = Timestamp { year, month, day, hour, minute };
        if year <= 9999 && 1 <= month && month <= 12 && 1 <= day && day <= days_in_month(
            year,
            month,
        ) && hour <= 23 && minute <= 59 {
            Some(t)
        } else {
            None
        }
    }

    /// Chronological comparison.
    pub fn le(&self, other: &Timestamp) -> (r: bool)
        ensures
            r == ts_le(*self, *other),
    {
        if self.year != other.year {
            self.year < other.year
        } else if self.month != other.month {
            self.month < other.month
        } else if self.day != other.day {
            self.day < other.day
        } else if self.hour != other.hour {
            self.hour < other.hour
        } else {
            self.minute <= other.minute
        }
    }
}

/// The chronological order is total: any two timestamps compare.
pub proof fn lemma_ts_le_total(a: Timestamp, b: Timestamp)
    ensures
        ts_le(a, b) || ts_le(b, a),
{
}

/// Relies on chrono's Utc::now and the Datelike/Timelike accessors
/// year, month, day, hour and minute: the month is within 1..=12, the
/// hour within 0..=23, the minute within 0..=59, as their
/// documentation states, and the day is the day of a real calendar
/// date — a chrono date holds only valid Gregorian dates, so the day
/// never exceeds that month's length. What the clock reads is nobody's
/// promise, so nothing is assumed of the year. The call panics when
/// the system clock reads before the Unix epoch — an environmental
/// condition no argument can exclude.
#[verifier::external_body]
fn now_parts() -> (r: (i32, u32, u32, u32, u32))
    ensures
        1 <= r.1 <= 12,
        1 <= r.2 as int <= spec_days_in_month(r.0 as int, r.1 as int),
        r.3 <= 23,
        r.4 <= 59,
{
    let t = chrono::Utc::now();
    (t.year(), t.month(), t.day(), t.hour(), t.minute())
}

/// Reads the clock, as a calendar timestamp. `None` when the clock
/// reads a moment that is no valid timestamp of the editor's
/// four-digit-year text form.
pub fn now_timestamp() -> (r: Option<Timestamp>)
    ensures
        r matches Some(t) ==> t.valid(),
{
    let (y, mo, d, h, mi) = now_parts();
    if 0 <= y && y <= 9999 {
        Timestamp::try_new(y as u16, mo as u8, d as u8, h as u8, mi as u8)
    } else {
        None
    }
}

/// `c` is an ASCII decimal digit.
pub open spec fn is_digit(c: char) -> bool {
    48 <= c as int <= 57
}

/// Numeric value of an ASCII decimal digit.
pub open spec fn digit_val(c: char) -> int {
    c as int - 48
}

/// The ASCII digit character for a value in `0 ..= 9`.
pub open spec fn digit_char(d: int) -> char {
    if d == 0 {
        '0'
    } else if d == 1 {
        '1'
    } else if d == 2 {
        '2'
    } else if d == 3 {
        '3'
    } else if d == 4 {
        '4'
    } else if d == 5 {
        '5'
    } else if d == 6 {
        '6'
    } else if d == 7 {
        '7'
    } else if d == 8 {
        '8'
    } else {
        '9'
    }
}

/// The text matches the shape `YYYY-MM-DDTHH:MM`.
pub open spec fn dt_str_well_formed(s: Seq<char>) -> bool {
    &&& s.len() == 16
    &&& is_digit(s[0]) && is_digit(s[1]) && is_digit(s[2]) && is_digit(s[3])
    &&& s[4] == '-'
    &&& is_digit(s[5]) && is_digit(s[6])
    &&& s[7] == '-'
    &&& is_digit(s[8]) && is_digit(s[9])
    &&& s[10] == 'T'
    &&& is_digit(s[11]) && is_digit(s[12])
    &&& s[13] == ':'
    &&& is_digit(s[14]) && is_digit(s[15])
}

/// The field values spelled by a well-formed `YYYY-MM-DDTHH:MM` text.
pub open spec fn dt_str_fields(s: Seq<char>) -> Timestamp {
    Timestamp {
        year: (1000 * digit_val(s[0]) + 100 * digit_val(s[1]) + 10 * digit_val(s[2]) + digit_val(
            s[3],
        )) as u16,
        month: (10 * digit_val(s[5]) + digit_val(s[6])) as u8,
        day: (10 * digit_val(s[8]) + digit_val(s[9])) as u8,
        hour: (10 * digit_val(s[11]) + digit_val(s[12])) as u8,
        minute: (10 * digit_val(s[14]) + digit_val(s[15])) as u8,
    }
}

/// What parsing a timestamp text yields: the spelled timestamp when the
/// text has the fixed shape and names a real date and time, else nothing.
pub open spec fn spec_parse_dt(s: Seq<char>) -> Option<Timestamp> {
    if dt_str_well_formed(s) && dt_str_fields(s).valid() {
        Some(dt_str_fields(s))
    } else {
        None
    }
}

/// The `YYYY-MM-DDTHH:MM` spelling of a timestamp.
pub open spec fn spec_format_dt(t: Timestamp) -> Seq<char> {
    seq![
        digit_char(t.year as int / 1000 % 10),
        digit_char(t.year as int / 100 % 10),
        digit_char(t.year as int / 10 % 10),
        digit_char(t.year as int % 10),
        '-',
        digit_char(t.month as int / 10),
        digit_char(t.month as int % 10),
        '-',
        digit_char(t.day as int / 10),
        digit_char(t.day as int % 10),
        'T',
        digit_char(t.hour as int / 10),
        digit_char(t.hour as int % 10),
        ':',
        digit_char(t.minute as int / 10),
        digit_char(t.minute as int % 10),
    ]
}

/// Reads the digit at position `i` of `s`, or reports that none stands there.
fn read_digit(s: &str, i: usize) -> (r: Option<u8>)
    requires
        i < s@.len(),
    ensures
        match r {
            Some(d) => is_digit(s@[i as int]) && d == digit_val(s@[i as int]),
            None => !is_digit(s@[i as int]),
        },
{
    let c = s.get_char(i);
    let v = c as u32;
    if 48 <= v && v <= 57 {
        Some((v - 48) as u8)
    } else {
        None
    }
}

/// The character at position `i` of `s` is exactly `c`.
fn char_at_is(s: &str, i: usize, c: char) -> (r: bool)
    requires
        i < s@.len(),
    ensures
        r == (s@[i as int] == c),
{
    s.get_char(i) == c
}

/// Parses the editor's fixed `YYYY-MM-DDTHH:MM` form. Returns the
/// spelled timestamp exactly when the text is well formed and names a
/// real calendar date and time.
pub fn parse_dt(s: &str) -> (r: Option<Timestamp>)
    ensures
        r == spec_parse_dt(s@),
{
    if s.unicode_len() != 16 {
        return None;
    }
    if !(char_at_is(s, 4, '-') && char_at_is(s, 7, '-') && char_at_is(s, 10, 'T') && char_at_is(
        s,
        13,
        ':',
    )) {
        return None;
    }
    let y0 = read_digit(s, 0);
    let y1 = read_digit(s, 1);
    let y2 = read_digit(s, 2);
    let y3 = read_digit(s, 3);
    let mo0 = read_digit(s, 5);
    let mo1 = read_digit(s, 6);
    let d0 = read_digit(s, 8);
    let d1 = read_digit(s, 9);
    let h0 = read_digit(s, 11);
    let h1 = read_digit(s, 12);
    let mi0 = read_digit(s, 14);
    let mi1 = read_digit(s, 15);
    match (y0, y1, y2, y3, mo0, mo1, d0, d1, h0, h1, mi0, mi1) {
        (
            Some(y0),
            Some(y1),
            Some(y2),
            Some(y3),
            Some(mo0),
            Some(mo1),
            Some(d0),
            Some(d1),
            Some(h0),
            Some(h1),
            Some(mi0),
            Some(mi1),
        ) => {
            let year: u16 = 1000 * (y0 as u16) + 100 * (y1 as u16) + 10 * (y2 as u16) + (y3 as u16);
            let month: u8 = 10 * mo0 + mo1;
            let day: u8 = 10 * d0 + d1;
            let hour: u8 = 10 * h0 + h1;
            let minute: u8 = 10 * mi0 + mi1;
            Timestamp::try_new(year, month, day, hour, minute)
        },
        _ => None,
    }
}

/// The single-character text for a digit value.
fn digit_str(d: u8) -> (r: &'static str)
    requires
        d < 10,
    ensures
        r@ =~= seq![digit_char(d as int)],
{
    proof {
        reveal_strlit("0");
        reveal_strlit("1");
        reveal_strlit("2");
        reveal_strlit("3");
        reveal_strlit("4");
        reveal_strlit("5");
        reveal_strlit("6");
        reveal_strlit("7");
        reveal_strlit("8");
        reveal_strlit("9");
    }
    match d {
        0 => "0",
        1 => "1",
        2 => "2",
        3 => "3",
        4 => "4",
        5 => "5",
        6 => "6",
        7 => "7",
        8 => "8",
        _ => "9",
    }
}

/// Appends the two-digit spelling of `v` to `out`.
fn append_two_digits(out: &mut String, v: u8)
    requires
        v < 100,
    ensures
        final(out)@ == old(out)@ + seq![digit_char(v as int / 10), digit_char(v as int % 10)],
{
    out.append(digit_str(v / 10));
    out.append(digit_str(v % 10));
    proof {
        assert(out@ =~= old(out)@ + seq![digit_char(v as int / 10), digit_char(v as int % 10)]);
    }
}

/// Spells a timestamp in the editor's fixed `YYYY-MM-DDTHH:MM` form.
pub fn format_dt(t: &Timestamp) -> (r: String)
    requires
        t.valid(),
    ensures
        r@ == spec_format_dt(*t),
{
    proof {
        reveal_strlit("-");
        reveal_strlit("T");
        reveal_strlit(":");
    }
    let mut out = String::new();
    let y = t.year;
    out.append(digit_str(((y / 1000) % 10) as u8));
    out.append(digit_str(((y / 100) % 10) as u8));
    out.append(digit_str(((y / 10) % 10) as u8));
    out.append(digit_str((y % 10) as u8));
    out.append("-");
    append_two_digits(&mut out, t.month);
    out.append("-");
    append_two_digits(&mut out, t.day);
    out.append("T");
    append_two_digits(&mut out, t.hour);
    out.append(":");
    append_two_digits(&mut out, t.minute);
    proof {
        assert(out@ =~= spec_format_dt(*t));
    }
    out
}

/// Law: formatting a valid timestamp and parsing the text back yields
/// the same timestamp.
pub proof fn lemma_format_parse_round_trip(t: Timestamp)
    requires
        t.valid(),
    ensures
        spec_parse_dt(spec_format_dt(t)) == Some(t),
{
    let s = spec_format_dt(t);
    assert(dt_str_well_formed(s));
    let y = t.year as int;
    assert(y / 1000 % 10 == y / 1000);
    assert(1000 * (y / 1000) + (100 * (y / 100 % 10) + (10 * (y / 10 % 10) + y % 10)) == y) by {
        assert(y % 1000 == 100 * (y / 100 % 10) + (10 * (y / 10 % 10) + y % 10)) by {
            assert(y % 1000 / 100 == y / 100 % 10) by (nonlinear_arith);
            assert(y % 1000 % 100 == y % 100) by (nonlinear_arith);
            assert(y % 100 / 10 == y / 10 % 10) by (nonlinear_arith);
            assert(y % 100 % 10 == y % 10) by (nonlinear_arith);
            assert(y % 1000 == 100 * (y % 1000 / 100) + y % 1000 % 100) by (nonlinear_arith);
            assert(y % 100 == 10 * (y % 100 / 10) + y % 100 % 10) by (nonlinear_arith);
        }
        assert(y == 1000 * (y / 1000) + y % 1000) by (nonlinear_arith);
    }
    assert(dt_str_fields(s).year == t.year);
    assert(10 * (t.month as int / 10) + t.month as int % 10 == t.month as int);
    assert(dt_str_fields(s).month == t.month);
    assert(10 * (t.day as int / 10) + t.day as int % 10 == t.day as int);
    assert(dt_str_fields(s).day == t.day);
    assert(10 * (t.hour as int / 10) + t.hour as int % 10 == t.hour as int);
    assert(dt_str_fields(s).hour == t.hour);
    assert(10 * (t.minute as int / 10) + t.minute as int % 10 == t.minute as int);
    assert(dt_str_fields(s).minute == t.minute);
    assert(dt_str_fields(s) == t);
}

/// Number of days of the given month.
pub fn days_in_month(year: u16, month: u8) -> (r: u8)
    requires
        1 <= month <= 12,
    ensures
        r as int == spec_days_in_month(year as int, month as int),
{
    if month == 2 {
        if year % 4 == 0 && (year % 100 != 0 || year % 400 == 0) {
            29
        } else {
            28
        }
    } else if month == 4 || month == 6 || month == 9 || month == 11 {
        30
    } else {
        31
    }
}

} // verus!
