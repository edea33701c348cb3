use vstd::prelude::*;
use vstd::string::StringExecFns;

use crate::errors::Errors;

verus! {

/// A naive (offset-free) date-time with second precision, the in-memory
/// form of the API's fixed-pattern `YYYY-MM-DDTHH:MM:SSZ` timestamps.
#[derive(Clone, Copy, Debug, PartialEq, Eq, Structural)]
pub struct DateTime {
    pub year: u16,
    pub month: u8,
    pub day: u8,
    pub hour: u8,
    pub minute: u8,
    pub second: u8,
}

/// Gregorian leap-year rule.
pub open spec fn spec_is_leap_year(year: int) -> bool {
    year % 4 == 0 && (year % 100 != 0 || year % 400 == 0)
}

/// Number of days in the given month of the given year.
pub open spec fn spec_days_in_month(year: int, month: int) -> int {
    if month == 2 {
        if spec_is_leap_year(year) {
            29
        } else {
            28
        }
    } else if month == 4 || month == 6 || month == 9 || month == 11 {
        30
    } else {
        31
    }
}

/// A `DateTime` is well formed when it denotes a real calendar date
/// (with a four-digit year) and a real time of day.
pub open spec fn dt_valid(dt: DateTime) -> bool {
    &&& dt.year <= 9999
    &&& 1 <= dt.month <= 12
    &&& 1 <= dt.day <= spec_days_in_month(dt.year as int, dt.month as int)
    &&& dt.hour <= 23
    &&& dt.minute <= 59
    &&& dt.second <= 59
}

/// `c` is an ASCII decimal digit.
pub open spec fn is_digit(c: char) -> bool {
    48 <= c as int <= 57
}

/// Numeric value of an ASCII decimal digit.
pub open spec fn digit_val(c: char) -> int {
    c as int - 48
}

/// The ASCII character for a decimal digit value.
pub open spec fn digit_char(d: int) -> char {
    if d == 0 {
        '0'
    } else if d == 1 {
        '1'
    } else if d == 2 {
        '2'
    } else if d == 3 {
        '3'
    } else if d == 4 {
        '4'
    } else if d == 5 {
        '5'
    } else if d == 6 {
        '6'
    } else if d == 7 {
        '7'
    } else if d == 8 {
        '8'
    } else {
        '9'
    }
}

/// Value of the two digits of `s` starting at `i`.
pub open spec fn two_val(s: Seq<char>, i: int) -> int {
    10 * digit_val(s[i]) + digit_val(s[i + 1])
}

/// Value of the four digits of `s` starting at `i`.
pub open spec fn four_val(s: Seq<char>, i: int) -> int {
    1000 * digit_val(s[i]) + 100 * digit_val(s[i + 1]) + 10 * digit_val(s[i + 2]) + digit_val(
        s[i + 3],
    )
}

/// `s` has the shape `YYYY-MM-DDTHH:MM:SSZ`: 20 characters, digits and
/// the fixed separators in the fixed places.
pub open spec fn timestamp_chars_ok(s: Seq<char>) -> bool {
    &&& s.len() == 20
    &&& is_digit(s[0]) && is_digit(s[1]) && is_digit(s[2]) && is_digit(s[3])
    &&& s[4] == '-'
    &&& is_digit(s[5]) && is_digit(s[6])
    &&& s[7] == '-'
    &&& is_digit(s[8]) && is_digit(s[9])
    &&& s[10] == 'T'
    &&& is_digit(s[11]) && is_digit(s[12])
    &&& s[13] == ':'
    &&& is_digit(s[14]) && is_digit(s[15])
    &&& s[16] == ':'
    &&& is_digit(s[17]) && is_digit(s[18])
    &&& s[19] == 'Z'
}

/// The `DateTime` denoted by a string of the right shape.
pub open spec fn parsed_date_time(s: Seq<char>) -> DateTime {
    DateTime {
        year: four_val(s, 0) as u16,
        month: two_val(s, 5) as u8,
        day: two_val(s, 8) as u8,
        hour: two_val(s, 11) as u8,
        minute: two_val(s, 14) as u8,
        second: two_val(s, 17) as u8,
    }
}

/// `s` is a timestamp the converter accepts: right shape, and the
/// fields denote a real calendar date and time of day.
pub open spec fn valid_timestamp(s: Seq<char>) -> bool {
    timestamp_chars_ok(s) && dt_valid(parsed_date_time(s))
}

/// The fixed-pattern rendering of a date-time, `YYYY-MM-DDTHH:MM:SSZ`,
/// every numeric field zero-padded to its width.
pub open spec fn two_digits(n: int) -> Seq<char> {
    seq![digit_char(n / 10), digit_char(n % 10)]
}

pub open spec fn four_digits(n: int) -> Seq<char> {
    seq![
        digit_char(n / 1000),
        digit_char((n / 100) % 10),
        digit_char((n / 10) % 10),
        digit_char(n % 10),
    ]
}

pub open spec fn format_chars(dt: DateTime) -> Seq<char> {
    four_digits(dt.year as int) + seq!['-'] + two_digits(dt.month as int) + seq!['-'] + two_digits(
        dt.day as int,
    ) + seq!['T'] + two_digits(dt.hour as int) + seq![':'] + two_digits(dt.minute as int)
        + seq![':'] + two_digits(dt.second as int) + seq!['Z']
}

pub fn is_leap_year(year: u16) -> (r: bool)
    ensures
        r == spec_is_leap_year(year as int),
{
    year % 4 == 0 && (year % 100 != 0 || year % 400 == 0)
}

pub fn days_in_month(year: u16, month: u8) -> (r: u8)
    requires
        1 <= month <= 12,
    ensures
        r as int == spec_days_in_month(year as int, month as int),
{
    if month == 2 {
        if is_leap_year(year) {
            29
        } else {
            28
        }
    } else if month == 4 || month == 6 || month == 9 || month == 11 {
        30
    } else {
        31
    }
}

fn read_digit(s: &str, i: usize) -> (r: Option<u8>)
    requires
        i < s@.len(),
    ensures
        r matches Some(d) ==> is_digit(s@[i as int]) && d as int == digit_val(s@[i as int]),
        r is None ==> !is_digit(s@[i as int]),
{
    let c = s.get_char(i);
    let u = c as u32;
    if 48 <= u && u <= 57 {
        Some((u - 48) as u8)
    } else {
        None
    }
}

fn read_two(s: &str, i: usize) -> (r: Option<u8>)
    requires
        s@.len() == 20,
        i + 2 <= 20,
    ensures
        r matches Some(v) ==> is_digit(s@[i as int]) && is_digit(s@[i + 1]) && v as int == two_val(
            s@,
            i as int,
        ),
        r is None ==> !(is_digit(s@[i as int]) && is_digit(s@[i + 1])),
{
    let d0 = match read_digit(s, i) {
        Some(d) => d,
        None => { return None },
    };
    let d1 = match read_digit(s, i + 1) {
        Some(d) => d,
        None => { return None },
    };
    Some(10 * d0 + d1)
}

fn read_four(s: &str, i: usize) -> (r: Option<u16>)
    requires
        s@.len() == 20,
        i + 4 <= 20,
    ensures
        r matches Some(v) ==> is_digit(s@[i as int]) && is_digit(s@[i + 1]) && is_digit(
            s@[i + 2],
        ) && is_digit(s@[i + 3]) && v as int == four_val(s@, i as int),
        r is None ==> !(is_digit(s@[i as int]) && is_digit(s@[i + 1]) && is_digit(s@[i + 2])
            && is_digit(s@[i + 3])),
{
    let d0 = match read_digit(s, i) {
        Some(d) => d,
        None => { return None },
    };
    let d1 = match read_digit(s, i + 1) {
        Some(d) => d,
        None => { return None },
    };
    let d2 = match read_digit(s, i + 2) {
        Some(d) => d,
        None => { return None },
    };
    let d3 = match read_digit(s, i + 3) {
        Some(d) => d,
        None => { return None },
    };
    Some(1000 * (d0 as u16) + 100 * (d1 as u16) + 10 * (d2 as u16) + (d3 as u16))
}

/// Parses a timestamp in the platform's fixed pattern
/// `YYYY-MM-DDTHH:MM:SSZ` into a `DateTime`, rejecting anything else
/// with the format-failure kind. No timezone conversion is performed.
pub fn github_time_parse(timestring: &str) -> (r: Result<DateTime, Errors>)
    ensures
        valid_timestamp(timestring@) ==> r == Ok::<DateTime, Errors>(
            parsed_date_time(timestring@),
        ),
        !valid_timestamp(timestring@) ==> r == Err::<DateTime, Errors>(Errors::ParseError),
        r matches Ok(dt) ==> dt_valid(dt),
{
    if timestring.unicode_len() != 20 {
        return Err(Errors::ParseError);
    }
    if timestring.get_char(4) != '-' || timestring.get_char(7) != '-' || timestring.get_char(10)
        != 'T' || timestring.get_char(13) != ':' || timestring.get_char(16) != ':'
        || timestring.get_char(19) != 'Z' {
        return Err(Errors::ParseError);
    }
    let year = match read_four(timestring, 0) {
        Some(v) => v,
        None => { return Err(Errors::ParseError) },
    };
    let month = match read_two(timestring, 5) {
        Some(v) => v,
        None => { return Err(Errors::ParseError) },
    };
    let day = match read_two(timestring, 8) {
        Some(v) => v,
        None => { return Err(Errors::ParseError) },
    };
    let hour = match read_two(timestring, 11) {
        Some(v) => v,
        None => { return Err(Errors::ParseError) },
    };
    let minute = match read_two(timestring, 14) {
        Some(v) => v,
        None => { return Err(Errors::ParseError) },
    };
    let second = match read_two(timestring, 17) {
        Some(v) => v,
        None => { return Err(Errors::ParseError) },
    };
    if month < 1 || month > 12 {
        return Err(Errors::ParseError);
    }
    if day < 1 || day > days_in_month(year, month) {
        return Err(Errors::ParseError);
    }
    if hour > 23 || minute > 59 || second > 59 {
        return Err(Errors::ParseError);
    }
    Ok(DateTime { year, month, day, hour, minute, second })
}

pub(crate) fn digit_str(d: u8) -> (r: &'static str)
    requires
        d <= 9,
    ensures
        r@ == seq![digit_char(d as int)],
{
    match d {
        0 => {
            proof {
                reveal_strlit("0");
                assert(("0")@ =~= seq![digit_char(0)]);
            }
            "0"
        },
        1 => {
            proof {
                reveal_strlit("1");
                assert(("1")@ =~= seq![digit_char(1)]);
            }
            "1"
        },
        2 => {
            proof {
                reveal_strlit("2");
                assert(("2")@ =~= seq![digit_char(2)]);
            }
            "2"
        },
        3 => {
            proof {
                reveal_strlit("3");
                assert(("3")@ =~= seq![digit_char(3)]);
            }
            "3"
        },
        4 => {
            proof {
                reveal_strlit("4");
                assert(("4")@ =~= seq![digit_char(4)]);
            }
            "4"
        },
        5 => {
            proof {
                reveal_strlit("5");
                assert(("5")@ =~= seq![digit_char(5)]);
            }
            "5"
        },
        6 => {
            proof {
                reveal_strlit("6");
                assert(("6")@ =~= seq![digit_char(6)]);
            }
            "6"
        },
        7 => {
            proof {
                reveal_strlit("7");
                assert(("7")@ =~= seq![digit_char(7)]);
            }
            "7"
        },
        8 => {
            proof {
                reveal_strlit("8");
                assert(("8")@ =~= seq![digit_char(8)]);
            }
            "8"
        },
        _ => {
            proof {
                reveal_strlit("9");
                assert(("9")@ =~= seq![digit_char(9)]);
            }
            "9"
        },
    }
}

fn push_two_digits(s: &mut String, n: u8)
    requires
        n <= 99,
    ensures
        final(s)@ == old(s)@ + two_digits(n as int),
{
    s.append(digit_str(n / 10));
    s.append(digit_str(n % 10));
    proof {
        assert(s@ =~= old(s)@ + two_digits(n as int));
    }
}

fn push_four_digits(s: &mut String, n: u16)
    requires
        n <= 9999,
    ensures
        final(s)@ == old(s)@ + four_digits(n as int),
{
    s.append(digit_str((n / 1000) as u8));
    s.append(digit_str(((n / 100) % 10) as u8));
    s.append(digit_str(((n / 10) % 10) as u8));
    s.append(digit_str((n % 10) as u8));
    proof {
        assert(s@ =~= old(s)@ + four_digits(n as int));
    }
}

/// Renders a `DateTime` in the platform's fixed pattern
/// `YYYY-MM-DDTHH:MM:SSZ`, every field zero-padded to its width.
pub fn time_to_string(time: DateTime) -> (r: String)
    requires
        dt_valid(time),
    ensures
        r@ == format_chars(time),
{
    let mut r = String::new();
    push_four_digits(&mut r, time.year);
    r.append("-");
    push_two_digits(&mut r, time.month);
    r.append("-");
    push_two_digits(&mut r, time.day);
    r.append("T");
    push_two_digits(&mut r, time.hour);
    r.append(":");
    push_two_digits(&mut r, time.minute);
    r.append(":");
    push_two_digits(&mut r, time.second);
    r.append("Z");
    proof {
        reveal_strlit("-");
        reveal_strlit("T");
        reveal_strlit(":");
        reveal_strlit("Z");
        assert(("-")@ =~= seq!['-']);
        assert(("T")@ =~= seq!['T']);
        assert((":")@ =~= seq![':']);
        assert(("Z")@ =~= seq!['Z']);
        assert(r@ =~= format_chars(time));
    }
    r
}

proof fn lemma_digit_char_val(c: char)
    requires
        is_digit(c),
    ensures
        digit_char(digit_val(c)) == c,
        0 <= digit_val(c) <= 9,
{
}

proof fn lemma_digit_val_char(d: int)
    requires
        0 <= d <= 9,
    ensures
        is_digit(digit_char(d)),
        digit_val(digit_char(d)) == d,
{
}

proof fn lemma_two_decompose(a: int, b: int)
    requires
        0 <= a <= 9,
        0 <= b <= 9,
    ensures
        (10 * a + b) / 10 == a,
        (10 * a + b) % 10 == b,
{
    assert((10 * a + b) / 10 == a && (10 * a + b) % 10 == b) by (nonlinear_arith)
        requires
            0 <= a <= 9,
            0 <= b <= 9,
    ;
}

proof fn lemma_four_decompose(a: int, b: int, c: int, d: int)
    requires
        0 <= a <= 9,
        0 <= b <= 9,
        0 <= c <= 9,
        0 <= d <= 9,
    ensures
        (1000 * a + 100 * b + 10 * c + d) / 1000 == a,
        ((1000 * a + 100 * b + 10 * c + d) / 100) % 10 == b,
        ((1000 * a + 100 * b + 10 * c + d) / 10) % 10 == c,
        (1000 * a + 100 * b + 10 * c + d) % 10 == d,
{
    let v = 1000 * a + 100 * b + 10 * c + d;
    assert(v / 1000 == a) by (nonlinear_arith)
        requires
            0 <= a <= 9,
            0 <= b <= 9,
            0 <= c <= 9,
            0 <= d <= 9,
            v == 1000 * a + 100 * b + 10 * c + d,
    ;
    assert(v / 100 == 10 * a + b) by (nonlinear_arith)
        requires
            0 <= a <= 9,
            0 <= b <= 9,
            0 <= c <= 9,
            0 <= d <= 9,
            v == 1000 * a + 100 * b + 10 * c + d,
    ;
    assert((10 * a + b) % 10 == b) by (nonlinear_arith)
        requires
            0 <= a <= 9,
            0 <= b <= 9,
    ;
    assert(v / 10 == 100 * a + 10 * b + c) by (nonlinear_arith)
        requires
            0 <= a <= 9,
            0 <= b <= 9,
            0 <= c <= 9,
            0 <= d <= 9,
            v == 1000 * a + 100 * b + 10 * c + d,
    ;
    assert((100 * a + 10 * b + c) % 10 == c) by (nonlinear_arith)
        requires
            0 <= a <= 9,
            0 <= b <= 9,
            0 <= c <= 9,
    ;
    assert(v % 10 == d) by (nonlinear_arith)
        requires
            0 <= a <= 9,
            0 <= b <= 9,
            0 <= c <= 9,
            0 <= d <= 9,
            v == 1000 * a + 100 * b + 10 * c + d,
    ;
}

proof fn lemma_two_digits_of_val(s: Seq<char>, i: int)
    requires
        0 <= i,
        i + 2 <= s.len(),
        is_digit(s[i]),
        is_digit(s[i + 1]),
    ensures
        0 <= two_val(s, i) <= 99,
        two_digits(two_val(s, i)) == s.subrange(i, i + 2),
{
    lemma_digit_char_val(s[i]);
    lemma_digit_char_val(s[i + 1]);
    lemma_two_decompose(digit_val(s[i]), digit_val(s[i + 1]));
    assert(two_digits(two_val(s, i)) =~= s.subrange(i, i + 2));
}

proof fn lemma_four_digits_of_val(s: Seq<char>, i: int)
    requires
        0 <= i,
        i + 4 <= s.len(),
        is_digit(s[i]),
        is_digit(s[i + 1]),
        is_digit(s[i + 2]),
        is_digit(s[i + 3]),
    ensures
        0 <= four_val(s, i) <= 9999,
        four_digits(four_val(s, i)) == s.subrange(i, i + 4),
{
    lemma_digit_char_val(s[i]);
    lemma_digit_char_val(s[i + 1]);
    lemma_digit_char_val(s[i + 2]);
    lemma_digit_char_val(s[i + 3]);
    lemma_four_decompose(
        digit_val(s[i]),
        digit_val(s[i + 1]),
        digit_val(s[i + 2]),
        digit_val(s[i + 3]),
    );
    assert(four_digits(four_val(s, i)) =~= s.subrange(i, i + 4));
}

/// Law: formatting is a left inverse of parsing. Every string the
/// converter accepts is reproduced character for character when the
/// parsed date-time is rendered again.
pub proof fn lemma_format_parse_round_trip(s: Seq<char>)
    requires
        valid_timestamp(s),
    ensures
        format_chars(parsed_date_time(s)) == s,
{
    let dt = parsed_date_time(s);
    lemma_four_digits_of_val(s, 0);
    lemma_two_digits_of_val(s, 5);
    lemma_two_digits_of_val(s, 8);
    lemma_two_digits_of_val(s, 11);
    lemma_two_digits_of_val(s, 14);
    lemma_two_digits_of_val(s, 17);
    assert(dt.year as int == four_val(s, 0));
    assert(dt.month as int == two_val(s, 5));
    assert(dt.day as int == two_val(s, 8));
    assert(dt.hour as int == two_val(s, 11));
    assert(dt.minute as int == two_val(s, 14));
    assert(dt.second as int == two_val(s, 17));
    assert(format_chars(dt) =~= s);
}

proof fn lemma_two_recompose(n: int)
    requires
        0 <= n <= 99,
    ensures
        10 * (n / 10) + n % 10 == n,
        0 <= n / 10 <= 9,
        0 <= n % 10 <= 9,
{
    assert(10 * (n / 10) + n % 10 == n && 0 <= n / 10 <= 9 && 0 <= n % 10 <= 9)
        by (nonlinear_arith)
        requires
            0 <= n <= 99,
    ;
}

proof fn lemma_four_recompose(n: int)
    requires
        0 <= n <= 9999,
    ensures
        1000 * (n / 1000) + 100 * ((n / 100) % 10) + 10 * ((n / 10) % 10) + n % 10 == n,
        0 <= n / 1000 <= 9,
        0 <= (n / 100) % 10 <= 9,
        0 <= (n / 10) % 10 <= 9,
        0 <= n % 10 <= 9,
{
    assert(1000 * (n / 1000) + 100 * ((n / 100) % 10) + 10 * ((n / 10) % 10) + n % 10 == n && 0
        <= n / 1000 <= 9 && 0 <= (n / 100) % 10 <= 9 && 0 <= (n / 10) % 10 <= 9 && 0 <= n % 10
        <= 9) by (nonlinear_arith)
        requires
            0 <= n <= 9999,
    ;
}

/// Law: parsing is a left inverse of formatting. Every well-formed
/// date-time survives a render-then-parse round trip unchanged, and
/// its rendering is a string the converter accepts.
#[verifier::rlimit(50)]
pub proof fn lemma_parse_format_round_trip(dt: DateTime)
    requires
        dt_valid(dt),
    ensures
        valid_timestamp(format_chars(dt)),
        parsed_date_time(format_chars(dt)) == dt,
{
    let s = format_chars(dt);
    let y = dt.year as int;
    let mo = dt.month as int;
    let d = dt.day as int;
    let h = dt.hour as int;
    let mi = dt.minute as int;
    let sec = dt.second as int;
    lemma_four_recompose(y);
    lemma_two_recompose(mo);
    lemma_two_recompose(d);
    lemma_two_recompose(h);
    lemma_two_recompose(mi);
    lemma_two_recompose(sec);
    lemma_digit_val_char(y / 1000);
    lemma_digit_val_char((y / 100) % 10);
    lemma_digit_val_char((y / 10) % 10);
    lemma_digit_val_char(y % 10);
    lemma_digit_val_char(mo / 10);
    lemma_digit_val_char(mo % 10);
    lemma_digit_val_char(d / 10);
    lemma_digit_val_char(d % 10);
    lemma_digit_val_char(h / 10);
    lemma_digit_val_char(h % 10);
    lemma_digit_val_char(mi / 10);
    lemma_digit_val_char(mi % 10);
    lemma_digit_val_char(sec / 10);
    lemma_digit_val_char(sec % 10);
    assert(s.len() == 20);
    assert(s[0] == digit_char(y / 1000));
    assert(s[1] == digit_char((y / 100) % 10));
    assert(s[2] == digit_char((y / 10) % 10));
    assert(s[3] == digit_char(y % 10));
    assert(s[4] == '-');
    assert(s[5] == digit_char(mo / 10));
    assert(s[6] == digit_char(mo % 10));
    assert(s[7] == '-');
    assert(s[8] == digit_char(d / 10));
    assert(s[9] == digit_char(d % 10));
    assert(s[10] == 'T');
    assert(s[11] == digit_char(h / 10));
    assert(s[12] == digit_char(h % 10));
    assert(s[13] == ':');
    assert(s[14] == digit_char(mi / 10));
    assert(s[15] == digit_char(mi % 10));
    assert(s[16] == ':');
    assert(s[17] == digit_char(sec / 10));
    assert(s[18] == digit_char(sec % 10));
    assert(s[19] == 'Z');
    assert(four_val(s, 0) == y);
    assert(two_val(s, 5) == mo);
    assert(two_val(s, 8) == d);
    assert(two_val(s, 11) == h);
    assert(two_val(s, 14) == mi);
    assert(two_val(s, 17) == sec);
    assert(parsed_date_time(s) == dt);
}

}
