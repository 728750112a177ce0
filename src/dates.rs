//! Reading calendar dates out of free text.

use vstd::prelude::*;
use crate::model::CivilDate;
use crate::text::{chars_of, decimal_value, digit_value, is_digit};

verus! {

/// Whether `y` is a leap year of the proleptic Gregorian calendar.
pub open spec fn is_leap_year(y: int) -> bool {
    (y % 4 == 0 && y % 100 != 0) || y % 400 == 0
}

/// The number of days in month `m` of year `y`.
pub open spec fn days_in_month(y: int, m: int) -> int {
    if m == 2 {
        if is_leap_year(y) {
            29
        } else {
            28
        }
    } else if m == 4 || m == 6 || m == 9 || m == 11 {
        30
    } else {
        31
    }
}

/// Whether year `y`, month `m` and day `d` name a day of the calendar.
pub open spec fn calendar_date_valid(y: int, m: int, d: int) -> bool {
    1 <= m <= 12 && 1 <= d <= days_in_month(y, m)
}

/// Relies on chrono's `NaiveDate::from_ymd_opt`, which gives a date exactly
/// when the month and day exist in that year, for years within its range
/// (which holds all four-digit years).
#[verifier::external_body]
fn calendar_date_exists(year: i32, month: u32, day: u32) -> (r: bool)
    requires
        0 <= year <= 9999,
    ensures
        r == calendar_date_valid(year as int, month as int, day as int),
{
    chrono::NaiveDate::from_ymd_opt(year, month, day).is_some()
}

/// Whether a date written YYYY-MM-DD in ASCII digits starts at position `i`.
pub open spec fn date_pattern_at(t: Seq<char>, i: int) -> bool {
    &&& 0 <= i
    &&& i + 10 <= t.len()
    &&& is_digit(t[i]) && is_digit(t[i + 1]) && is_digit(t[i + 2]) && is_digit(t[i + 3])
    &&& t[i + 4] == '-'
    &&& is_digit(t[i + 5]) && is_digit(t[i + 6])
    &&& t[i + 7] == '-'
    &&& is_digit(t[i + 8]) && is_digit(t[i + 9])
}

/// The position of the first YYYY-MM-DD pattern in `t`, if any.
pub open spec fn first_date_at(t: Seq<char>) -> Option<int> {
    if exists|i: int| date_pattern_at(t, i) {
        Some(choose|i: int| date_pattern_at(t, i) && forall|j: int| 0 <= j < i ==> !date_pattern_at(t, j))
    } else {
        None
    }
}

/// The date that the first YYYY-MM-DD pattern of `t` writes, when there is one
/// and it names a day of the calendar.
pub open spec fn date_in(t: Seq<char>) -> Option<CivilDate> {
    match first_date_at(t) {
        None => None,
        Some(i) => {
            let y = decimal_value(t.subrange(i, i + 4));
            let m = decimal_value(t.subrange(i + 5, i + 7));
            let d = decimal_value(t.subrange(i + 8, i + 10));
            if calendar_date_valid(y as int, m as int, d as int) {
                Some(CivilDate { year: y as i32, month: m as u32, day: d as u32 })
            } else {
                None
            }
        },
    }
}

proof fn lemma_first_date(t: Seq<char>, k: int)
    requires
        date_pattern_at(t, k),
        forall|j: int| 0 <= j < k ==> !date_pattern_at(t, j),
    ensures
        first_date_at(t) == Some(k),
{
    let i = choose|i: int| date_pattern_at(t, i) && forall|j: int| 0 <= j < i ==> !date_pattern_at(t, j);
    assert(date_pattern_at(t, i));
    if i < k {
        assert(!date_pattern_at(t, i));
    }
    if k < i {
        assert(!date_pattern_at(t, k));
    }
}

proof fn lemma_two_digits(s: Seq<char>)
    requires
        s.len() == 2,
    ensures
        decimal_value(s) == decimal_value(seq![s[0]]) * 10 + digit_value(s[1]) as nat,
{
    assert(s.drop_last() =~= seq![s[0]]);
}

proof fn lemma_one_digit(c: char)
    requires
        is_digit(c),
    ensures
        decimal_value(seq![c]) == digit_value(c),
{
    assert(seq![c].drop_last() =~= Seq::<char>::empty());
    assert(decimal_value(Seq::<char>::empty()) == 0);
    assert(seq![c].last() == c);
    assert(digit_value(c) >= 0);
}

proof fn lemma_four_digits(s: Seq<char>)
    requires
        s.len() == 4,
        is_digit(s[0]) && is_digit(s[1]) && is_digit(s[2]) && is_digit(s[3]),
    ensures
        decimal_value(s) == digit_value(s[0]) * 1000 + digit_value(s[1]) * 100 + digit_value(s[2]) * 10
            + digit_value(s[3]),
{
    let s3 = s.drop_last();
    let s2 = s3.drop_last();
    let s1 = s2.drop_last();
    assert(s1 =~= seq![s[0]]);
    assert(s2.last() == s[1]);
    assert(s3.last() == s[2]);
    assert(s.last() == s[3]);
    lemma_one_digit(s[0]);
    assert(decimal_value(s1) == digit_value(s[0]));
    assert(decimal_value(s2) == digit_value(s[0]) * 10 + digit_value(s[1]));
    assert(decimal_value(s3) == decimal_value(s2) * 10 + digit_value(s[2]) as nat);
    assert(decimal_value(s) == decimal_value(s3) * 10 + digit_value(s[3]) as nat);
}

fn digit(c: char) -> (r: u32)
    requires
        is_digit(c),
    ensures
        r == digit_value(c),
        r <= 9,
{
    c as u32 - '0' as u32
}

fn is_ascii_digit(c: char) -> (r: bool)
    ensures
        r == is_digit(c),
{
    '0' <= c && c <= '9'
}

fn date_pattern_exec(cs: &Vec<char>, i: usize) -> (r: bool)
    requires
        i + 10 <= cs.len(),
    ensures
        r == date_pattern_at(cs@, i as int),
{
    is_ascii_digit(cs[i]) && is_ascii_digit(cs[i + 1]) && is_ascii_digit(cs[i + 2])
        && is_ascii_digit(cs[i + 3]) && cs[i + 4] == '-' && is_ascii_digit(cs[i + 5])
        && is_ascii_digit(cs[i + 6]) && cs[i + 7] == '-' && is_ascii_digit(cs[i + 8])
        && is_ascii_digit(cs[i + 9])
}

fn date_fields_at(cs: &Vec<char>, i: usize) -> (r: (u32, u32, u32))
    requires
        date_pattern_at(cs@, i as int),
        i + 10 <= cs.len(),
    ensures
        r.0 as nat == decimal_value(cs@.subrange(i as int, i + 4)),
        r.1 as nat == decimal_value(cs@.subrange(i + 5, i + 7)),
        r.2 as nat == decimal_value(cs@.subrange(i + 8, i + 10)),
        r.0 <= 9999,
{
    proof {
        let t = cs@;
        let ii = i as int;
        lemma_four_digits(t.subrange(ii, ii + 4));
        lemma_two_digits(t.subrange(ii + 5, ii + 7));
        lemma_one_digit(t[ii + 5]);
        assert(t.subrange(ii + 5, ii + 7)[0] == t[ii + 5]);
        lemma_two_digits(t.subrange(ii + 8, ii + 10));
        lemma_one_digit(t[ii + 8]);
        assert(t.subrange(ii + 8, ii + 10)[0] == t[ii + 8]);
    }
    let y = digit(cs[i]) * 1000 + digit(cs[i + 1]) * 100 + digit(cs[i + 2]) * 10 + digit(cs[i + 3]);
    let m = digit(cs[i + 5]) * 10 + digit(cs[i + 6]);
    let d = digit(cs[i + 8]) * 10 + digit(cs[i + 9]);
    (y, m, d)
}

/// Reads the first YYYY-MM-DD date in `text`: see `date_in`.
pub fn parse_date(text: &str) -> (r: Option<CivilDate>)
    ensures
        r == date_in(text@),
{
    let cs = chars_of(text);
    let n = cs.len();
    let mut i: usize = 0;
    while n >= 10 && i <= n - 10
        invariant
            cs@ == text@,
            n == cs@.len(),
            forall|j: int| 0 <= j < i ==> !date_pattern_at(text@, j),
        decreases n - i,
    {
        if date_pattern_exec(&cs, i) {
            proof {
                lemma_first_date(text@, i as int);
            }
            let (y, m, d) = date_fields_at(&cs, i);
            if calendar_date_exists(y as i32, m, d) {
                return Some(CivilDate { year: y as i32, month: m, day: d });
            } else {
                return None;
            }
        }
        i = i + 1;
    }
    assert(!exists|j: int| date_pattern_at(text@, j));
    None
}

} // verus!
