//! Writing counts for display.

use vstd::prelude::*;
use crate::text::string_of;

verus! {

/// The ASCII character of the decimal digit `d`.
pub open spec fn digit_char(d: nat) -> char {
    ((48 + d) as u8) as char
}

/// The decimal digits of `n`, most significant first, without leading zeros.
pub open spec fn decimal_digits(n: nat) -> Seq<char>
    decreases n,
{
    if n < 10 {
        seq![digit_char(n)]
    } else {
        decimal_digits(n / 10).push(digit_char(n % 10))
    }
}

/// `d` with a comma before each group of three digits counted from the right.
pub open spec fn with_separators(d: Seq<char>) -> Seq<char>
    decreases d.len(),
{
    if d.len() <= 3 {
        d
    } else {
        with_separators(d.subrange(0, d.len() - 3)) + seq![','] + d.subrange(d.len() - 3, d.len() as int)
    }
}

fn digits_of(n: u32) -> (r: Vec<char>)
    ensures
        r@ == decimal_digits(n as nat),
    decreases n,
{
    let d = (n % 10) as u8;
    let c = (48u8 + d) as char;
    if n < 10 {
        let mut v: Vec<char> = Vec::new();
        v.push(c);
        assert(v@ =~= seq![digit_char(n as nat)]);
        v
    } else {
        let mut v = digits_of(n / 10);
        v.push(c);
        v
    }
}

fn separated(d: &Vec<char>, end: usize) -> (r: Vec<char>)
    requires
        end <= d@.len(),
    ensures
        r@ == with_separators(d@.subrange(0, end as int)),
    decreases end,
{
    let ghost s = d@.subrange(0, end as int);
    if end <= 3 {
        let mut r: Vec<char> = Vec::new();
        let mut i: usize = 0;
        while i < end
            invariant
                i <= end <= d@.len(),
                r@ == d@.subrange(0, i as int),
            decreases end - i,
        {
            r.push(d[i]);
            i = i + 1;
            assert(r@ =~= d@.subrange(0, i as int));
        }
        r
    } else {
        let mut r = separated(d, end - 3);
        r.push(',');
        r.push(d[end - 3]);
        r.push(d[end - 2]);
        r.push(d[end - 1]);
        assert(s.subrange(0, s.len() - 3) =~= d@.subrange(0, end - 3));
        assert(r@ =~= with_separators(s.subrange(0, s.len() - 3)) + seq![','] + s.subrange(
            s.len() - 3,
            s.len() as int,
        ));
        r
    }
}

/// Writes a word count in decimal with thousands separators, as "1,234,567".
pub fn format_word_count(words: u32) -> (r: String)
    ensures
        r@ == with_separators(decimal_digits(words as nat)),
{
    let d = digits_of(words);
    let s = separated(&d, d.len());
    assert(d@.subrange(0, d@.len() as int) =~= d@);
    string_of(&s)
}

} // verus!
