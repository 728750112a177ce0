//! Reading a work's identifier from what a reader types: the number itself,
//! or the address of the work, one of its chapters or one of its comments.

use vstd::prelude::*;
use crate::text::{chars_of, is_digit, occurs_at, occurs_at_exec, parse_u64, parse_unsigned, slice};

verus! {

/// Where the digits of a work address begin, if a work-address marker
/// ("archiveofourown.org/works/" or "//works/") starts at `i`.
pub open spec fn marker_end(s: Seq<char>, i: int) -> Option<int> {
    if occurs_at(s, "archiveofourown.org/works/"@, i) {
        Some(i + 26)
    } else if occurs_at(s, "//works/"@, i) {
        Some(i + 8)
    } else {
        None
    }
}

/// The end of the run of ASCII digits that starts at `j`.
pub open spec fn digit_run_end(s: Seq<char>, j: int) -> int
    decreases s.len() - j,
{
    if j < 0 || j >= s.len() || !is_digit(s[j]) {
        j
    } else {
        digit_run_end(s, j + 1)
    }
}

/// Whether a work address, with at least one digit, followed by `/` or the
/// end of the text, starts at `i`.
pub open spec fn id_match_at(s: Seq<char>, i: int) -> bool {
    match marker_end(s, i) {
        Some(j) => {
            let k = digit_run_end(s, j);
            k > j && (k == s.len() || s[k] == '/')
        },
        None => false,
    }
}

/// The digits of the first work address in `s`, if there is one.
pub open spec fn first_id_digits(s: Seq<char>) -> Option<Seq<char>> {
    if exists|i: int| 0 <= i < s.len() && id_match_at(s, i) {
        let i = choose|i: int|
            0 <= i < s.len() && id_match_at(s, i) && forall|j: int| 0 <= j < i ==> !id_match_at(s, j);
        let j = marker_end(s, i)->0;
        Some(s.subrange(j, digit_run_end(s, j)))
    } else {
        None
    }
}

/// The identifier that `s` gives: the number it writes, else the number of
/// the first work address in it, when that fits in 64 bits.
pub open spec fn ao3_id_of(s: Seq<char>) -> Option<nat> {
    if parse_unsigned(s, u64::MAX as nat) is Some {
        parse_unsigned(s, u64::MAX as nat)
    } else {
        match first_id_digits(s) {
            Some(d) => parse_unsigned(d, u64::MAX as nat),
            None => None,
        }
    }
}

proof fn lemma_digit_run_end(s: Seq<char>, j: int)
    requires
        0 <= j <= s.len(),
    ensures
        j <= digit_run_end(s, j) <= s.len(),
        forall|k: int| j <= k < digit_run_end(s, j) ==> is_digit(#[trigger] s[k]),
        digit_run_end(s, j) < s.len() ==> !is_digit(s[digit_run_end(s, j)]),
    decreases s.len() - j,
{
    if j < s.len() && is_digit(s[j]) {
        lemma_digit_run_end(s, j + 1);
    }
}

fn run_end(cs: &Vec<char>, j: usize) -> (r: usize)
    requires
        j <= cs@.len(),
    ensures
        r as int == digit_run_end(cs@, j as int),
{
    let mut k = j;
    while k < cs.len() && '0' <= cs[k] && cs[k] <= '9'
        invariant
            j <= k <= cs@.len(),
            digit_run_end(cs@, j as int) == digit_run_end(cs@, k as int),
        decreases cs@.len() - k,
    {
        k = k + 1;
    }
    k
}

fn marker_end_exec(cs: &Vec<char>, i: usize) -> (r: Option<usize>)
    requires
        i <= cs@.len(),
    ensures
        match r {
            Some(j) => marker_end(cs@, i as int) == Some(j as int) && j <= cs@.len(),
            None => marker_end(cs@, i as int) is None,
        },
{
    let site = chars_of("archiveofourown.org/works/");
    let short = chars_of("//works/");
    proof {
        reveal_strlit("archiveofourown.org/works/");
        reveal_strlit("//works/");
    }
    assert(site@.len() == 26);
    assert(short@.len() == 8);
    let n = cs.len();
    if occurs_at_exec(cs, &site, i) {
        assert(i + site.len() <= n);
        Some(i + site.len())
    } else if occurs_at_exec(cs, &short, i) {
        assert(i + short.len() <= n);
        Some(i + short.len())
    } else {
        None
    }
}

/// Reads a work identifier from a number or a work address: see `ao3_id_of`.
pub fn extract_ao3_id(input: &str) -> (r: Result<u64, String>)
    ensures
        r is Ok <==> ao3_id_of(input@) is Some,
        r is Ok ==> r->Ok_0 as nat == ao3_id_of(input@)->0,
{
    match parse_u64(input) {
        Some(id) => {
            return Ok(id);
        },
        None => {},
    }
    let cs = chars_of(input);
    let n = cs.len();
    let mut i: usize = 0;
    while i < n
        invariant
            cs@ == input@,
            n == cs@.len(),
            i <= n,
            parse_unsigned(input@, u64::MAX as nat) is None,
            forall|j: int| 0 <= j < i ==> !id_match_at(input@, j),
        decreases n - i,
    {
        match marker_end_exec(&cs, i) {
            Some(j) => {
                let k = run_end(&cs, j);
                proof {
                    lemma_digit_run_end(cs@, j as int);
                }
                if k > j && (k == n || cs[k] == '/') {
                    let digits = slice(input, j, k);
                    proof {
                        let s = input@;
                        let c = choose|c: int|
                            0 <= c < s.len() && id_match_at(s, c) && forall|x: int| 0 <= x < c ==> !id_match_at(s, x);
                        assert(id_match_at(s, i as int));
                        if c < i {
                            assert(!id_match_at(s, c));
                        }
                        if i < c {
                            assert(!id_match_at(s, i as int));
                        }
                        assert(first_id_digits(s) == Some(s.subrange(j as int, k as int)));
                    }
                    return match parse_u64(digits.as_str()) {
                        Some(id) => Ok(id),
                        None => Err(String::from_str("the work number in the address is too large")),
                    };
                }
            },
            None => {},
        }
        i = i + 1;
    }
    Err(String::from_str("no work number or work address found"))
}

} // verus!
