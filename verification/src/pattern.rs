//! The pattern selector: a small number chosen from a list, read as text.

use crate::decimal::{digit_char, digits};
use vstd::prelude::*;
use vstd::string::*;

verus! {

/// Whether `c` is one of the ten decimal digits.
pub open spec fn is_digit(c: char) -> bool {
    '0' <= c <= '9'
}

/// The number that the digit `c` stands for.
pub open spec fn digit_value(c: char) -> nat {
    (c as nat - '0' as nat) as nat
}

/// The number that a run of decimal digits stands for; leading zeros count
/// for nothing.
pub open spec fn number_of(s: Seq<char>) -> nat
    decreases s.len(),
{
    if s.len() == 0 {
        0
    } else {
        number_of(s.drop_last()) * 10 + digit_value(s.last())
    }
}

/// `s` without the plus sign that may lead it.
pub open spec fn unsigned_part(s: Seq<char>) -> Seq<char> {
    if s.len() > 0 && s[0] == '+' {
        s.subrange(1, s.len() as int)
    } else {
        s
    }
}

/// The pattern that the text `s` names, if it names one: an optional plus
/// sign, then at least one decimal digit and nothing else, the number being
/// at most 255.
pub open spec fn parse_spec(s: Seq<char>) -> Option<u8> {
    let run = unsigned_part(s);
    if run.len() > 0 && (forall|i: int| 0 <= i < run.len() ==> is_digit(#[trigger] run[i]))
        && number_of(run) <= 255 {
        Some(number_of(run) as u8)
    } else {
        None
    }
}

/// The pattern to send for a selector that reads `s`: the number it names,
/// and zero where it names none.
pub open spec fn pattern_of_text(s: Seq<char>) -> u8 {
    match parse_spec(s) {
        Some(p) => p,
        None => 0,
    }
}

/// The pattern to send for a selector that may be missing.
pub open spec fn pattern_of(selection: Option<Seq<char>>) -> u8 {
    match selection {
        Some(s) => pattern_of_text(s),
        None => 0,
    }
}

/// The decimal digits of a number are digits throughout, and stand for that
/// number.
pub proof fn lemma_digits_read_back(n: nat)
    ensures
        digits(n).len() > 0,
        forall|i: int| 0 <= i < digits(n).len() ==> is_digit(#[trigger] digits(n)[i]),
        number_of(digits(n)) == n,
    decreases n,
{
    let d = (n % 10) as int;
    assert(is_digit(digit_char(d)) && digit_value(digit_char(d)) == d);
    if n < 10 {
        assert(digits(n).drop_last() =~= Seq::<char>::empty());
        assert(number_of(digits(n).drop_last()) == 0);
    } else {
        lemma_digits_read_back(n / 10);
        assert(digits(n).drop_last() =~= digits(n / 10));
    }
}

/// Every pattern, written in decimal as a request carries it, is read back
/// from that text as itself.
pub proof fn lemma_pattern_round_trip(p: u8)
    ensures
        parse_spec(digits(p as nat)) == Some(p),
{
    lemma_digits_read_back(p as nat);
    assert(digits(p as nat)[0] != '+');
}

/// Reads a pattern number from the selector's text.
pub fn parse_pattern(text: &str) -> (out: Option<u8>)
    ensures
        out == parse_spec(text@),
{
    let n: usize = text.unicode_len();
    if n == 0 {
        return None;
    }
    let start: usize = if text.get_char(0) == '+' {
        1
    } else {
        0
    };
    if start == n {
        return None;
    }
    let ghost run = unsigned_part(text@);
    assert(run =~= text@.subrange(start as int, n as int));
    let mut total: u32 = 0;
    let mut over: bool = false;
    let mut i: usize = start;
    while i < n
        invariant
            start <= i <= n,
            n == text@.len(),
            run == unsigned_part(text@),
            run =~= text@.subrange(start as int, n as int),
            forall|j: int| 0 <= j < i - start ==> is_digit(#[trigger] run[j]),
            !over ==> total == number_of(run.subrange(0, i - start)) && total <= 255,
            over ==> number_of(run.subrange(0, i - start)) > 255,
        decreases n - i,
    {
        let c: char = text.get_char(i);
        if c < '0' || c > '9' {
            assert(run[i - start] == c);
            assert(!is_digit(run[i - start]));
            return None;
        }
        let d: u32 = c as u32 - '0' as u32;
        proof {
            let before = run.subrange(0, i - start);
            let after = run.subrange(0, i - start + 1);
            assert(after.drop_last() =~= before);
            assert(after.last() == c);
            assert(number_of(after) == number_of(before) * 10 + d);
        }
        if !over {
            total = total * 10 + d;
            if total > 255 {
                over = true;
            }
        }
        i = i + 1;
    }
    assert(run.subrange(0, n - start) =~= run);
    if over {
        None
    } else {
        Some(total as u8)
    }
}

/// The pattern to send for what the selector gave: `selection` is its text,
/// or `None` where the page has no selector. Anything that names no pattern
/// counts as pattern zero.
pub fn get_pattern(selection: Option<&str>) -> (out: u8)
    ensures
        out == pattern_of(
            match selection {
                Some(s) => Some(s@),
                None => None,
            },
        ),
{
    match selection {
        Some(s) => match parse_pattern(s) {
            Some(p) => p,
            None => 0,
        },
        None => 0,
    }
}

} // verus!
