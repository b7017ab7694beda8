//! The pause between two fetches, read from text.

use vstd::prelude::*;
use crate::text::chars_of;

verus! {

/// The pause, in seconds, where none is given or the one given is no number.
pub const DEFAULT_INTERVAL: u64 = 3600;

/// Whether `c` is one of the digits `0` to `9`.
pub open spec fn is_digit(c: char) -> bool {
    0x30 <= c as u32 <= 0x39
}

/// The value of the digit `c`.
pub open spec fn digit_value(c: char) -> nat {
    if is_digit(c) {
        (c as u32 - 0x30) as nat
    } else {
        0
    }
}

/// Whether `s` holds digits only.
pub open spec fn all_digits(s: Seq<char>) -> bool {
    forall|i: int| 0 <= i < s.len() ==> is_digit(#[trigger] s[i])
}

/// The number that the digits of `s` write in base ten.
pub open spec fn decimal(s: Seq<char>) -> nat
    decreases s.len(),
{
    if s.len() == 0 {
        0
    } else {
        decimal(s.drop_last()) * 10 + digit_value(s.last())
    }
}

/// `s` without the plus sign that may stand in front of it.
pub open spec fn unsigned(s: Seq<char>) -> Seq<char> {
    if s.len() > 0 && s.first() == '+' {
        s.drop_first()
    } else {
        s
    }
}

/// The number that `s` writes: one or more digits, which a single plus sign
/// may precede, with a value that fits 64 bits. Anything else, white space
/// included, is no number.
pub open spec fn parse(s: Seq<char>) -> Option<u64> {
    let digits = unsigned(s);
    if digits.len() > 0 && all_digits(digits) && decimal(digits) <= u64::MAX {
        Some(decimal(digits) as u64)
    } else {
        None
    }
}

/// The pause that the text of an option stands for.
pub open spec fn interval_of(raw: Option<Seq<char>>) -> u64 {
    match raw {
        Some(s) => match parse(s) {
            Some(seconds) => seconds,
            None => DEFAULT_INTERVAL,
        },
        None => DEFAULT_INTERVAL,
    }
}

/// A number never gets smaller when digits are written behind it.
pub proof fn lemma_decimal_grows(s: Seq<char>, k: int)
    requires
        0 <= k <= s.len(),
    ensures
        decimal(s.take(k)) <= decimal(s),
    decreases s.len() - k,
{
    if k == s.len() {
        assert(s.take(k) =~= s);
    } else {
        lemma_decimal_grows(s.drop_last(), k);
        assert(s.drop_last().take(k) =~= s.take(k));
    }
}

/// Reads an unsigned number from `s`.
pub fn parse_u64(s: &str) -> (value: Option<u64>)
    ensures
        value == parse(s@),
{
    let chars = chars_of(s);
    let n = chars.len();
    let first: usize = if n > 0 && chars[0] == '+' {
        1
    } else {
        0
    };
    let ghost digits = unsigned(s@);
    assert(digits =~= s@.subrange(first as int, n as int));
    if first == n {
        return None;
    }
    let mut value: u64 = 0;
    let mut i: usize = first;
    assert(digits.take(0) =~= Seq::<char>::empty());
    while i < n
        invariant
            first <= i <= n,
            n == chars.len(),
            chars@ == s@,
            digits == unsigned(s@),
            digits == s@.subrange(first as int, n as int),
            all_digits(digits.take(i - first)),
            value == decimal(digits.take(i - first)),
        decreases n - i,
    {
        let code: u32 = chars[i] as u32;
        if code < 0x30 || code > 0x39 {
            assert(!is_digit(digits[i - first]));
            return None;
        }
        let digit: u64 = (code - 0x30) as u64;
        let ghost longer = digits.take(i - first + 1);
        assert(longer.drop_last() =~= digits.take(i - first));
        assert(longer.last() == chars@[i as int]);
        if value > (u64::MAX - digit) / 10 {
            proof {
                lemma_decimal_grows(digits, i - first + 1);
            }
            return None;
        }
        value = value * 10 + digit;
        i += 1;
    }
    assert(digits.take(n - first) =~= digits);
    Some(value)
}

/// The pause that the text of an option stands for: its number, or the
/// default where there is no text or the text is no number.
pub fn resolve_interval(raw: &Option<String>) -> (seconds: u64)
    ensures
        seconds == interval_of(
            match *raw {
                Some(s) => Some(s@),
                None => None,
            },
        ),
{
    match raw {
        Some(s) => match parse_u64(s.as_str()) {
            Some(seconds) => seconds,
            None => DEFAULT_INTERVAL,
        },
        None => DEFAULT_INTERVAL,
    }
}

} // verus!
