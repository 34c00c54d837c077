//! Decimal numerals: what a run of digits denotes, and how to read one.

use vstd::prelude::*;
use vstd::string::*;

verus! {

/// A decimal digit.
pub open spec fn is_digit(c: char) -> bool {
    '0' <= c && c <= '9'
}

/// Every character is a decimal digit.
pub open spec fn all_digits(text: Seq<char>) -> bool {
    forall|i: int| 0 <= i < text.len() ==> is_digit(#[trigger] text[i])
}

/// The number that a sequence of decimal digits denotes.
pub open spec fn digits_value(digits: Seq<char>) -> nat
    decreases digits.len(),
{
    if digits.len() == 0 {
        0
    } else {
        digits_value(digits.drop_last()) * 10 + (digits.last() as u32 - '0' as u32) as nat
    }
}

/// What reading a run of digits gives.
#[derive(Clone, Copy, Debug, PartialEq, Eq)]
pub enum Digits {
    /// The text is empty or holds something other than digits.
    Invalid,
    /// The digits denote a number above the bound.
    TooLarge,
    /// The number that the digits denote.
    Value(u64),
}

/// What a run of digits reads as, under the bound `bound`.
pub open spec fn digits_read(digits: Seq<char>, bound: u64) -> Digits {
    if digits.len() == 0 || !all_digits(digits) {
        Digits::Invalid
    } else if digits_value(digits) > bound {
        Digits::TooLarge
    } else {
        Digits::Value(digits_value(digits) as u64)
    }
}

/// Reads the characters of `text` from `start` on as one run of digits.
pub fn read_digits(text: &str, start: usize, bound: u64) -> (read: Digits)
    requires
        start <= text@.len(),
    ensures
        read == digits_read(text@.skip(start as int), bound),
{
    let len = text.unicode_len();
    let ghost digits = text@.skip(start as int);
    if start == len {
        return Digits::Invalid;
    }
    let mut value: u128 = 0;
    let mut too_large = false;
    let mut i: usize = start;
    while i < len
        invariant
            start <= i <= len,
            len == text@.len(),
            digits == text@.skip(start as int),
            all_digits(digits.take(i - start)),
            !too_large ==> value == digits_value(digits.take(i - start)) && value <= bound,
            too_large ==> digits_value(digits.take(i - start)) > bound,
        decreases len - i,
    {
        let c = text.get_char(i);
        proof {
            let next = digits.take(i - start + 1);
            assert(next.drop_last() == digits.take(i - start));
            assert(next.last() == c);
        }
        if !(c >= '0' && c <= '9') {
            proof {
                assert(!is_digit(digits[i - start]));
            }
            return Digits::Invalid;
        }
        let digit: u128 = (c as u32 - '0' as u32) as u128;
        if !too_large {
            value = value * 10 + digit;
            if value > bound as u128 {
                too_large = true;
            }
        }
        proof {
            let next = digits.take(i - start + 1);
            assert forall|j: int| 0 <= j < next.len() implies is_digit(#[trigger] next[j]) by {
                if j < i - start {
                    assert(digits.take(i - start)[j] == next[j]);
                }
            }
        }
        i += 1;
    }
    proof {
        assert(digits.take(len - start) == digits);
    }
    if too_large {
        Digits::TooLarge
    } else {
        Digits::Value(value as u64)
    }
}

} // verus!
