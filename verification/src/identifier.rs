//! Identifiers in their external textual form.
//!
//! An identifier is written in decimal digits, with an optional `+` before
//! them and nothing else: no sign `-`, no blank, no separator. The number
//! must be one that the identifier type can hold.

use vstd::prelude::*;
use vstd::string::StrSliceExecFns;
use crate::digits::{digit_value, is_digit};

verus! {

/// The code of `+`.
const PLUS: u8 = 43;

/// The code of the digit `0`.
const ZERO: u8 = 48;

/// The code of the digit `9`.
const NINE: u8 = 57;

/// Whether every character of `digits` is a decimal digit.
pub open spec fn all_digits(digits: Seq<char>) -> bool {
    forall|i: int| 0 <= i < digits.len() ==> is_digit(#[trigger] digits[i])
}

/// The number that a sequence of decimal digits stands for; 0 for none.
pub open spec fn decimal_value(digits: Seq<char>) -> nat
    decreases digits.len(),
{
    if digits.len() == 0 {
        0
    } else {
        decimal_value(digits.drop_last()) * 10 + digit_value(digits.last())
    }
}

/// The digits of `text`: all of it but a leading `+`.
pub open spec fn digits_of(text: Seq<char>) -> Seq<char> {
    if text.len() > 0 && text[0] == '+' {
        text.skip(1)
    } else {
        text
    }
}

/// The identifier that `text` stands for, if it stands for one.
pub open spec fn identifier_of(text: Seq<char>) -> Option<u32> {
    let digits = digits_of(text);
    if digits.len() > 0 && all_digits(digits) && decimal_value(digits) <= u32::MAX {
        Some(decimal_value(digits) as u32)
    } else {
        None
    }
}

/// A sequence of digits stands for at least as much as any of its prefixes.
proof fn lemma_value_grows(digits: Seq<char>, n: int)
    requires
        0 <= n <= digits.len(),
    ensures
        decimal_value(digits.take(n)) <= decimal_value(digits),
    decreases digits.len(),
{
    if n == digits.len() {
        assert(digits.take(n) =~= digits);
    } else {
        assert(digits.drop_last().take(n) =~= digits.take(n));
        lemma_value_grows(digits.drop_last(), n);
    }
}

/// Reads an identifier from its external textual form.
pub fn parse_identifier(text: &str) -> (out: Option<u32>)
    ensures
        out == identifier_of(text@),
{
    if !text.is_ascii() {
        proof {
            lemma_not_ascii(text@);
        }
        return None;
    }
    let length = text.unicode_len();
    let start: usize = if length > 0 && text.get_ascii(0) == PLUS {
        1
    } else {
        0
    };
    let ghost digits = digits_of(text@);
    assert(digits =~= text@.skip(start as int));
    if start == length {
        return None;
    }
    let mut value: u64 = 0;
    let mut index: usize = start;
    while index < length
        invariant
            start <= index <= length,
            length == text@.len(),
            text.is_ascii(),
            digits == digits_of(text@),
            digits == text@.skip(start as int),
            all_digits(digits.take(index - start)),
            value == decimal_value(digits.take(index - start)),
            value <= u32::MAX,
        decreases length - index,
    {
        let byte = text.get_ascii(index);
        let ghost position = index - start;
        assert(digits[position] == text@[index as int]);
        if byte < ZERO || byte > NINE {
            assert(!is_digit(digits[position]));
            assert(!all_digits(digits));
            return None;
        }
        assert(is_digit(digits[position]));
        let digit: u64 = (byte - ZERO) as u64;
        value = value * 10 + digit;
        proof {
            let longer = digits.take(position + 1);
            assert(longer.drop_last() =~= digits.take(position));
            assert(longer.last() == digits[position]);
            assert forall|i: int| 0 <= i < longer.len() implies is_digit(#[trigger] longer[i]) by {
                if i < position {
                    assert(digits.take(position)[i] == longer[i]);
                }
            }
            assert(value == decimal_value(longer));
        }
        if value > 0xffff_ffff {
            proof {
                lemma_value_grows(digits, position + 1);
            }
            return None;
        }
        index += 1;
    }
    assert(digits.take(index - start) =~= digits);
    Some(value as u32)
}

/// A text with a character outside ASCII stands for no identifier.
proof fn lemma_not_ascii(text: Seq<char>)
    requires
        !vstd::utf8::is_ascii_chars(text),
    ensures
        identifier_of(text) is None,
{
    let digits = digits_of(text);
    if digits.len() > 0 && all_digits(digits) {
        assert forall|i: int| 0 <= i < text.len() implies '\0' <= #[trigger] text[i]
            <= '\u{7f}' by {
            if text[0] == '+' {
                if i > 0 {
                    assert(is_digit(digits[i - 1]));
                }
            } else {
                assert(is_digit(digits[i]));
            }
        }
        assert(false);
    }
}

} // verus!
