//! Decimal digits as characters.

use vstd::prelude::*;

verus! {

/// Whether `c` is a decimal digit.
pub open spec fn is_digit(c: char) -> bool {
    '0' <= c <= '9'
}

/// The number that the digit `c` stands for; 0 where `c` is no digit.
pub open spec fn digit_value(c: char) -> nat {
    if is_digit(c) {
        (c as nat - '0' as nat) as nat
    } else {
        0
    }
}

/// The character of the decimal digit `n`, for `n` from 0 to 9.
pub open spec fn digit_char(n: int) -> char {
    ('0' as int + n) as char
}

} // verus!
