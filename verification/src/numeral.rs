//! Decimal numerals: the text form of amounts.

use vstd::prelude::*;

verus! {

/// The character that stands for the digit `d`, for `d` below ten.
pub open spec fn digit_char(d: nat) -> char {
    ((48 + d) as u8) as char
}

/// Whether `c` is one of `'0'` to `'9'`.
pub open spec fn is_digit(c: char) -> bool {
    48 <= c as u32 <= 57
}

/// The digit that `c` stands for.
pub open spec fn digit_value(c: char) -> nat {
    (c as u32 - 48) as nat
}

/// The usual way of writing `n`: its decimal digits, the most significant
/// first, with no leading zero unless `n` is zero.
pub open spec fn decimal_digits(n: nat) -> Seq<char>
    decreases n,
{
    if n < 10 {
        seq![digit_char(n)]
    } else {
        decimal_digits(n / 10).push(digit_char(n % 10))
    }
}

/// Whether `s` is a non-empty run of digits.
pub open spec fn is_numeral(s: Seq<char>) -> bool {
    &&& s.len() > 0
    &&& forall|i: int| 0 <= i < s.len() ==> is_digit(#[trigger] s[i])
}

/// The number that a run of digits stands for.
pub open spec fn numeral_value(s: Seq<char>) -> nat
    decreases s.len(),
{
    if s.len() == 0 {
        0
    } else {
        10 * numeral_value(s.drop_last()) + digit_value(s.last())
    }
}

/// Writing a number down and reading it back gives the number.
pub proof fn lemma_decimal_digits_round_trip(n: nat)
    ensures
        is_numeral(decimal_digits(n)),
        numeral_value(decimal_digits(n)) == n,
    decreases n,
{
    if n < 10 {
        let s = decimal_digits(n);
        assert(s.len() == 1);
        assert(s[0] == digit_char(n));
        assert(s.drop_last().len() == 0);
        assert(numeral_value(s.drop_last()) == 0);
        assert(s.last() == digit_char(n));
    } else {
        lemma_decimal_digits_round_trip(n / 10);
        let head = decimal_digits(n / 10);
        let s = decimal_digits(n);
        assert(s == head.push(digit_char(n % 10)));
        assert(s.drop_last() =~= head);
        assert(s.last() == digit_char(n % 10));
        assert forall|i: int| 0 <= i < s.len() implies is_digit(#[trigger] s[i]) by {
            if i < head.len() {
                assert(s[i] == head[i]);
            }
        }
    }
}

} // verus!
