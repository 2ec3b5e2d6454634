//! Reading a price or a quantity from the text of a form field.
use vstd::prelude::*;
use vstd::string::StrSliceExecFns;

verus! {

/// The byte of `+`.
const PLUS: u8 = 43;

/// The byte of `0`.
const ZERO: u8 = 48;

/// The byte of `9`.
const NINE: u8 = 57;

/// Whether `c` is one of `0` to `9`.
pub open spec fn is_digit(c: char) -> bool {
    '0' <= c <= '9'
}

/// The number that the decimal digits `digits` write.
pub open spec fn digits_value(digits: Seq<char>) -> nat
    decreases digits.len(),
{
    if digits.len() == 0 {
        0
    } else {
        (digits_value(digits.drop_last()) * 10 + (digits.last() as nat - '0' as nat)) as nat
    }
}

/// The digits of `text`: all of it but one leading `+`, if there is one.
pub open spec fn digits_of(text: Seq<char>) -> Seq<char> {
    if text.len() > 0 && text[0] == '+' {
        text.subrange(1, text.len() as int)
    } else {
        text
    }
}

/// Whether `text` writes an amount: an optional `+`, then one or more
/// decimal digits and nothing else, of a value that fits in 64 bits.
pub open spec fn is_amount(text: Seq<char>) -> bool {
    let digits = digits_of(text);
    &&& digits.len() > 0
    &&& forall|i: int| 0 <= i < digits.len() ==> is_digit(#[trigger] digits[i])
    &&& digits_value(digits) <= u64::MAX
}

/// The amount that `text` writes, or 0 if it writes none.
pub open spec fn amount_in(text: Seq<char>) -> nat {
    if is_amount(text) {
        digits_value(digits_of(text))
    } else {
        0
    }
}

/// A number written with more digits is not smaller.
proof fn lemma_digits_value_grows(digits: Seq<char>, n: int)
    requires
        0 <= n <= digits.len(),
        forall|i: int| 0 <= i < digits.len() ==> is_digit(#[trigger] digits[i]),
    ensures
        digits_value(digits.take(n)) <= digits_value(digits),
    decreases digits.len() - n,
{
    if n == digits.len() {
        assert(digits.take(n) =~= digits);
    } else {
        lemma_digits_value_grows(digits.drop_last(), n);
        assert(digits.drop_last().take(n) =~= digits.take(n));
    }
}

/// Reads the amount in a form field. Text that writes no amount counts
/// as 0.
pub fn amount_from_text(text: &str) -> (amount: u64)
    ensures
        amount == amount_in(text@),
{
    if !text.is_ascii() {
        proof {
            let digits = digits_of(text@);
            if digits.len() > 0 && forall|i: int|
                0 <= i < digits.len() ==> is_digit(#[trigger] digits[i]) {
                assert forall|i: int| 0 <= i < text@.len() implies '\0' <= (
                #[trigger] text@[i]) <= '\u{7f}' by {
                    if text@.len() > 0 && text@[0] == '+' {
                        if i > 0 {
                            assert(is_digit(digits[i - 1]));
                        }
                    } else {
                        assert(is_digit(digits[i]));
                    }
                }
                assert(vstd::utf8::is_ascii_chars(text@));
            }
        }
        return 0;
    }
    let len = text.unicode_len();
    let start: usize = if len > 0 && text.get_ascii(0) == PLUS {
        1
    } else {
        0
    };
    let ghost digits = digits_of(text@);
    assert(digits =~= text@.subrange(start as int, len as int));
    if start == len {
        return 0;
    }
    let mut value: u64 = 0;
    let mut i: usize = start;
    while i < len
        invariant
            text.is_ascii(),
            len == text@.len(),
            start <= i <= len,
            digits == digits_of(text@),
            digits == text@.subrange(start as int, len as int),
            value == digits_value(digits.take(i - start)),
            forall|k: int| 0 <= k < i - start ==> is_digit(#[trigger] digits[k]),
        decreases len - i,
    {
        let byte = text.get_ascii(i);
        assert(digits[i - start] == text@[i as int]);
        if byte < ZERO || byte > NINE {
            assert(!is_digit(digits[i - start]));
            return 0;
        }
        let digit = (byte - ZERO) as u64;
        proof {
            let longer = digits.take(i - start + 1);
            assert(longer.drop_last() =~= digits.take(i - start));
            assert(longer.last() == digits[i - start]);
            assert(digits_value(longer) == value * 10 + digit);
            if is_amount(text@) {
                lemma_digits_value_grows(digits, i - start + 1);
            }
        }
        let tens = match value.checked_mul(10) {
            Some(tens) => tens,
            None => {
                return 0;
            },
        };
        value = match tens.checked_add(digit) {
            Some(sum) => sum,
            None => {
                return 0;
            },
        };
        i = i + 1;
    }
    assert(digits.take(i - start) =~= digits);
    value
}

} // verus!
