//! Token amounts as they travel inside a hello message: the decimal digits
//! of a `u64`, in ASCII.

use vstd::prelude::*;

verus! {

/// Whether `byte` is one of the ASCII digits `0` to `9`.
pub open spec fn is_digit(byte: u8) -> bool {
    48 <= byte <= 57
}

/// Whether `text` consists of ASCII digits only.
pub open spec fn all_digits(text: Seq<u8>) -> bool {
    forall|i: int| 0 <= i < text.len() ==> is_digit(#[trigger] text[i])
}

/// What the digit `byte` counts for; a byte that is no digit counts for zero.
pub open spec fn digit_value(byte: u8) -> nat {
    if is_digit(byte) {
        (byte - 48) as nat
    } else {
        0
    }
}

/// The number that `text` writes in base ten, most significant digit first.
pub open spec fn decimal_value(text: Seq<u8>) -> nat
    decreases text.len(),
{
    if text.len() == 0 {
        0
    } else {
        10 * decimal_value(text.drop_last()) + digit_value(text.last())
    }
}

/// The amount that `text` stands for: `text` must be one or more ASCII
/// digits, and the number they write must fit in a `u64`. No sign, no blank
/// and no separator is accepted; leading zeros are.
pub open spec fn parsed_amount(text: Seq<u8>) -> Option<u64> {
    if text.len() > 0 && all_digits(text) && decimal_value(text) <= u64::MAX {
        Some(decimal_value(text) as u64)
    } else {
        None
    }
}

/// A text is worth at least as much as any of its beginnings.
pub proof fn lemma_decimal_value_grows(text: Seq<u8>, n: int)
    requires
        0 <= n <= text.len(),
    ensures
        decimal_value(text.take(n)) <= decimal_value(text),
    decreases text.len() - n,
{
    if n == text.len() {
        assert(text.take(n) =~= text);
    } else {
        lemma_decimal_value_grows(text.drop_last(), n);
        assert(text.drop_last().take(n) =~= text.take(n));
    }
}

/// Reads a token amount from its decimal text.
pub fn parse_amount(text: &[u8]) -> (amount: Option<u64>)
    ensures
        amount == parsed_amount(text@),
{
    let len = text.len();
    if len == 0 {
        return None;
    }
    let mut value: u64 = 0;
    let mut i: usize = 0;
    while i < len
        invariant
            i <= len,
            len == text@.len(),
            all_digits(text@.take(i as int)),
            value == decimal_value(text@.take(i as int)),
        decreases len - i,
    {
        let byte = text[i];
        proof {
            assert(text@.take(i + 1).drop_last() =~= text@.take(i as int));
            assert(text@.take(i + 1).last() == byte);
        }
        if byte < 48 || byte > 57 {
            return None;
        }
        let digit: u64 = (byte - 48) as u64;
        if value > (u64::MAX - digit) / 10 {
            proof {
                lemma_decimal_value_grows(text@, i + 1);
            }
            return None;
        }
        value = value * 10 + digit;
        i += 1;
        proof {
            assert forall|j: int| 0 <= j < i implies is_digit(#[trigger] text@.take(i as int)[j]) by {
                if j < i - 1 {
                    assert(text@.take(i - 1)[j] == text@[j]);
                }
            }
        }
    }
    proof {
        assert(text@.take(len as int) =~= text@);
    }
    Some(value)
}

} // verus!
