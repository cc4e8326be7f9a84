//! Unsigned numbers written in decimal, as they stand in headers and
//! messages.

use vstd::prelude::*;
use vstd::utf8::{encode_utf8, is_ascii_chars, is_ascii_chars_encode_utf8};

verus! {

/// The character of the decimal digit `d`.
pub open spec fn digit_char(d: nat) -> char {
    (48 + d) as char
}

/// `n` written in decimal, without leading zeros.
pub open spec fn decimal(n: nat) -> Seq<char>
    decreases n,
{
    if n < 10 {
        seq![digit_char(n)]
    } else {
        decimal(n / 10).push(digit_char(n % 10))
    }
}

/// The number that a string of decimal digits spells.
pub open spec fn digits_value(digits: Seq<u8>) -> nat
    decreases digits.len(),
{
    if digits.len() == 0 {
        0
    } else {
        10 * digits_value(digits.drop_last()) + (digits.last() - 48) as nat
    }
}

/// Every byte of `digits` is an ASCII decimal digit.
pub open spec fn all_digits(digits: Seq<u8>) -> bool {
    forall|i: int| 0 <= i < digits.len() ==> 48 <= #[trigger] digits[i] <= 57
}

/// The digits of a number in `text`: what follows one leading plus sign, if
/// there is one.
pub open spec fn unsigned_part(text: Seq<u8>) -> Seq<u8> {
    if text.len() > 0 && text[0] == 43 {
        text.subrange(1, text.len() as int)
    } else {
        text
    }
}

/// The number that `text` holds: an optional plus sign and then one or more
/// decimal digits, whose value fits in 64 bits. Anything else holds none.
pub open spec fn parsed_decimal(text: Seq<u8>) -> Option<u64> {
    let digits = unsigned_part(text);
    if digits.len() > 0 && all_digits(digits) && digits_value(digits) <= u64::MAX {
        Some(digits_value(digits) as u64)
    } else {
        None
    }
}

/// A longer string of digits spells no smaller number than its start.
pub proof fn lemma_digits_value_grows(digits: Seq<u8>, k: int)
    requires
        all_digits(digits),
        0 <= k <= digits.len(),
    ensures
        digits_value(digits.subrange(0, k)) <= digits_value(digits),
    decreases digits.len() - k,
{
    if k == digits.len() {
        assert(digits.subrange(0, k) =~= digits);
    } else {
        let front = digits.drop_last();
        assert(front.subrange(0, k) =~= digits.subrange(0, k));
        assert(all_digits(front)) by {
            assert forall|i: int| 0 <= i < front.len() implies 48 <= #[trigger] front[i]
                <= 57 by {
                assert(front[i] == digits[i]);
            }
        }
        lemma_digits_value_grows(front, k);
        assert(48 <= digits[digits.len() - 1] <= 57);
    }
}

/// Reads a number in decimal.
pub fn parse_decimal(text: &[u8]) -> (number: Option<u64>)
    ensures
        number == parsed_decimal(text@),
{
    let start: usize = if text.len() > 0 && text[0] == 43 {
        1
    } else {
        0
    };
    let ghost digits = unsigned_part(text@);
    if start == text.len() {
        return None;
    }
    let mut value: u64 = 0;
    let mut i: usize = start;
    assert(digits.subrange(0, 0) =~= Seq::<u8>::empty());
    while i < text.len()
        invariant
            start <= i <= text@.len(),
            digits == text@.subrange(start as int, text@.len() as int),
            digits == unsigned_part(text@),
            value == digits_value(digits.subrange(0, i - start)),
            forall|j: int| 0 <= j < i - start ==> 48 <= #[trigger] digits[j] <= 57,
        decreases text@.len() - i,
    {
        let byte = text[i];
        assert(byte == digits[i - start]);
        if byte < 48 || byte > 57 {
            return None;
        }
        let digit = (byte - 48) as u64;
        proof {
            let next = digits.subrange(0, i - start + 1);
            assert(next.drop_last() =~= digits.subrange(0, i - start));
            assert(next.last() == byte);
        }
        if value > (u64::MAX - digit) / 10 {
            proof {
                let next = digits.subrange(0, i - start + 1);
                assert(digits_value(next) > u64::MAX);
                if all_digits(digits) {
                    lemma_digits_value_grows(digits, i - start + 1);
                }
            }
            return None;
        }
        value = value * 10 + digit;
        i = i + 1;
    }
    assert(digits.subrange(0, i - start) =~= digits);
    Some(value)
}

/// Appends one character to a string (`String::push`).
#[verifier::external_body]
pub(crate) fn push_char(text: &mut String, c: char)
    ensures
        final(text)@ == old(text)@.push(c),
{
    text.push(c)
}

/// Writes `n` in decimal.
pub fn to_decimal(n: u64) -> (text: String)
    ensures
        text@ == decimal(n as nat),
{
    let mut digits: Vec<u8> = Vec::new();
    let mut rest = n;
    while rest >= 10
        invariant
            forall|j: int| 0 <= j < digits@.len() ==> #[trigger] digits@[j] < 10,
            decimal(n as nat) == decimal(rest as nat) + low_digits(digits@),
        decreases rest,
    {
        let ghost before = digits@;
        digits.push((rest % 10) as u8);
        proof {
            assert(digits@.drop_last() =~= before);
            assert(decimal(rest as nat) == decimal((rest / 10) as nat).push(
                digit_char((rest % 10) as nat),
            ));
            assert(decimal(n as nat) =~= decimal((rest / 10) as nat) + low_digits(digits@));
        }
        rest = rest / 10;
    }
    let mut text = String::new();
    push_char(&mut text, (48 + rest as u8) as char);
    assert(text@ =~= decimal(rest as nat));
    let mut i: usize = digits.len();
    assert(digits@.subrange(0, i as int) =~= digits@);
    while i > 0
        invariant
            i <= digits@.len(),
            forall|j: int| 0 <= j < digits@.len() ==> #[trigger] digits@[j] < 10,
            text@ + low_digits(digits@.subrange(0, i as int)) == decimal(n as nat),
        decreases i,
    {
        i = i - 1;
        let digit = digits[i];
        proof {
            let upto = digits@.subrange(0, i + 1);
            assert(upto.drop_last() =~= digits@.subrange(0, i as int));
            assert(upto.last() == digit);
            assert(text@.push(digit_char(digit as nat)) + low_digits(
                digits@.subrange(0, i as int),
            ) =~= text@ + low_digits(upto));
        }
        push_char(&mut text, (48 + digit) as char);
    }
    assert(digits@.subrange(0, 0) =~= Seq::<u8>::empty());
    assert(text@ + low_digits(Seq::<u8>::empty()) =~= text@);
    text
}

/// The characters of a list of digits that was gathered from the least
/// significant digit up: the last of the list comes first.
pub open spec fn low_digits(digits: Seq<u8>) -> Seq<char>
    decreases digits.len(),
{
    if digits.len() == 0 {
        Seq::empty()
    } else {
        seq![digit_char(digits.last() as nat)] + low_digits(digits.drop_last())
    }
}

/// The characters of an ASCII text as bytes.
pub open spec fn ascii_bytes(text: Seq<char>) -> Seq<u8> {
    Seq::new(text.len(), |i: int| text[i] as u8)
}

/// A number in decimal is a string of digits that spells the number.
pub proof fn lemma_decimal_is_digits(n: nat)
    ensures
        decimal(n).len() > 0,
        is_ascii_chars(decimal(n)),
        all_digits(ascii_bytes(decimal(n))),
        digits_value(ascii_bytes(decimal(n))) == n,
    decreases n,
{
    let bytes = ascii_bytes(decimal(n));
    if n < 10 {
        assert(bytes.drop_last() =~= Seq::<u8>::empty());
        assert(digits_value(bytes.drop_last()) == 0);
        assert(bytes.last() == 48 + n);
    } else {
        lemma_decimal_is_digits(n / 10);
        let front = ascii_bytes(decimal(n / 10));
        assert(bytes.drop_last() =~= front);
        assert(bytes.last() == 48 + n % 10);
        assert forall|i: int| 0 <= i < bytes.len() implies 48 <= #[trigger] bytes[i] <= 57 by {
            if i < front.len() {
                assert(bytes[i] == front[i]);
            }
        }
        assert forall|i: int| 0 <= i < decimal(n).len() implies '\0' <= #[trigger] decimal(n)[i]
            <= '\u{7f}' by {
            if i < decimal(n / 10).len() {
                assert(decimal(n)[i] == decimal(n / 10)[i]);
            }
        }
    }
}

/// What is written for a number is read as that number.
pub proof fn lemma_decimal_round_trip(n: u64)
    ensures
        parsed_decimal(encode_utf8(decimal(n as nat))) == Some(n),
{
    let text = decimal(n as nat);
    lemma_decimal_is_digits(n as nat);
    is_ascii_chars_encode_utf8(text);
    assert(encode_utf8(text) =~= ascii_bytes(text));
    let bytes = ascii_bytes(text);
    assert(48 <= bytes[0] <= 57);
    assert(unsigned_part(bytes) == bytes);
}

} // verus!
