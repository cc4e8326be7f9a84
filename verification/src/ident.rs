//! The identifiers under which files are stored: 128-bit numbers, drawn at
//! random, written as hyphenated lower-case hexadecimal.

use vstd::prelude::*;

verus! {

/// The identifier of a stored file.
#[derive(Debug, Copy, Clone, PartialEq, Eq, Hash, Structural)]
pub struct FileId {
    /// The identifier as a number; its first hexadecimal digit in writing is
    /// the most significant one.
    pub value: u128,
}

/// The character of the hexadecimal digit `d`, in lower case.
pub open spec fn hex_char(d: u128) -> char {
    if d < 10 {
        (48 + d) as char
    } else {
        (87 + d) as char
    }
}

/// The hexadecimal digit of `value` at position `k`, counted from the most
/// significant of its 32 digits.
pub open spec fn hex_digit(value: u128, k: int) -> u128 {
    (value >> ((4 * (31 - k)) as u128)) & 0xf
}

/// The number of hyphens that stand before position `i` of the text.
pub open spec fn hyphens_before(i: int) -> int {
    if i < 8 {
        0int
    } else if i < 13 {
        1int
    } else if i < 18 {
        2int
    } else if i < 23 {
        3int
    } else {
        4int
    }
}

/// The canonical text of an identifier: 32 hexadecimal digits in groups of
/// 8, 4, 4, 4 and 12, with a hyphen between two groups.
pub open spec fn hyphenated(value: u128) -> Seq<char> {
    Seq::new(
        36,
        |i: int|
            if i == 8 || i == 13 || i == 18 || i == 23 {
                '-'
            } else {
                hex_char(hex_digit(value, i - hyphens_before(i)))
            },
    )
}

/// The marks of an identifier that was drawn at random: version 4 in the
/// thirteenth digit, and the two highest bits of the seventeenth are 1 and 0.
pub open spec fn is_random_id(value: u128) -> bool {
    &&& (value >> 76) & 0xf == 4
    &&& (value >> 62) & 0x3 == 2
}

/// Draws an identifier with `uuid::Uuid::new_v4`, which fills all bits from
/// the system's random source but those of version and variant. Nothing is
/// said of the other bits: two calls may give any two values.
#[verifier::external_body]
fn random_value() -> (value: u128)
    ensures
        is_random_id(value),
{
    uuid::Uuid::new_v4().as_u128()
}

/// Writes an identifier as `uuid::Uuid` displays it: hyphenated, in lower
/// case.
#[verifier::external_body]
fn hyphenated_text(value: u128) -> (text: String)
    ensures
        text@ == hyphenated(value),
{
    uuid::Uuid::from_u128(value).to_string()
}

/// The position in the text of the digit at position `k` of the number.
pub open spec fn text_position(k: int) -> int {
    if k < 8 {
        k
    } else if k < 12 {
        k + 1
    } else if k < 16 {
        k + 2
    } else if k < 20 {
        k + 3
    } else {
        k + 4
    }
}

/// Two hexadecimal digits that are written alike are the same digit.
proof fn lemma_hex_char_injective(c: u128, d: u128)
    requires
        c < 16,
        d < 16,
        hex_char(c) == hex_char(d),
    ensures
        c == d,
{
}

/// A hexadecimal digit is below 16.
proof fn lemma_hex_digit_bound(value: u128, shift: u128)
    ensures
        (value >> shift) & 0xf < 16,
{
    assert((value >> shift) & 0xf < 16) by (bit_vector);
}

/// Two numbers that agree in all 32 hexadecimal digits are equal.
proof fn lemma_digits_fix_the_number(a: u128, b: u128)
    requires
        forall|k: int| 0 <= k < 32 ==> hex_digit(a, k) == hex_digit(b, k),
    ensures
        a == b,
{
    assert(hex_digit(a, 0) == (a >> 124u128) & 0xf && hex_digit(b, 0) == (b >> 124u128) & 0xf);
    assert(hex_digit(a, 1) == (a >> 120u128) & 0xf && hex_digit(b, 1) == (b >> 120u128) & 0xf);
    assert(hex_digit(a, 2) == (a >> 116u128) & 0xf && hex_digit(b, 2) == (b >> 116u128) & 0xf);
    assert(hex_digit(a, 3) == (a >> 112u128) & 0xf && hex_digit(b, 3) == (b >> 112u128) & 0xf);
    assert(hex_digit(a, 4) == (a >> 108u128) & 0xf && hex_digit(b, 4) == (b >> 108u128) & 0xf);
    assert(hex_digit(a, 5) == (a >> 104u128) & 0xf && hex_digit(b, 5) == (b >> 104u128) & 0xf);
    assert(hex_digit(a, 6) == (a >> 100u128) & 0xf && hex_digit(b, 6) == (b >> 100u128) & 0xf);
    assert(hex_digit(a, 7) == (a >> 96u128) & 0xf && hex_digit(b, 7) == (b >> 96u128) & 0xf);
    assert(hex_digit(a, 8) == (a >> 92u128) & 0xf && hex_digit(b, 8) == (b >> 92u128) & 0xf);
    assert(hex_digit(a, 9) == (a >> 88u128) & 0xf && hex_digit(b, 9) == (b >> 88u128) & 0xf);
    assert(hex_digit(a, 10) == (a >> 84u128) & 0xf && hex_digit(b, 10) == (b >> 84u128) & 0xf);
    assert(hex_digit(a, 11) == (a >> 80u128) & 0xf && hex_digit(b, 11) == (b >> 80u128) & 0xf);
    assert(hex_digit(a, 12) == (a >> 76u128) & 0xf && hex_digit(b, 12) == (b >> 76u128) & 0xf);
    assert(hex_digit(a, 13) == (a >> 72u128) & 0xf && hex_digit(b, 13) == (b >> 72u128) & 0xf);
    assert(hex_digit(a, 14) == (a >> 68u128) & 0xf && hex_digit(b, 14) == (b >> 68u128) & 0xf);
    assert(hex_digit(a, 15) == (a >> 64u128) & 0xf && hex_digit(b, 15) == (b >> 64u128) & 0xf);
    assert(hex_digit(a, 16) == (a >> 60u128) & 0xf && hex_digit(b, 16) == (b >> 60u128) & 0xf);
    assert(hex_digit(a, 17) == (a >> 56u128) & 0xf && hex_digit(b, 17) == (b >> 56u128) & 0xf);
    assert(hex_digit(a, 18) == (a >> 52u128) & 0xf && hex_digit(b, 18) == (b >> 52u128) & 0xf);
    assert(hex_digit(a, 19) == (a >> 48u128) & 0xf && hex_digit(b, 19) == (b >> 48u128) & 0xf);
    assert(hex_digit(a, 20) == (a >> 44u128) & 0xf && hex_digit(b, 20) == (b >> 44u128) & 0xf);
    assert(hex_digit(a, 21) == (a >> 40u128) & 0xf && hex_digit(b, 21) == (b >> 40u128) & 0xf);
    assert(hex_digit(a, 22) == (a >> 36u128) & 0xf && hex_digit(b, 22) == (b >> 36u128) & 0xf);
    assert(hex_digit(a, 23) == (a >> 32u128) & 0xf && hex_digit(b, 23) == (b >> 32u128) & 0xf);
    assert(hex_digit(a, 24) == (a >> 28u128) & 0xf && hex_digit(b, 24) == (b >> 28u128) & 0xf);
    assert(hex_digit(a, 25) == (a >> 24u128) & 0xf && hex_digit(b, 25) == (b >> 24u128) & 0xf);
    assert(hex_digit(a, 26) == (a >> 20u128) & 0xf && hex_digit(b, 26) == (b >> 20u128) & 0xf);
    assert(hex_digit(a, 27) == (a >> 16u128) & 0xf && hex_digit(b, 27) == (b >> 16u128) & 0xf);
    assert(hex_digit(a, 28) == (a >> 12u128) & 0xf && hex_digit(b, 28) == (b >> 12u128) & 0xf);
    assert(hex_digit(a, 29) == (a >> 8u128) & 0xf && hex_digit(b, 29) == (b >> 8u128) & 0xf);
    assert(hex_digit(a, 30) == (a >> 4u128) & 0xf && hex_digit(b, 30) == (b >> 4u128) & 0xf);
    assert(hex_digit(a, 31) == (a >> 0u128) & 0xf && hex_digit(b, 31) == (b >> 0u128) & 0xf);
    assert(a == b) by (bit_vector)
        requires
        (a >> 124u128) & 0xf == (b >> 124u128) & 0xf,
        (a >> 120u128) & 0xf == (b >> 120u128) & 0xf,
        (a >> 116u128) & 0xf == (b >> 116u128) & 0xf,
        (a >> 112u128) & 0xf == (b >> 112u128) & 0xf,
        (a >> 108u128) & 0xf == (b >> 108u128) & 0xf,
        (a >> 104u128) & 0xf == (b >> 104u128) & 0xf,
        (a >> 100u128) & 0xf == (b >> 100u128) & 0xf,
        (a >> 96u128) & 0xf == (b >> 96u128) & 0xf,
        (a >> 92u128) & 0xf == (b >> 92u128) & 0xf,
        (a >> 88u128) & 0xf == (b >> 88u128) & 0xf,
        (a >> 84u128) & 0xf == (b >> 84u128) & 0xf,
        (a >> 80u128) & 0xf == (b >> 80u128) & 0xf,
        (a >> 76u128) & 0xf == (b >> 76u128) & 0xf,
        (a >> 72u128) & 0xf == (b >> 72u128) & 0xf,
        (a >> 68u128) & 0xf == (b >> 68u128) & 0xf,
        (a >> 64u128) & 0xf == (b >> 64u128) & 0xf,
        (a >> 60u128) & 0xf == (b >> 60u128) & 0xf,
        (a >> 56u128) & 0xf == (b >> 56u128) & 0xf,
        (a >> 52u128) & 0xf == (b >> 52u128) & 0xf,
        (a >> 48u128) & 0xf == (b >> 48u128) & 0xf,
        (a >> 44u128) & 0xf == (b >> 44u128) & 0xf,
        (a >> 40u128) & 0xf == (b >> 40u128) & 0xf,
        (a >> 36u128) & 0xf == (b >> 36u128) & 0xf,
        (a >> 32u128) & 0xf == (b >> 32u128) & 0xf,
        (a >> 28u128) & 0xf == (b >> 28u128) & 0xf,
        (a >> 24u128) & 0xf == (b >> 24u128) & 0xf,
        (a >> 20u128) & 0xf == (b >> 20u128) & 0xf,
        (a >> 16u128) & 0xf == (b >> 16u128) & 0xf,
        (a >> 12u128) & 0xf == (b >> 12u128) & 0xf,
        (a >> 8u128) & 0xf == (b >> 8u128) & 0xf,
        (a >> 4u128) & 0xf == (b >> 4u128) & 0xf,
        (a >> 0u128) & 0xf == (b >> 0u128) & 0xf,
    ;
}

/// No two identifiers are written alike: each file has a name of its own,
/// so that what is stored for one identifier is never mixed with what is
/// stored for another.
pub proof fn lemma_text_tells_identifiers_apart(a: FileId, b: FileId)
    requires
        hyphenated(a.value) == hyphenated(b.value),
    ensures
        a == b,
{
    assert forall|k: int| 0 <= k < 32 implies hex_digit(a.value, k) == hex_digit(b.value, k) by {
        let i = text_position(k);
        assert(hyphenated(a.value)[i] == hex_char(hex_digit(a.value, k)));
        assert(hyphenated(b.value)[i] == hex_char(hex_digit(b.value, k)));
        lemma_hex_digit_bound(a.value, (4 * (31 - k)) as u128);
        lemma_hex_digit_bound(b.value, (4 * (31 - k)) as u128);
        lemma_hex_char_injective(hex_digit(a.value, k), hex_digit(b.value, k));
    }
    lemma_digits_fix_the_number(a.value, b.value);
}

impl FileId {
    /// A fresh identifier, drawn at random.
    pub fn generate() -> (id: FileId)
        ensures
            is_random_id(id.value),
    {
        FileId { value: random_value() }
    }

    /// The identifier that is the number `value`.
    pub fn from_u128(value: u128) -> (id: FileId)
        ensures
            id.value == value,
    {
        FileId { value }
    }

    /// The identifier as a number.
    pub fn as_u128(&self) -> (value: u128)
        ensures
            value == self.value,
    {
        self.value
    }

    /// The canonical text of the identifier. A file is stored under this
    /// name.
    pub fn to_string(&self) -> (text: String)
        ensures
            text@ == hyphenated(self.value),
            text@.len() == 36,
    {
        hyphenated_text(self.value)
    }
}

} // verus!
