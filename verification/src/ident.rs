//! Transaction identifiers: random 128-bit numbers and their text form.

use vstd::prelude::*;

verus! {

/// The bits that every identifier of version 4 has in common: the four bits
/// of the version and the two bits of the variant.
pub const V4_MASK: u128 = 0x0000_0000_0000_f000_c000_0000_0000_0000;

/// The value of those bits: version 4, and the variant of RFC 9562.
pub const V4_BITS: u128 = 0x0000_0000_0000_4000_8000_0000_0000_0000;

/// Length of an identifier's text form.
pub const TEXT_LEN: usize = 36;

/// The value is a random identifier of version 4: its version and variant bits
/// are set, and the other 122 bits are free.
pub open spec fn is_random_v4(value: u128) -> bool {
    value & V4_MASK == V4_BITS
}

/// The lower-case hexadecimal digit for a number from 0 to 15.
pub open spec fn hex_digit(n: int) -> char {
    seq!['0', '1', '2', '3', '4', '5', '6', '7', '8', '9', 'a', 'b', 'c', 'd', 'e', 'f'][n]
}

/// The `k`-th group of four bits of a value, counted from the top: 0 to 31.
pub open spec fn nibble(value: u128, k: int) -> int {
    ((value >> ((124 - 4 * k) as u128)) & 0xf) as int
}

/// Where the text form has a hyphen.
pub open spec fn is_hyphen_at(i: int) -> bool {
    i == 8 || i == 13 || i == 18 || i == 23
}

/// Which group of four bits the character at position `i` of the text form
/// stands for, where that character is no hyphen.
pub open spec fn digit_at(i: int) -> int {
    if i < 8 {
        i
    } else if i < 13 {
        i - 1
    } else if i < 18 {
        i - 2
    } else if i < 23 {
        i - 3
    } else {
        i - 4
    }
}

/// The text form of an identifier: its 32 hexadecimal digits in lower case,
/// from the top, in groups of 8, 4, 4, 4 and 12 with a hyphen between them.
pub open spec fn hyphenated(value: u128) -> Seq<char> {
    Seq::new(
        TEXT_LEN as nat,
        |i: int|
            if is_hyphen_at(i) {
                '-'
            } else {
                hex_digit(nibble(value, digit_at(i)))
            },
    )
}

/// A fresh random identifier.
///
/// Calls `uuid::Uuid::new_v4` and takes the result as a number, with
/// `uuid::Uuid::as_u128`. `new_v4` draws 128 random bits from the operating
/// system and then sets the version to 4 and the variant to that of RFC 9562.
/// Only those six bits are claimed of the result: which identifier comes back
/// is left open, and two calls may or may not differ. Where the operating
/// system has no random bits to give, `new_v4` panics.
#[verifier::external_body]
pub(crate) fn random_v4() -> (value: u128)
    ensures
        is_random_v4(value),
{
    uuid::Uuid::new_v4().as_u128()
}

/// The text form of an identifier.
///
/// Makes the `uuid::Uuid` of the value, with `uuid::Uuid::from_u128`, and
/// calls `to_string` on it. That writes the sixteen bytes, from the top, as
/// 32 lower-case hexadecimal digits, with a hyphen after the 8th, 12th, 16th
/// and 20th digit: what [`hyphenated`] says.
#[verifier::external_body]
pub(crate) fn text_of(value: u128) -> (text: String)
    ensures
        text@ == hyphenated(value),
{
    uuid::Uuid::from_u128(value).to_string()
}

/// Every group of four bits is a number from 0 to 15.
proof fn lemma_nibble_range(value: u128, k: int)
    requires
        0 <= k < 32,
    ensures
        0 <= nibble(value, k) < 16,
{
    let shift = (124 - 4 * k) as u128;
    assert((value >> shift) & 0xf < 16) by (bit_vector);
}

/// The text form is made of 36 characters: hyphens at positions 8, 13, 18 and
/// 23, and lower-case hexadecimal digits everywhere else.
pub proof fn lemma_text_shape(value: u128)
    ensures
        hyphenated(value).len() == 36,
        forall|i: int|
            0 <= i < 36 ==> (#[trigger] hyphenated(value)[i] == '-' <==> is_hyphen_at(i)),
        forall|i: int|
            0 <= i < 36 && !is_hyphen_at(i) ==> {
                let c = #[trigger] hyphenated(value)[i];
                ('0' <= c <= '9') || ('a' <= c <= 'f')
            },
{
    assert forall|i: int| 0 <= i < 36 && !is_hyphen_at(i) implies {
        let c = #[trigger] hyphenated(value)[i];
        c != '-' && (('0' <= c <= '9') || ('a' <= c <= 'f'))
    } by {
        lemma_nibble_range(value, digit_at(i));
    }
}

/// The text form of a random identifier of version 4 shows the version as
/// its 13th digit and the variant in its 17th.
pub proof fn lemma_v4_text(value: u128)
    requires
        is_random_v4(value),
    ensures
        hyphenated(value)[14] == '4',
        hyphenated(value)[19] == '8' || hyphenated(value)[19] == '9' || hyphenated(value)[19]
            == 'a' || hyphenated(value)[19] == 'b',
{
    assert((value >> 76) & 0xf == 4 && 8 <= (value >> 60) & 0xf <= 11) by (bit_vector)
        requires
            value & V4_MASK == V4_BITS,
    ;
    assert(nibble(value, 12) == 4);
    assert(8 <= nibble(value, 16) <= 11);
}

/// Where in the text form the `k`-th group of four bits is written.
pub open spec fn position_of(k: int) -> int {
    if k < 8 {
        k
    } else if k < 12 {
        k + 1
    } else if k < 16 {
        k + 2
    } else if k < 20 {
        k + 3
    } else {
        k + 4
    }
}

/// Two different numbers from 0 to 15 have different digits.
proof fn lemma_hex_digit_injective(m: int, n: int)
    requires
        0 <= m < 16,
        0 <= n < 16,
        hex_digit(m) == hex_digit(n),
    ensures
        m == n,
{
}

/// Two identifiers with the same text form are the same identifier: no two
/// of the `2^128` values are written alike.
pub proof fn lemma_text_injective(a: u128, b: u128)
    requires
        hyphenated(a) == hyphenated(b),
    ensures
        a == b,
{
    assert forall|k: int| 0 <= k < 32 implies nibble(a, k) == nibble(b, k) by {
        let i = position_of(k);
        assert(digit_at(i) == k && !is_hyphen_at(i));
        assert(hyphenated(a)[i] == hex_digit(nibble(a, k)));
        assert(hyphenated(b)[i] == hex_digit(nibble(b, k)));
        lemma_nibble_range(a, k);
        lemma_nibble_range(b, k);
        lemma_hex_digit_injective(nibble(a, k), nibble(b, k));
    }
    assert(nibble(a, 0) == nibble(b, 0));
    assert(nibble(a, 1) == nibble(b, 1));
    assert(nibble(a, 2) == nibble(b, 2));
    assert(nibble(a, 3) == nibble(b, 3));
    assert(nibble(a, 4) == nibble(b, 4));
    assert(nibble(a, 5) == nibble(b, 5));
    assert(nibble(a, 6) == nibble(b, 6));
    assert(nibble(a, 7) == nibble(b, 7));
    assert(nibble(a, 8) == nibble(b, 8));
    assert(nibble(a, 9) == nibble(b, 9));
    assert(nibble(a, 10) == nibble(b, 10));
    assert(nibble(a, 11) == nibble(b, 11));
    assert(nibble(a, 12) == nibble(b, 12));
    assert(nibble(a, 13) == nibble(b, 13));
    assert(nibble(a, 14) == nibble(b, 14));
    assert(nibble(a, 15) == nibble(b, 15));
    assert(nibble(a, 16) == nibble(b, 16));
    assert(nibble(a, 17) == nibble(b, 17));
    assert(nibble(a, 18) == nibble(b, 18));
    assert(nibble(a, 19) == nibble(b, 19));
    assert(nibble(a, 20) == nibble(b, 20));
    assert(nibble(a, 21) == nibble(b, 21));
    assert(nibble(a, 22) == nibble(b, 22));
    assert(nibble(a, 23) == nibble(b, 23));
    assert(nibble(a, 24) == nibble(b, 24));
    assert(nibble(a, 25) == nibble(b, 25));
    assert(nibble(a, 26) == nibble(b, 26));
    assert(nibble(a, 27) == nibble(b, 27));
    assert(nibble(a, 28) == nibble(b, 28));
    assert(nibble(a, 29) == nibble(b, 29));
    assert(nibble(a, 30) == nibble(b, 30));
    assert(nibble(a, 31) == nibble(b, 31));
    assert(a == b) by (bit_vector)
        requires
            (a >> 124) & 0xf == (b >> 124) & 0xf,
            (a >> 120) & 0xf == (b >> 120) & 0xf,
            (a >> 116) & 0xf == (b >> 116) & 0xf,
            (a >> 112) & 0xf == (b >> 112) & 0xf,
            (a >> 108) & 0xf == (b >> 108) & 0xf,
            (a >> 104) & 0xf == (b >> 104) & 0xf,
            (a >> 100) & 0xf == (b >> 100) & 0xf,
            (a >> 96) & 0xf == (b >> 96) & 0xf,
            (a >> 92) & 0xf == (b >> 92) & 0xf,
            (a >> 88) & 0xf == (b >> 88) & 0xf,
            (a >> 84) & 0xf == (b >> 84) & 0xf,
            (a >> 80) & 0xf == (b >> 80) & 0xf,
            (a >> 76) & 0xf == (b >> 76) & 0xf,
            (a >> 72) & 0xf == (b >> 72) & 0xf,
            (a >> 68) & 0xf == (b >> 68) & 0xf,
            (a >> 64) & 0xf == (b >> 64) & 0xf,
            (a >> 60) & 0xf == (b >> 60) & 0xf,
            (a >> 56) & 0xf == (b >> 56) & 0xf,
            (a >> 52) & 0xf == (b >> 52) & 0xf,
            (a >> 48) & 0xf == (b >> 48) & 0xf,
            (a >> 44) & 0xf == (b >> 44) & 0xf,
            (a >> 40) & 0xf == (b >> 40) & 0xf,
            (a >> 36) & 0xf == (b >> 36) & 0xf,
            (a >> 32) & 0xf == (b >> 32) & 0xf,
            (a >> 28) & 0xf == (b >> 28) & 0xf,
            (a >> 24) & 0xf == (b >> 24) & 0xf,
            (a >> 20) & 0xf == (b >> 20) & 0xf,
            (a >> 16) & 0xf == (b >> 16) & 0xf,
            (a >> 12) & 0xf == (b >> 12) & 0xf,
            (a >> 8) & 0xf == (b >> 8) & 0xf,
            (a >> 4) & 0xf == (b >> 4) & 0xf,
            (a >> 0) & 0xf == (b >> 0) & 0xf,
    ;
}

} // verus!
