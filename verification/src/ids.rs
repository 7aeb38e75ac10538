//! Runtime identifiers: 128-bit UUID values and their canonical text.

use vstd::prelude::*;

verus! {

/// The lowercase hexadecimal digit for a value in `0..16`.
pub open spec fn hex_digit(n: int) -> char {
    if n < 10 {
        (n + 48) as char
    } else {
        (n + 87) as char
    }
}

/// The `width` lowest hexadecimal digits of `v`, most significant first.
pub open spec fn hex_of(v: nat, width: nat) -> Seq<char>
    decreases width,
{
    if width == 0 {
        seq![]
    } else {
        hex_of(v / 16, (width - 1) as nat).push(hex_digit((v % 16) as int))
    }
}

/// The 32 hexadecimal digits of an id.
pub open spec fn hex32(id: u128) -> Seq<char> {
    hex_of(id as nat, 32)
}

/// The hyphenated text of an id: `8-4-4-4-12` lowercase hexadecimal digits.
pub open spec fn hyphenated(id: u128) -> Seq<char> {
    let h = hex32(id);
    h.subrange(0, 8) + seq!['-'] + h.subrange(8, 12) + seq!['-'] + h.subrange(12, 16)
        + seq!['-'] + h.subrange(16, 20) + seq!['-'] + h.subrange(20, 32)
}

/// An id generated as a random (version 4, RFC 4122 variant) UUID.
pub open spec fn is_v4(id: u128) -> bool {
    &&& (id >> 76u128) & 0xfu128 == 4u128
    &&& (id >> 62u128) & 0x3u128 == 2u128
}

/// Wraps `uuid::Uuid::to_string` (its `Display`, which is the hyphenated,
/// lowercase form) on the UUID whose big-endian value is `id`.
#[verifier::external_body]
pub(crate) fn uuid_text(id: u128) -> (text: String)
    ensures
        text@ == hyphenated(id),
{
    uuid::Uuid::from_u128(id).to_string()
}

/// Wraps `uuid::Uuid::new_v4`: a random id whose version nibble is 4 and whose
/// variant bits are `10`. Which random value comes back is not stated.
#[verifier::external_body]
pub(crate) fn random_v4() -> (id: u128)
    ensures
        is_v4(id),
{
    uuid::Uuid::new_v4().as_u128()
}

pub proof fn lemma_hex_of_len(v: nat, width: nat)
    ensures
        hex_of(v, width).len() == width,
    decreases width,
{
    if width > 0 {
        lemma_hex_of_len(v / 16, (width - 1) as nat);
    }
}

proof fn lemma_hex_digit_injective(a: int, b: int)
    requires
        0 <= a < 16,
        0 <= b < 16,
        hex_digit(a) == hex_digit(b),
    ensures
        a == b,
{
}

pub open spec fn pow16(n: nat) -> nat
    decreases n,
{
    if n == 0 {
        1
    } else {
        16 * pow16((n - 1) as nat)
    }
}

/// Equal digit strings of the same width come from equal values below `16^width`.
pub proof fn lemma_hex_of_injective(a: nat, b: nat, width: nat)
    requires
        a < pow16(width),
        b < pow16(width),
        hex_of(a, width) == hex_of(b, width),
    ensures
        a == b,
    decreases width,
{
    if width > 0 {
        let w = (width - 1) as nat;
        let ha = hex_of(a / 16, w);
        let hb = hex_of(b / 16, w);
        lemma_hex_of_len(a / 16, w);
        lemma_hex_of_len(b / 16, w);
        assert(hex_of(a, width).last() == hex_digit((a % 16) as int));
        assert(hex_of(b, width).last() == hex_digit((b % 16) as int));
        lemma_hex_digit_injective((a % 16) as int, (b % 16) as int);
        assert(ha =~= hex_of(a, width).drop_last());
        assert(hb =~= hex_of(b, width).drop_last());
        lemma_hex_of_injective(a / 16, b / 16, w);
    }
}

pub proof fn lemma_u128_below_pow16_32(id: u128)
    ensures
        (id as nat) < pow16(32),
{
    reveal_with_fuel(pow16, 33);
    assert(pow16(32) == 0x1_0000_0000_0000_0000_0000_0000_0000_0000nat);
}

/// Distinct ids have distinct hyphenated texts.
pub proof fn lemma_hyphenated_injective(a: u128, b: u128)
    requires
        hyphenated(a) == hyphenated(b),
    ensures
        a == b,
{
    let ha = hex32(a);
    let hb = hex32(b);
    lemma_hex_of_len(a as nat, 32);
    lemma_hex_of_len(b as nat, 32);
    let ta = hyphenated(a);
    let tb = hyphenated(b);
    assert forall|i: int| 0 <= i < 32 implies ha[i] == hb[i] by {
        let j = if i < 8 { i } else if i < 12 { i + 1 } else if i < 16 { i + 2 } else if i < 20 { i + 3 } else { i + 4 };
        assert(ta[j] == ha[i]);
        assert(tb[j] == hb[i]);
    }
    assert(ha =~= hb);
    lemma_u128_below_pow16_32(a);
    lemma_u128_below_pow16_32(b);
    lemma_hex_of_injective(a as nat, b as nat, 32);
}

} // verus!
