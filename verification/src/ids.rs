//! Account, conversation and message identifiers. An identifier is the 128-bit
//! value of a UUID; its text form is the lowercase hyphenated UUID that the
//! `uuid` crate prints.
use vstd::prelude::*;
use vstd::arithmetic::power::pow;

verus! {

/// The lowercase hexadecimal digit for a value below 16.
pub open spec fn hex_digit(n: int) -> char {
    seq!['0', '1', '2', '3', '4', '5', '6', '7', '8', '9', 'a', 'b', 'c', 'd', 'e', 'f'][n]
}

/// The `i`-th of the 32 hexadecimal digits of an identifier, most significant first.
pub open spec fn uuid_nibble(id: u128, i: int) -> int {
    (id as int / pow(16, (31 - i) as nat)) % 16
}

/// How many hyphens precede position `k` of the hyphenated text form.
pub open spec fn hyphens_before(k: int) -> int {
    if k < 8 {
        0
    } else if k < 13 {
        1
    } else if k < 18 {
        2
    } else if k < 23 {
        3
    } else {
        4
    }
}

/// The hyphenated text form `xxxxxxxx-xxxx-xxxx-xxxx-xxxxxxxxxxxx` of an
/// identifier: its 32 lowercase hexadecimal digits with hyphens after the
/// 8th, 12th, 16th and 20th digit.
pub open spec fn uuid_text(id: u128) -> Seq<char> {
    Seq::new(
        36,
        |k: int|
            if k == 8 || k == 13 || k == 18 || k == 23 {
                '-'
            } else {
                hex_digit(uuid_nibble(id, k - hyphens_before(k)))
            },
    )
}

/// Distinct hexadecimal digit values have distinct characters.
proof fn lemma_hex_digit_injective(x: int, y: int)
    requires
        0 <= x < 16,
        0 <= y < 16,
        hex_digit(x) == hex_digit(y),
    ensures
        x == y,
{
    let d = seq!['0', '1', '2', '3', '4', '5', '6', '7', '8', '9', 'a', 'b', 'c', 'd', 'e', 'f'];
    assert(d[0] == '0' && d[1] == '1' && d[2] == '2' && d[3] == '3' && d[4] == '4' && d[5] == '5'
        && d[6] == '6' && d[7] == '7' && d[8] == '8' && d[9] == '9' && d[10] == 'a' && d[11] == 'b'
        && d[12] == 'c' && d[13] == 'd' && d[14] == 'e' && d[15] == 'f');
}

/// The position in the text form of the `i`-th hexadecimal digit.
pub open spec fn digit_position(i: int) -> int {
    if i < 8 {
        i
    } else if i < 12 {
        i + 1
    } else if i < 16 {
        i + 2
    } else if i < 20 {
        i + 3
    } else {
        i + 4
    }
}

/// The value made of the first `k` hexadecimal digits of an identifier.
pub open spec fn uuid_prefix_value(id: u128, k: nat) -> int
    decreases k,
{
    if k == 0 {
        0
    } else {
        uuid_prefix_value(id, (k - 1) as nat) * 16 + uuid_nibble(id, k - 1)
    }
}

/// The first `k` digits make up the identifier divided by `16^(32-k)`.
proof fn lemma_prefix_value(id: u128, k: nat)
    requires
        k <= 32,
    ensures
        uuid_prefix_value(id, k) == id as int / pow(16, (32 - k) as nat),
    decreases k,
{
    let x = id as int;
    if k == 0 {
        vstd::arithmetic::power::lemma_pow_positive(16, 32);
        assert(pow(16, 32) == 0x1_0000_0000_0000_0000_0000_0000_0000_0000) by {
            vstd::arithmetic::power::lemma_pow1(16);
            vstd::arithmetic::power::lemma_pow_adds(16, 1, 1);
            assert(pow(16, 2) == 256);
            vstd::arithmetic::power::lemma_pow_adds(16, 2, 2);
            assert(pow(16, 4) == 65536);
            vstd::arithmetic::power::lemma_pow_adds(16, 4, 4);
            assert(pow(16, 8) == 0x1_0000_0000);
            vstd::arithmetic::power::lemma_pow_adds(16, 8, 8);
            assert(pow(16, 16) == 0x1_0000_0000_0000_0000);
            vstd::arithmetic::power::lemma_pow_adds(16, 16, 16);
        }
        vstd::arithmetic::div_mod::lemma_basic_div(x, pow(16, 32));
    } else {
        lemma_prefix_value(id, (k - 1) as nat);
        let m = (32 - k) as nat;
        vstd::arithmetic::power::lemma_pow_positive(16, m);
        vstd::arithmetic::power::lemma_pow_adds(16, m, 1);
        vstd::arithmetic::power::lemma_pow1(16);
        let y = x / pow(16, m);
        vstd::arithmetic::div_mod::lemma_div_denominator(x, pow(16, m), 16);
        vstd::arithmetic::div_mod::lemma_fundamental_div_mod(y, 16);
        assert(pow(16, (m + 1) as nat) == pow(16, m) * 16);
        assert(uuid_nibble(id, k - 1) == y % 16);
    }
}

/// Whether an identifier is a version 4 (random) UUID: version nibble 4 and
/// variant bits `10`.
pub open spec fn is_version4(id: u128) -> bool {
    &&& id & 0xF000_8000_0000_0000_0000u128 == 0x4000_8000_0000_0000_0000u128
    &&& id & 0x4000_0000_0000_0000u128 == 0
}

/// Distinct identifiers have distinct text forms.
pub proof fn uuid_text_injective(a: u128, b: u128)
    requires
        uuid_text(a) == uuid_text(b),
    ensures
        a == b,
{
    assert forall|i: int| 0 <= i < 32 implies uuid_nibble(a, i) == uuid_nibble(b, i) by {
        let p = digit_position(i);
        assert(p - hyphens_before(p) == i);
        assert(0 <= p < 36 && p != 8 && p != 13 && p != 18 && p != 23);
        assert(uuid_text(a)[p] == hex_digit(uuid_nibble(a, i)));
        assert(uuid_text(b)[p] == hex_digit(uuid_nibble(b, i)));
        vstd::arithmetic::power::lemma_pow_positive(16, (31 - i) as nat);
        assert(a as int / pow(16, (31 - i) as nat) >= 0) by {
            vstd::arithmetic::div_mod::lemma_div_pos_is_pos(a as int, pow(16, (31 - i) as nat));
        }
        assert(b as int / pow(16, (31 - i) as nat) >= 0) by {
            vstd::arithmetic::div_mod::lemma_div_pos_is_pos(b as int, pow(16, (31 - i) as nat));
        }
        lemma_hex_digit_injective(uuid_nibble(a, i), uuid_nibble(b, i));
    }
    assert forall|k: nat| k <= 32 implies uuid_prefix_value(a, k) == uuid_prefix_value(b, k) by {
        lemma_prefix_equal(a, b, k);
    }
    lemma_prefix_value(a, 32);
    lemma_prefix_value(b, 32);
    vstd::arithmetic::power::lemma_pow0(16);
}

/// Identifiers with the same digits have the same digit prefixes.
proof fn lemma_prefix_equal(a: u128, b: u128, k: nat)
    requires
        k <= 32,
        forall|i: int| 0 <= i < 32 ==> uuid_nibble(a, i) == uuid_nibble(b, i),
    ensures
        uuid_prefix_value(a, k) == uuid_prefix_value(b, k),
    decreases k,
{
    if k > 0 {
        lemma_prefix_equal(a, b, (k - 1) as nat);
    }
}

/// What `uuid::Uuid::parse_str` gives for a text, as a 128-bit value.
pub uninterp spec fn spec_parse_uuid(s: Seq<char>) -> Option<u128>;

/// The text form of an identifier, printed by `uuid::Uuid`'s `Display`, which
/// writes the lowercase hyphenated form.
#[verifier::external_body]
pub(crate) fn uuid_to_string(id: u128) -> (s: String)
    ensures
        s@ == uuid_text(id),
{
    uuid::Uuid::from_u128(id).to_string()
}

/// Parses a UUID with `uuid::Uuid::parse_str`. The crate accepts the simple,
/// hyphenated, URN and braced forms in either case; stated here is only that
/// the result is a function of the text and that the lowercase hyphenated form
/// of an identifier parses back to that identifier.
#[verifier::external_body]
pub(crate) fn parse_uuid(s: &str) -> (res: Option<u128>)
    ensures
        res == spec_parse_uuid(s@),
        forall|x: u128| #[trigger] uuid_text(x) == s@ ==> res == Some(x),
{
    match uuid::Uuid::parse_str(s) {
        Ok(u) => Some(u.as_u128()),
        Err(_) => None,
    }
}

/// A fresh random (version 4) identifier from `uuid::Uuid::new_v4`: random but
/// for the version nibble, which is 4, and the variant bits, which are `10`.
#[verifier::external_body]
pub(crate) fn new_uuid_v4() -> (id: u128)
    ensures
        id & 0xF000_8000_0000_0000_0000u128 == 0x4000_8000_0000_0000_0000u128,
        id & 0x4000_0000_0000_0000u128 == 0,
{
    uuid::Uuid::new_v4().as_u128()
}

} // verus!
