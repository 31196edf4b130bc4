//! The text form of a 128-bit identifier.
use vstd::prelude::*;
use vstd::arithmetic::power::pow;

verus! {

/// The lowercase hexadecimal digit for a value below 16.
pub open spec fn hex_digit(d: int) -> char {
    seq!['0', '1', '2', '3', '4', '5', '6', '7', '8', '9', 'a', 'b', 'c', 'd', 'e', 'f'][d]
}

/// The `k`-th hexadecimal digit of `v`, counting from the most
/// significant of its 32 digits.
pub open spec fn nibble(v: u128, k: int) -> int {
    (v as int / pow(16, (31 - k) as nat)) % 16
}

/// Which of the 32 digits stands at position `p` of the hyphenated form.
pub open spec fn digit_at(p: int) -> int {
    if p < 8 {
        p
    } else if p < 13 {
        p - 1
    } else if p < 18 {
        p - 2
    } else if p < 23 {
        p - 3
    } else {
        p - 4
    }
}

/// Whether position `p` of the hyphenated form holds a hyphen.
pub open spec fn is_hyphen_position(p: int) -> bool {
    p == 8 || p == 13 || p == 18 || p == 23
}

/// The hyphenated lowercase form of an identifier: its 32 hexadecimal
/// digits, most significant first, in groups of 8-4-4-4-12 joined by `-`.
pub open spec fn guid_text(v: u128) -> Seq<char> {
    Seq::new(36, |p: int| if is_hyphen_position(p) { '-' } else { hex_digit(nibble(v, digit_at(p))) })
}

/// Formats an identifier as `uuid::Uuid`'s `Display` does: the contract
/// claims that `Uuid::from_u128(v).to_string()` is the hyphenated lowercase
/// form of `v` (the crate's `fmt` module writes `LowerHex`, the hyphenated
/// layout, and `from_u128` takes the value's big-endian bytes).
#[verifier::external_body]
pub(crate) fn guid_to_string(v: u128) -> (r: String)
    ensures
        r@ == guid_text(v),
{
    uuid::Uuid::from_u128(v).to_string()
}

/// The simple lowercase form of an identifier: its 32 hexadecimal digits,
/// most significant first, without separators.
pub open spec fn guid_simple_text(v: u128) -> Seq<char> {
    Seq::new(32, |p: int| hex_digit(nibble(v, p)))
}

/// Formats an identifier as `uuid::Uuid::simple`'s `Display` does: the
/// contract claims that `Uuid::from_u128(v).simple().to_string()` is the 32
/// lowercase hexadecimal digits of `v` (the crate's `fmt` module writes
/// `LowerHex` for `Simple`, and `from_u128` takes the value's big-endian
/// bytes).
#[verifier::external_body]
pub(crate) fn guid_to_simple_string(v: u128) -> (r: String)
    ensures
        r@ == guid_simple_text(v),
{
    uuid::Uuid::from_u128(v).simple().to_string()
}

} // verus!
