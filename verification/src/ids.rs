//! Random identifiers and their canonical text, through the uuid crate.

use vstd::prelude::*;
use vstd::arithmetic::power::pow;
use crate::json::hex_digit;

verus! {

/// The `digits` lowest hexadecimal digits of `n`, most significant
/// first, zero-padded, lowercase.
pub open spec fn hex_chars_fixed(n: int, digits: nat) -> Seq<char> {
    Seq::new(digits, |i: int| hex_digit((n / pow(16, (digits - i - 1) as nat)) % 16))
}

/// The hyphenated lowercase text the uuid crate renders for the
/// 128-bit identifier `id`: its 32 hexadecimal digits, most
/// significant first, grouped 8-4-4-4-12 with hyphens between groups.
pub open spec fn uuid_text_of(id: u128) -> Seq<char> {
    let h = hex_chars_fixed(id as int, 32);
    h.subrange(0, 8) + seq!['-'] + h.subrange(8, 12) + seq!['-'] + h.subrange(12, 16) + seq![
        '-',
    ] + h.subrange(16, 20) + seq!['-'] + h.subrange(20, 32)
}

/// Relies on `Uuid::new_v4` and `Uuid::as_u128`: a freshly drawn
/// random identifier. Nothing can be promised of a random value. This
/// is the library's one point that aborts the process, should the
/// operating system's random source fail: the uuid crate offers no
/// fallible draw.
#[verifier::external_body]
pub(crate) fn fresh_id() -> u128 {
    uuid::Uuid::new_v4().as_u128()
}

/// Relies on `Uuid::from_u128` (the 128 bits, big-endian) and the uuid
/// crate's `Display` (the hyphenated lowercase form): renders exactly
/// the text `uuid_text_of` spells out.
#[verifier::external_body]
pub(crate) fn format_uuid(id: u128) -> (r: String)
    ensures
        r@ == uuid_text_of(id),
{
    uuid::Uuid::from_u128(id).to_string()
}

} // verus!
