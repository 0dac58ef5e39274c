//! Fresh identifiers and salts.

use vstd::prelude::*;

verus! {

/// Whether `v`, read as the sixteen bytes of a UUID in big-endian order,
/// carries version 4 and the RFC 9562 variant.
pub open spec fn is_random_uuid(v: u128) -> bool {
    v & 0xF000_C000_0000_0000_0000u128 == 0x4000_8000_0000_0000_0000u128
}

/// The lower-case hexadecimal digit for `n`, meant for `0 <= n < 16`.
pub open spec fn hex_digit(n: u128) -> char {
    if n < 10 {
        (0x30 + n) as u8 as char
    } else {
        (0x57 + n) as u8 as char
    }
}

/// The 32 lower-case hexadecimal digits of `v`, most significant first.
pub open spec fn hex32(v: u128) -> Seq<char> {
    Seq::new(32, |i: int| hex_digit((v >> ((4 * (31 - i)) as u128)) & 0xf))
}

/// Draws a random version-4 UUID with `uuid::Uuid::new_v4` and hands it out
/// as the 128-bit number that `Uuid::as_u128` gives for it. Trusted: the
/// version and variant bits are the ones that `new_v4` always sets; nothing
/// is claimed of the other 122 bits. `new_v4` panics if the operating system
/// cannot supply random bytes.
#[verifier::external_body]
pub(crate) fn random_uuid() -> (v: u128)
    ensures
        is_random_uuid(v),
{
    uuid::Uuid::new_v4().as_u128()
}

/// Prints `v` the way `uuid::Uuid::from_u128(v).simple()` displays: the 32
/// lower-case hexadecimal digits of the sixteen bytes, without hyphens.
/// Trusted: the text is exactly [`hex32`] of `v`.
#[verifier::external_body]
pub(crate) fn simple_hex(v: u128) -> (s: String)
    ensures
        s@ == hex32(v),
{
    uuid::Uuid::from_u128(v).simple().to_string()
}

/// A salt printed by [`simple_hex`] is never blank.
pub proof fn lemma_hex32_not_blank(v: u128)
    ensures
        hex32(v).len() == 32,
        !crate::text::is_blank(hex32(v)),
{
    let n = (v >> 124u128) & 0xf;
    assert(n < 16) by (bit_vector)
        requires
            n == (v >> 124u128) & 0xf,
    ;
    assert(hex32(v)[0] == hex_digit(n));
    assert(!crate::text::is_white_space(hex32(v)[0]));
}

} // verus!
