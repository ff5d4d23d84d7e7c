//! Conversions between 128-bit values and their 16-byte layout.
//!
//! The whole crate fixes one byte-order convention: a `u128` maps to its 16
//! bytes least-significant first, `vstd::bytes::spec_u128_to_le_bytes`. The
//! numeric view used by field doubling and the byte view fed to the block
//! cipher agree through these two functions.

use vstd::prelude::*;

verus! {

/// Relies on `u128::to_le_bytes`: returns the 16 bytes of `x` in
/// little-endian order, byte `i` holding bits `8*i .. 8*i+8`.
#[verifier::external_body]
pub fn u128_to_bytes(x: u128) -> (r: [u8; 16])
    ensures
        r@ == vstd::bytes::spec_u128_to_le_bytes(x),
{
    x.to_le_bytes()
}

/// Relies on `u128::from_le_bytes`: reads 16 bytes in little-endian order,
/// byte `i` giving bits `8*i .. 8*i+8`.
#[verifier::external_body]
pub fn bytes_to_u128(b: [u8; 16]) -> (r: u128)
    ensures
        r == vstd::bytes::spec_u128_from_le_bytes(b@),
{
    u128::from_le_bytes(b)
}

} // verus!
