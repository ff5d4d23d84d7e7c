//! Multiplication by the generator `x` in GF(2^128), the binary field with
//! irreducible polynomial `x^128 + x^7 + x^2 + x + 1`.

use vstd::prelude::*;

verus! {

/// Doubling in GF(2^128): shift left by one bit; when the shifted-out top bit
/// was set, fold the overflow back with the reduction constant `0x87`
/// (the low bits of `x^128 + x^7 + x^2 + x + 1`).
pub open spec fn spec_double(x: u128) -> u128 {
    if x >> 127 == 1 {
        (x << 1) ^ 0x87
    } else {
        x << 1
    }
}

/// Multiply a field element by `x` in GF(2^128).
///
/// With top bit 0 this is the plain left shift; with top bit 1 the shift
/// overflows the field and the result is reduced by XOR with `0x87`.
pub fn poly_double(x: u128) -> (r: u128)
    ensures
        r == spec_double(x),
        x >> 127 == 0 ==> r == x << 1,
        x >> 127 == 1 ==> r == (x << 1) ^ 0x87,
{
    proof {
        assert(x >> 127 == 0 || x >> 127 == 1) by (bit_vector);
    }
    let shifted: u128 = x << 1;
    if (x >> 127) == 1 {
        shifted ^ 0x87
    } else {
        shifted
    }
}

} // verus!
