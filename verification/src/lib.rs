//! A fixed-key AES-128 block permutation and a tweakable correlation-robust
//! hash derived from it, mixing 128-bit values in GF(2^128).

pub mod cipher;
pub mod convert;
pub mod field;
