//! The AES-128 block permutation under one fixed key, and the tweakable
//! hash built from it.
//!
//! An [`Aes`] value owns an expanded AES-128 round-key schedule, derived once
//! at construction and never mutated afterwards. `eval` and `eval_u128` apply
//! the forward cipher; `hash` and `hash2` compose it with field doubling into
//! a tweakable correlation-robust mixing function over 128-bit values.
//!
//! The cipher itself comes from the `aes` crate and is consumed as an opaque,
//! pre-validated primitive through a narrow two-operation interface: key
//! expansion and single-block encryption.

use vstd::prelude::*;

use crate::convert::{bytes_to_u128, u128_to_bytes};
use crate::field::{poly_double, spec_double};
use aes::cipher::{BlockEncrypt, KeyInit};

verus! {

/// The outside block-cipher type: an expanded AES-128 round-key schedule.
/// Opaque here; its contents are modeled by [`cipher_key`].
#[verifier::external_type_specification]
#[verifier::external_body]
pub struct ExAes128(aes::Aes128);

/// The 16 key bytes that an `aes::Aes128` value was expanded from.
pub uninterp spec fn cipher_key(c: aes::Aes128) -> Seq<u8>;

/// The AES-128 forward cipher (FIPS-197, 10 rounds) on a 16-byte block under
/// a 16-byte key: a function of key and block alone, named rather than
/// written out, and applied only through [`cipher_encrypt`].
pub uninterp spec fn aes128_enc(key: Seq<u8>, block: Seq<u8>) -> Seq<u8>;

/// The AES-128 inverse cipher. Relied on only through [`cipher_encrypt`]'s
/// contract, which states that decryption undoes encryption; this is what
/// makes the permutation property of the cipher provable.
pub uninterp spec fn aes128_dec(key: Seq<u8>, block: Seq<u8>) -> Seq<u8>;

/// Relies on `<aes::Aes128 as KeyInit>::new`: deterministic expansion of the
/// 16 key bytes into the round-key schedule the returned value owns.
#[verifier::external_body]
fn cipher_new(key: &[u8; 16]) -> (c: aes::Aes128)
    ensures
        cipher_key(c) == key@,
{
    aes::Aes128::new(aes::cipher::generic_array::GenericArray::from_slice(key))
}

/// Relies on `<aes::Aes128 as BlockEncrypt>::encrypt_block`: the AES-128
/// ciphertext of the block under the cipher's key; and on
/// `<aes::Aes128 as BlockDecrypt>::decrypt_block` being its inverse
/// (FIPS-197), so decrypting the result gives the input back.
#[verifier::external_body]
fn cipher_encrypt(c: &aes::Aes128, inp: &[u8; 16]) -> (out: [u8; 16])
    ensures
        out@ == aes128_enc(cipher_key(*c), inp@),
        aes128_dec(cipher_key(*c), out@) == inp@,
{
    let mut block = aes::Block::clone_from_slice(inp);
    c.encrypt_block(&mut block);
    block.into()
}

/// Relies on the derived `Clone` of `aes::Aes128`: the copy owns an
/// independent schedule with the same contents.
#[verifier::external_body]
fn cipher_clone(c: &aes::Aes128) -> (r: aes::Aes128)
    ensures
        cipher_key(r) == cipher_key(*c),
{
    c.clone()
}

/// An AES-128 block cipher fixed to one key, with the tweakable hash
/// built on top of it.
pub struct Aes {
    cipher: aes::Aes128,
}

impl Aes {
    /// The 16 key bytes this cipher was constructed from.
    pub closed spec fn key(self) -> Seq<u8> {
        cipher_key(self.cipher)
    }

    /// What `eval` returns: the AES-128 ciphertext of `block` under the key.
    pub open spec fn spec_eval(self, block: Seq<u8>) -> Seq<u8> {
        aes128_enc(self.key(), block)
    }

    /// What `eval_u128` returns: `eval` conjugated with the little-endian
    /// byte layout.
    pub open spec fn spec_eval_u128(self, x: u128) -> u128 {
        vstd::bytes::spec_u128_from_le_bytes(
            self.spec_eval(vstd::bytes::spec_u128_to_le_bytes(x)),
        )
    }

    /// What `hash` returns: encrypt `x`, then add (XOR) the tweaked field
    /// double of `x`, so the permutation alone cannot be inverted to undo
    /// the hash.
    pub open spec fn spec_hash(self, t: u128, x: u128) -> u128 {
        self.spec_eval_u128(x) ^ (spec_double(x) ^ t)
    }

    /// What `hash2` returns: fold the second input in by field doubling,
    /// then apply the single-input hash.
    pub open spec fn spec_hash2(self, t: u128, x: u128, y: u128) -> u128 {
        self.spec_hash(t, x ^ spec_double(y))
    }

    /// Build a cipher from a 128-bit key, laid out as its little-endian
    /// bytes. Any 128-bit value is a valid key; construction always succeeds.
    pub fn new(key: u128) -> (r: Self)
        ensures
            r.key() == vstd::bytes::spec_u128_to_le_bytes(key),
    {
        let key_bytes: [u8; 16] = u128_to_bytes(key);
        Self::from_bytes(key_bytes)
    }

    /// Build a cipher from 16 key bytes: expands the round-key schedule once;
    /// later encryptions reuse it.
    pub fn from_bytes(key_bytes: [u8; 16]) -> (r: Self)
        ensures
            r.key() == key_bytes@,
    {
        Aes { cipher: cipher_new(&key_bytes) }
    }

    /// Encrypt one 16-byte block with the stored schedule. Deterministic: a
    /// pure function of the key and the input; decrypting the result under
    /// the same key gives the input back.
    pub fn eval(&self, inp_bytes: [u8; 16]) -> (out: [u8; 16])
        ensures
            out@ == self.spec_eval(inp_bytes@),
            aes128_dec(self.key(), out@) == inp_bytes@,
    {
        cipher_encrypt(&self.cipher, &inp_bytes)
    }

    /// Encrypt a 128-bit value: convert to the 16-byte layout, encrypt,
    /// convert back.
    pub fn eval_u128(&self, x: u128) -> (r: u128)
        ensures
            r == self.spec_eval_u128(x),
            aes128_dec(self.key(), vstd::bytes::spec_u128_to_le_bytes(r))
                == vstd::bytes::spec_u128_to_le_bytes(x),
    {
        let inp_bytes: [u8; 16] = u128_to_bytes(x);
        let out_bytes: [u8; 16] = self.eval(inp_bytes);
        let r: u128 = bytes_to_u128(out_bytes);
        proof {
            vstd::bytes::lemma_auto_spec_u128_to_from_le_bytes();
            assert(out_bytes@.len() == 16);
        }
        r
    }

    /// The tweakable hash: `y = double(x) XOR t`, result `E(x) XOR y`.
    pub fn hash(&self, t: u128, x: u128) -> (r: u128)
        ensures
            r == self.spec_hash(t, x),
    {
        let y: u128 = poly_double(x) ^ t;
        self.eval_u128(x) ^ y
    }

    /// The two-input tweakable hash: `z = x XOR double(y)`, result
    /// `hash(t, z)`.
    pub fn hash2(&self, t: u128, x: u128, y: u128) -> (r: u128)
        ensures
            r == self.spec_hash2(t, x, y),
    {
        let z: u128 = x ^ poly_double(y);
        self.hash(t, z)
    }
}

/// Determinism: what the cipher returns is a function of its key and the
/// input alone, so two ciphers with equal keys — in particular one cipher
/// asked twice — give equal encryptions and equal hashes.
pub proof fn lemma_eval_deterministic(a1: Aes, a2: Aes, t: u128, x: u128)
    requires
        a1.key() == a2.key(),
    ensures
        a1.spec_eval_u128(x) == a2.spec_eval_u128(x),
        a1.spec_hash(t, x) == a2.spec_hash(t, x),
{
}

/// Constructor equivalence: a cipher built from a 128-bit key and one built
/// from that key's little-endian byte layout hold the same key, so they
/// encrypt every block identically.
pub proof fn lemma_constructors_agree(key: u128, a_val: Aes, a_byt: Aes, blk: Seq<u8>)
    requires
        a_val.key() == vstd::bytes::spec_u128_to_le_bytes(key),
        a_byt.key() == vstd::bytes::spec_u128_to_le_bytes(key),
    ensures
        a_val.spec_eval(blk) == a_byt.spec_eval(blk),
        forall|x: u128| a_val.spec_eval_u128(x) == a_byt.spec_eval_u128(x),
{
}

/// Permutation property at the block level: under one key, distinct blocks
/// encrypt to distinct ciphertexts. The two inverse hypotheses are exactly
/// what `eval`'s contract grants of every call it answers.
pub proof fn lemma_eval_injective(key: Seq<u8>, b1: Seq<u8>, b2: Seq<u8>)
    ensures
        (aes128_dec(key, aes128_enc(key, b1)) == b1 && aes128_dec(key, aes128_enc(key, b2)) == b2
            && b1 != b2) ==> aes128_enc(key, b1) != aes128_enc(key, b2),
{
}

/// Permutation property at the value level: under one key, distinct 128-bit
/// inputs give distinct `eval_u128` results. The two inverse hypotheses are
/// exactly what `eval_u128`'s contract grants of every call it answers.
pub proof fn lemma_eval_u128_injective(a: Aes, x1: u128, x2: u128)
    ensures
        (aes128_dec(a.key(), vstd::bytes::spec_u128_to_le_bytes(a.spec_eval_u128(x1)))
            == vstd::bytes::spec_u128_to_le_bytes(x1)
            && aes128_dec(a.key(), vstd::bytes::spec_u128_to_le_bytes(a.spec_eval_u128(x2)))
            == vstd::bytes::spec_u128_to_le_bytes(x2) && x1 != x2) ==> a.spec_eval_u128(x1)
            != a.spec_eval_u128(x2),
{
    vstd::bytes::lemma_auto_spec_u128_to_from_le_bytes();
    let r1 = a.spec_eval_u128(x1);
    let r2 = a.spec_eval_u128(x2);
    if aes128_dec(a.key(), vstd::bytes::spec_u128_to_le_bytes(r1))
        == vstd::bytes::spec_u128_to_le_bytes(x1) && aes128_dec(
        a.key(),
        vstd::bytes::spec_u128_to_le_bytes(r2),
    ) == vstd::bytes::spec_u128_to_le_bytes(x2) && r1 == r2 {
        assert(vstd::bytes::spec_u128_to_le_bytes(x1) == vstd::bytes::spec_u128_to_le_bytes(x2));
        assert(vstd::bytes::spec_u128_to_le_bytes(x1).len() == 16);
        assert(vstd::bytes::spec_u128_to_le_bytes(x2).len() == 16);
        assert(x1 == vstd::bytes::spec_u128_from_le_bytes(
            vstd::bytes::spec_u128_to_le_bytes(x1),
        ));
        assert(x1 == x2);
    }
}

/// Folding consistency of the two-input hash: for every tweak and pair of
/// inputs, `hash2(t, x, y)` equals `hash(t, x XOR double(y))`.
pub proof fn lemma_hash2_consistency(a: Aes, t: u128, x: u128, y: u128)
    ensures
        a.spec_hash2(t, x, y) == a.spec_hash(t, x ^ spec_double(y)),
{
}

impl Clone for Aes {
    /// The copy owns an independent schedule with the same contents, so it
    /// encrypts and hashes exactly as the value it was cloned from does.
    fn clone(&self) -> (r: Self)
        ensures
            r.key() == self.key(),
    {
        Aes { cipher: cipher_clone(&self.cipher) }
    }
}

} // verus!

