use aes_hash::cipher::Aes;
use aes_hash::convert::{bytes_to_u128, u128_to_bytes};
use aes_hash::field::poly_double;

#[test]
fn aes_zero_correct() {
    let aes = Aes::new(0);
    let res = aes.hash(0, 0);
    let should_be = bytes_to_u128([
        102, 233, 75, 212, 239, 138, 44, 59, 136, 76, 250, 89, 202, 52, 43, 46,
    ]);
    assert_eq!(res, should_be);
}

#[test]
fn random_aes_correct() {
    let key = [
        0x06, 0xa2, 0xf9, 0xe0, 0x79, 0x27, 0x6a, 0x08, 0x04, 0x34, 0xb6, 0x61, 0xba, 0xee, 0xdc,
        0xef,
    ];
    let inp = [
        0x00, 0xd6, 0x18, 0x23, 0x4f, 0x1b, 0x61, 0xce, 0x3b, 0xde, 0x41, 0x04, 0xc5, 0x93, 0xb6,
        0x1c,
    ];
    let should_be = [
        0x84, 0xd1, 0xc3, 0x11, 0x07, 0x5a, 0x96, 0x4a, 0x13, 0xf8, 0x83, 0x35, 0xf9, 0x04, 0x9d,
        0x4a,
    ];

    let aes = Aes::from_bytes(key);
    let out = aes.eval(inp);
    assert_eq!(out, should_be);

    let aes = Aes::new(bytes_to_u128(key));
    let out = aes.eval_u128(bytes_to_u128(inp));
    assert_eq!(out, bytes_to_u128(should_be));
}

#[test]
fn poly_double_top_bit_clear() {
    assert_eq!(poly_double(0), 0);
    assert_eq!(poly_double(1), 2);
    assert_eq!(poly_double(0x1234), 0x2468);
    assert_eq!(poly_double(1u128 << 126), 1u128 << 127);
}

#[test]
fn poly_double_top_bit_set() {
    assert_eq!(poly_double(1u128 << 127), 0x87);
    assert_eq!(poly_double(u128::MAX), (u128::MAX << 1) ^ 0x87);
    assert_eq!(
        poly_double((1u128 << 127) | 1),
        2 ^ 0x87
    );
}

#[test]
fn conversions_little_endian() {
    assert_eq!(bytes_to_u128([1, 0, 0, 0, 0, 0, 0, 0, 0, 0, 0, 0, 0, 0, 0, 0]), 1);
    assert_eq!(
        bytes_to_u128([0, 0, 0, 0, 0, 0, 0, 0, 0, 0, 0, 0, 0, 0, 0, 0x80]),
        1u128 << 127
    );
    assert_eq!(
        u128_to_bytes(0x0201),
        [1, 2, 0, 0, 0, 0, 0, 0, 0, 0, 0, 0, 0, 0, 0, 0]
    );
    let b = [
        7, 1, 255, 3, 0, 9, 8, 2, 11, 13, 17, 19, 23, 29, 31, 37,
    ];
    assert_eq!(u128_to_bytes(bytes_to_u128(b)), b);
    let x = 0x0123_4567_89ab_cdef_fedc_ba98_7654_3210u128;
    assert_eq!(bytes_to_u128(u128_to_bytes(x)), x);
}

#[test]
fn eval_deterministic() {
    let aes = Aes::new(42);
    assert_eq!(aes.eval_u128(7), aes.eval_u128(7));
    assert_eq!(aes.hash(3, 9), aes.hash(3, 9));
}

#[test]
fn eval_distinct_inputs_distinct_outputs() {
    let aes = Aes::new(0xdead_beef);
    assert_ne!(aes.eval_u128(0), aes.eval_u128(1));
    assert_ne!(aes.eval_u128(u128::MAX), aes.eval_u128(u128::MAX - 1));
}

#[test]
fn constructors_equivalent() {
    let key_bytes = [
        1, 2, 3, 4, 5, 6, 7, 8, 9, 10, 11, 12, 13, 14, 15, 16,
    ];
    let a = Aes::from_bytes(key_bytes);
    let b = Aes::new(bytes_to_u128(key_bytes));
    for x in [0u128, 1, 77, u128::MAX] {
        assert_eq!(a.eval_u128(x), b.eval_u128(x));
    }
}

#[test]
fn hash2_matches_hash_of_folded_input() {
    let aes = Aes::new(123_456_789);
    let t = 0x5555_5555_5555_5555_5555_5555_5555_5555u128;
    let x = 0x0f0f_0f0f_0f0f_0f0f_f0f0_f0f0_f0f0_f0f0u128;
    let y = 0x8000_0000_0000_0000_0000_0000_0000_0001u128;
    assert_eq!(aes.hash2(t, x, y), aes.hash(t, x ^ poly_double(y)));
    assert_eq!(aes.hash2(0, 0, 0), aes.hash(0, 0));
}

#[test]
fn clone_encrypts_identically() {
    let aes = Aes::new(999);
    let copy = aes.clone();
    assert_eq!(aes.eval_u128(5), copy.eval_u128(5));
    assert_eq!(aes.hash(1, 2), copy.hash(1, 2));
}

#[test]
fn hash_mixes_tweak() {
    let aes = Aes::new(0);
    assert_eq!(aes.hash(7, 0), aes.eval_u128(0) ^ 7);
    assert_ne!(aes.hash(0, 3), aes.hash(1, 3));
}
