//! Reference test vectors for the cipher primitives and the key schedule.

use cs_cipher::Cipher;

#[test]
fn cipher_p8_func() {
    let a = Cipher::p8(0x0123456789abcdef);
    assert_eq!(u64::from_be_bytes(a), 0x0de7a3c127cdabc9);
}

#[test]
fn cipher_p_func() {
    let n = 0x26_u8;
    assert_eq!(Cipher::p(n), 0xb8);
    assert_eq!(Cipher::p(0xEC), 0x76)
}

#[test]
fn cipher_t_func() {
    let a: u64 = 0b0001001010111011110010101001101010010001001101000011011110001110;
    let b: u64 = 0b0111100100100000010001101101111001110001000001111111001101001010;

    assert_eq!(Cipher::t(&a.to_be_bytes()), b);
}

#[test]
fn cipher_generate_key() {
    let key_bytes = 0x0123456789abcdeffedcba9876543210_u128.to_be_bytes();
    let key0 = u64::from_be_bytes(key_bytes[0..8].try_into().unwrap());
    let key1 = u64::from_be_bytes(key_bytes[8..16].try_into().unwrap());
    assert_eq!(
        Cipher::generate_subkeys(&[key0, key1]),
        [
            0x45fd137a4edf9ec4,
            0x1dd43f03e6f7564c,
            0xebe26756de9937c7,
            0x961704e945bad4fb,
            0x0b60dfe9eff473d4,
            0x76d3e7cf52c466cf,
            0x75ec8cef767d3a0d,
            0x82da3337b598fd6d,
            0xfbd820da8dc8af8c,
        ]
    );
}

#[test]
fn lib_p8_func() {
    let a = Cipher::p8(0x0123456789abcdef);
    assert_eq!(u64::from_be_bytes(a), 0x0de7a3c127cdabc9);
}

#[test]
fn lib_p_func() {
    let n = 0x26_u8;
    assert_eq!(Cipher::p(n), 0xb8);
    assert_eq!(Cipher::p(0xEC), 0x76)
}

#[test]
fn lib_t_func() {
    let a: u64 = 0b0001001010111011110010101001101010010001001101000011011110001110;
    let b: u64 = 0b0111100100100000010001101101111001110001000001111111001101001010;

    assert_eq!(Cipher::t(&a.to_be_bytes()), b);
}

#[test]
fn lib_generate_key() {
    let key_bytes = 0x0123456789abcdeffedcba9876543210_u128.to_be_bytes();
    let key0 = u64::from_be_bytes(key_bytes[0..8].try_into().unwrap());
    let key1 = u64::from_be_bytes(key_bytes[8..16].try_into().unwrap());
    assert_eq!(
        Cipher::generate_subkeys(&[key0, key1]),
        [
            0x45fd137a4edf9ec4,
            0x1dd43f03e6f7564c,
            0xebe26756de9937c7,
            0x961704e945bad4fb,
            0x0b60dfe9eff473d4,
            0x76d3e7cf52c466cf,
            0x75ec8cef767d3a0d,
            0x82da3337b598fd6d,
            0xfbd820da8dc8af8c,
        ]
    );
}
