//! Behavioral tests: primitive inverses, the round function, the block
//! round trip, key-source padding and rejection, and key generation.

use cs_cipher::cli::{Commands, DecryptArgs, EncryptArgs};
use cs_cipher::Cipher;
use cs_cipher::CipherErrors;
use cs_cipher::Direction;

fn cipher_for(key_bytes: &Vec<u8>, direction: Direction) -> Cipher {
    Cipher::build(
        key_bytes,
        direction,
        String::from("in.bin"),
        String::from("in.bin.key"),
        String::from("out.bin"),
    )
    .unwrap()
}

#[test]
fn phi_func() {
    assert_eq!(Cipher::phi(0x26), 0x2E);
    assert_eq!(Cipher::phi(0x00), 0x00);
    assert_eq!(Cipher::phi(0xFF), 0x55);
}

#[test]
fn p_inv_func() {
    assert_eq!(Cipher::p_inv(0xb8), 0x26);
    assert_eq!(Cipher::p_inv(0x76), 0xEC);
    for x in 0..=255u8 {
        assert_eq!(Cipher::p_inv(Cipher::p(x)), x);
    }
}

#[test]
fn m_func() {
    assert_eq!(Cipher::m(&[0x26, 0x00]), [0x11, 0x79]);
}

#[test]
fn m_inv_func() {
    assert_eq!(Cipher::m_inv(&[0x11, 0x79]), [0x26, 0x00]);
    for xl in [0x00u8, 0x5a, 0xa5, 0xff] {
        for xr in [0x00u8, 0x13, 0xcd, 0xff] {
            assert_eq!(Cipher::m_inv(&Cipher::m(&[xl, xr])), [xl, xr]);
        }
    }
}

#[test]
fn m8_func() {
    assert_eq!(
        Cipher::m8([0x26, 0x00, 0x26, 0x00, 0x26, 0x00, 0x26, 0x00]),
        [0x11, 0x79, 0x11, 0x79, 0x11, 0x79, 0x11, 0x79]
    );
}

#[test]
fn slice_xor_func() {
    let a = [0x00u8, 0x01, 0x02, 0x03, 0xf0, 0xf1, 0xf2, 0xf3];
    let b = [0xffu8, 0xff, 0x00, 0x00, 0x0f, 0x0f, 0x0f, 0x0f];
    assert_eq!(
        Cipher::slice_xor(&a, &b),
        [0xff, 0xfe, 0x02, 0x03, 0xff, 0xfe, 0xfd, 0xfc]
    );
}

#[test]
fn word_byte_conversions() {
    let x: u64 = 0x0123456789abcdef;
    let bytes = Cipher::word_to_bytes(x);
    assert_eq!(bytes, [0x01, 0x23, 0x45, 0x67, 0x89, 0xab, 0xcd, 0xef]);
    assert_eq!(Cipher::bytes_to_word(&bytes), x);
}

#[test]
fn r_func() {
    assert_eq!(Cipher::r(0), 0x8521cb51db15b864);
}

#[test]
fn r_inv_func() {
    for x in [0u64, 1, 0x0123456789abcdef, u64::MAX] {
        assert_eq!(Cipher::r_inv(Cipher::r(x)), x);
    }
}

#[test]
fn block_round_trip() {
    let key_bytes = 0x0123456789abcdeffedcba9876543210_u128.to_be_bytes().to_vec();
    let cipher = cipher_for(&key_bytes, Direction::Encrypt);
    for block in [0u64, 0x1122334455667788, u64::MAX] {
        let encrypted = cipher.encrypt_block(block);
        assert_eq!(cipher.decrypt_block(encrypted), block);
    }
}

#[test]
fn transform_block_follows_direction() {
    let key_bytes = vec![0x42u8; 16];
    let enc = cipher_for(&key_bytes, Direction::Encrypt);
    let dec = cipher_for(&key_bytes, Direction::Decrypt);
    let block: u64 = 0xdeadbeef00c0ffee;
    let encrypted = enc.transform_block(block);
    assert_eq!(encrypted, enc.encrypt_block(block));
    assert_eq!(dec.transform_block(encrypted), block);
}

#[test]
fn extract_key_pads_short_source() {
    let key = Cipher::extract_key(&vec![0x01]).unwrap();
    assert_eq!(key, [0x0100000000000000, 0x0000000000000000]);
    let key = Cipher::extract_key(&vec![0xab; 9]).unwrap();
    assert_eq!(key, [0xabababababababab, 0xab00000000000000]);
    let key = Cipher::extract_key(&Vec::new()).unwrap();
    assert_eq!(key, [0, 0]);
}

#[test]
fn extract_key_full_source() {
    let bytes = 0x0123456789abcdeffedcba9876543210_u128.to_be_bytes().to_vec();
    let key = Cipher::extract_key(&bytes).unwrap();
    assert_eq!(key, [0x0123456789abcdef, 0xfedcba9876543210]);
}

#[test]
fn extract_key_rejects_long_source() {
    let r = Cipher::extract_key(&vec![0u8; 17]);
    assert_eq!(r.unwrap_err(), CipherErrors::KeyTooLong);
}

#[test]
fn build_derives_schedule() {
    let key_bytes = 0x0123456789abcdeffedcba9876543210_u128.to_be_bytes().to_vec();
    let cipher = cipher_for(&key_bytes, Direction::Encrypt);
    assert_eq!(cipher.key, [0x0123456789abcdef, 0xfedcba9876543210]);
    assert_eq!(
        cipher.subkeys,
        [
            0x45fd137a4edf9ec4,
            0x1dd43f03e6f7564c,
            0xebe26756de9937c7,
            0x961704e945bad4fb,
            0x0b60dfe9eff473d4,
            0x76d3e7cf52c466cf,
            0x75ec8cef767d3a0d,
            0x82da3337b598fd6d,
            0xfbd820da8dc8af8c,
        ]
    );
    assert_eq!(cipher.direction, Direction::Encrypt);
    assert_eq!(cipher.input_path, "in.bin");
    assert_eq!(cipher.key_path, "in.bin.key");
    assert_eq!(cipher.output_path, "out.bin");
}

#[test]
fn build_rejects_long_key() {
    let r = Cipher::build(
        &vec![0u8; 17],
        Direction::Encrypt,
        String::from("a"),
        String::from("b"),
        String::from("c"),
    );
    assert_eq!(r.unwrap_err(), CipherErrors::KeyTooLong);
}

#[test]
fn generate_key_length() {
    let key = Cipher::generate_key();
    assert_eq!(key.len(), 16);
}

#[test]
fn generated_key_gives_consistent_schedule() {
    let key_bytes = Cipher::generate_key();
    let first = Cipher::generate_subkeys(&Cipher::extract_key(&key_bytes).unwrap());
    let second = Cipher::generate_subkeys(&Cipher::extract_key(&key_bytes).unwrap());
    assert_eq!(first, second);
}

#[test]
fn commands_select_direction() {
    let encrypt = Commands::Encrypt(EncryptArgs {
        input: String::from("a"),
        output: String::from("b"),
        key_path: None,
    });
    let decrypt = Commands::Decrypt(DecryptArgs {
        input: String::from("a"),
        output: String::from("b"),
        key_path: String::from("k"),
    });
    assert_eq!(encrypt.direction(), Direction::Encrypt);
    assert_eq!(decrypt.direction(), Direction::Decrypt);
}

#[test]
fn t_involution() {
    for x in [0u64, 1, 0x0123456789abcdef, u64::MAX, 0x8000000000000001] {
        let once = Cipher::t(&x.to_be_bytes());
        let twice = Cipher::t(&Cipher::word_to_bytes(once));
        assert_eq!(twice, x);
    }
}
