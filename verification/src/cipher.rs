//! The cipher context and the executable cipher operations: the bit/nibble
//! primitives, the round function and its inverse, the key schedule, key
//! material handling, and the per-block transforms.

use vstd::prelude::*;

use crate::errors::CipherErrors;
use crate::model;
use rand::Rng;

verus! {

/// Whether a cipher context transforms blocks forward or backward.
#[derive(Debug, Clone, Copy, PartialEq, Eq, Structural)]
pub enum Direction {
    Encrypt,
    Decrypt,
}

/// A cipher session: the master key, the subkey schedule derived from it,
/// the three path references the session drives, and its direction.
#[derive(Debug)]
pub struct Cipher {
    pub input_path: String,
    pub direction: Direction,
    pub key_path: String,
    pub output_path: String,
    pub key: [u64; 2],
    pub subkeys: [u64; 9],
}

impl Cipher {
    /// Entry `i` of the first nibble-substitution table.
    fn sbox_f(i: u8) -> (r: u8)
        ensures
            r == model::nib_f(i),
    {
        if i == 0 {
            0xF
        } else if i == 1 {
            0xD
        } else if i == 2 {
            0xB
        } else if i == 3 {
            0xB
        } else if i == 4 {
            0x7
        } else if i == 5 {
            0x5
        } else if i == 6 {
            0x7
        } else if i == 7 {
            0x7
        } else if i == 8 {
            0xE
        } else if i == 9 {
            0xD
        } else if i == 10 {
            0xA
        } else if i == 11 {
            0xB
        } else if i == 12 {
            0xE
        } else if i == 13 {
            0xD
        } else if i == 14 {
            0xE
        } else {
            0xF
        }
    }

    /// Entry `i` of the second nibble-substitution table.
    fn sbox_g(i: u8) -> (r: u8)
        ensures
            r == model::nib_g(i),
    {
        if i == 0 {
            0xA
        } else if i == 1 {
            0x6
        } else if i == 2 {
            0x0
        } else if i == 3 {
            0x2
        } else if i == 4 {
            0xB
        } else if i == 5 {
            0xE
        } else if i == 6 {
            0x1
        } else if i == 7 {
            0x8
        } else if i == 8 {
            0xD
        } else if i == 9 {
            0x4
        } else if i == 10 {
            0x5
        } else if i == 11 {
            0x3
        } else if i == 12 {
            0xF
        } else if i == 13 {
            0xC
        } else if i == 14 {
            0x7
        } else {
            0x9
        }
    }

    /// Rotate a byte left by one bit.
    fn rotl1(x: u8) -> (r: u8)
        ensures
            r == model::spec_rotl1(x),
    {
        (x << 1u8) | (x >> 7u8)
    }

    /// The big-endian bytes of a 64-bit word.
    pub fn word_to_bytes(x: u64) -> (r: [u8; 8])
        ensures
            r@ == model::spec_bytes(x),
    {
        let r = [
            (x >> 56u64) as u8,
            (x >> 48u64) as u8,
            (x >> 40u64) as u8,
            (x >> 32u64) as u8,
            (x >> 24u64) as u8,
            (x >> 16u64) as u8,
            (x >> 8u64) as u8,
            x as u8,
        ];
        proof {
            assert(r@ =~= model::spec_bytes(x));
        }
        r
    }

    /// The 64-bit word read big-endian from eight bytes.
    pub fn bytes_to_word(b: &[u8; 8]) -> (x: u64)
        ensures
            x == model::spec_word(b@),
    {
        ((b[0] as u64) << 56u64) | ((b[1] as u64) << 48u64) | ((b[2] as u64) << 40u64) | ((b[3]
            as u64) << 32u64) | ((b[4] as u64) << 24u64) | ((b[5] as u64) << 16u64) | ((b[6]
            as u64) << 8u64) | (b[7] as u64)
    }

    /// The nibble substitution `p`.
    pub fn p(arg: u8) -> (result: u8)
        ensures
            result == model::spec_p(arg),
    {
        proof {
            reveal(model::spec_p);
        }
        let pl = (arg >> 4u8) & 0xF;
        let pr = arg & 0xF;
        let mid = pl ^ Self::sbox_f(pr);
        let qr = pr ^ Self::sbox_g(mid);
        let ql = mid ^ Self::sbox_f(qr);
        (ql << 4u8) | (qr & 0xF)
    }

    /// The inverse of `p`.
    pub fn p_inv(arg: u8) -> (result: u8)
        ensures
            result == model::spec_p_inv(arg),
    {
        proof {
            reveal(model::spec_p_inv);
        }
        let ql = (arg >> 4u8) & 0xF;
        let qr = arg & 0xF;
        let mid = ql ^ Self::sbox_f(qr);
        let pr = qr ^ Self::sbox_g(mid);
        let pl = mid ^ Self::sbox_f(pr);
        (pl << 4u8) | (pr & 0xF)
    }

    /// `p` applied to each byte of the big-endian representation of a word.
    pub fn p8(arg: u64) -> (r: [u8; 8])
        ensures
            r@ == model::spec_p8(arg),
    {
        let b = Self::word_to_bytes(arg);
        let r = [
            Self::p(b[0]),
            Self::p(b[1]),
            Self::p(b[2]),
            Self::p(b[3]),
            Self::p(b[4]),
            Self::p(b[5]),
            Self::p(b[6]),
            Self::p(b[7]),
        ];
        proof {
            assert(r@ =~= model::spec_p8(arg));
        }
        r
    }

    /// Column `k` of the bit matrix whose rows are the eight input bytes.
    fn column(bytes: &[u8; 8], k: u8) -> (r: u8)
        requires
            k < 8,
        ensures
            r == model::spec_col(bytes@, k),
    {
        (((bytes[0] >> k) & 1) << 7u8) | (((bytes[1] >> k) & 1) << 6u8) | (((bytes[2] >> k) & 1)
            << 5u8) | (((bytes[3] >> k) & 1) << 4u8) | (((bytes[4] >> k) & 1) << 3u8) | (((bytes[5]
            >> k) & 1) << 2u8) | (((bytes[6] >> k) & 1) << 1u8) | ((bytes[7] >> k) & 1)
    }

    /// The 8x8 bit-matrix transpose `t`.
    pub fn t(bytes: &[u8; 8]) -> (result: u64)
        ensures
            result == model::spec_t(bytes@),
    {
        let cols = [
            Self::column(bytes, 7),
            Self::column(bytes, 6),
            Self::column(bytes, 5),
            Self::column(bytes, 4),
            Self::column(bytes, 3),
            Self::column(bytes, 2),
            Self::column(bytes, 1),
            Self::column(bytes, 0),
        ];
        let r = Self::bytes_to_word(&cols);
        proof {
            reveal(model::spec_t);
            assert(cols@ =~= seq![
                model::spec_col(bytes@, 7),
                model::spec_col(bytes@, 6),
                model::spec_col(bytes@, 5),
                model::spec_col(bytes@, 4),
                model::spec_col(bytes@, 3),
                model::spec_col(bytes@, 2),
                model::spec_col(bytes@, 1),
                model::spec_col(bytes@, 0),
            ]);
        }
        r
    }

    /// The diffusion helper `phi`.
    pub fn phi(input: u8) -> (r: u8)
        ensures
            r == model::spec_phi(input),
    {
        (Self::rotl1(input) & 0xAA) ^ input
    }

    /// The two-byte nonlinear mixing step `m`.
    pub fn m(arg: &[u8; 2]) -> (r: [u8; 2])
        ensures
            r@[0] == model::spec_m_left(arg@[0], arg@[1]),
            r@[1] == model::spec_m_right(arg@[0], arg@[1]),
    {
        let xl = arg[0];
        let xr = arg[1];
        let yl = Self::p(Self::phi(xl) ^ xr);
        let yr = Self::p(Self::rotl1(xl) ^ xr);
        [yl, yr]
    }

    /// The inverse of `m`.
    pub fn m_inv(arg: &[u8; 2]) -> (r: [u8; 2])
        ensures
            r@[0] == model::spec_m_left_inv(arg@[0], arg@[1]),
            r@[1] == model::spec_m_right_inv(arg@[0], arg@[1]),
    {
        let a = Self::p_inv(arg[0]) ^ Self::p_inv(arg[1]);
        let xl = a ^ (Self::rotl1(a) & 0x55);
        let xr = Self::rotl1(xl) ^ Self::p_inv(arg[1]);
        [xl, xr]
    }

    /// `m` applied independently to the four byte pairs of an 8-byte block.
    pub fn m8(data: [u8; 8]) -> (res: [u8; 8])
        ensures
            res@ == model::spec_m8(data@),
    {
        let p0 = Self::m(&[data[0], data[1]]);
        let p1 = Self::m(&[data[2], data[3]]);
        let p2 = Self::m(&[data[4], data[5]]);
        let p3 = Self::m(&[data[6], data[7]]);
        let res = [p0[0], p0[1], p1[0], p1[1], p2[0], p2[1], p3[0], p3[1]];
        proof {
            assert(res@ =~= model::spec_m8(data@));
        }
        res
    }

    /// The inverse of `m8`, pair by pair.
    pub fn m8_inv(data: [u8; 8]) -> (res: [u8; 8])
        ensures
            res@ == model::spec_m8_inv(data@),
    {
        let p0 = Self::m_inv(&[data[0], data[1]]);
        let p1 = Self::m_inv(&[data[2], data[3]]);
        let p2 = Self::m_inv(&[data[4], data[5]]);
        let p3 = Self::m_inv(&[data[6], data[7]]);
        let res = [p0[0], p0[1], p1[0], p1[1], p2[0], p2[1], p3[0], p3[1]];
        proof {
            assert(res@ =~= model::spec_m8_inv(data@));
        }
        res
    }

    /// The first fixed 8-byte constant of the round function.
    fn round_const_c() -> (r: [u8; 8])
        ensures
            r@ == model::round_c(),
    {
        let r = [0xb7u8, 0xe1, 0x51, 0x62, 0x8a, 0xed, 0x2a, 0x6a];
        proof {
            assert(r@ =~= model::round_c());
        }
        r
    }

    /// The second fixed 8-byte constant of the round function.
    fn round_const_cc() -> (r: [u8; 8])
        ensures
            r@ == model::round_cc(),
    {
        let r = [0xbfu8, 0x71, 0x58, 0x80, 0x9c, 0xf4, 0xf3, 0xc7];
        proof {
            assert(r@ =~= model::round_cc());
        }
        r
    }

    /// One round of the block transform: mix, XOR a constant, mix again,
    /// XOR a second constant.
    pub fn r(data: u64) -> (result: u64)
        ensures
            result == model::spec_round(data),
    {
        let t2 = Self::m8(Self::word_to_bytes(data));
        let c = Self::round_const_c();
        let t4 = Self::slice_xor(t2.as_slice(), c.as_slice());
        let t5 = Self::m8(t4);
        let cc = Self::round_const_cc();
        let t7 = Self::slice_xor(t5.as_slice(), cc.as_slice());
        Self::bytes_to_word(&t7)
    }

    /// The inverse of one round: the constants removed and the mixes undone
    /// in reverse order.
    pub fn r_inv(data: u64) -> (result: u64)
        ensures
            result == model::spec_round_inv(data),
    {
        let bytes = Self::word_to_bytes(data);
        let cc = Self::round_const_cc();
        let u3 = Self::slice_xor(bytes.as_slice(), cc.as_slice());
        let u2 = Self::m8_inv(u3);
        let c = Self::round_const_c();
        let u1 = Self::slice_xor(u2.as_slice(), c.as_slice());
        let u0 = Self::m8_inv(u1);
        Self::bytes_to_word(&u0)
    }

    /// Constant `i` of the key-schedule recurrence.
    fn ci(i: usize) -> (r: u64)
        ensures
            r == model::key_ci(i as int),
    {
        if i == 0 {
            0x290d61409ceb9e8f
        } else if i == 1 {
            0x1f855f585b013986
        } else if i == 2 {
            0x972ed7d635ae1716
        } else if i == 3 {
            0x21b6694ea5728708
        } else if i == 4 {
            0x3c18e6e7faadb889
        } else if i == 5 {
            0xb700f76f73841163
        } else if i == 6 {
            0x3f967f6ebf149dac
        } else if i == 7 {
            0xa40e7ef6204a6230
        } else {
            0x03c54b5a46a34465
        }
    }

    /// Derive the nine 64-bit subkeys of a master key by the fixed
    /// recurrence over the schedule constants.
    pub fn generate_subkeys(key: &[u64; 2]) -> (subkeys: [u64; 9])
        ensures
            subkeys@ == model::spec_subkeys(key@[0], key@[1]),
    {
        let k1 = key[0];
        let k2 = key[1];
        let sk0 = k2 ^ Self::t(&Self::p8(k1 ^ Self::ci(0)));
        let sk1 = k1 ^ Self::t(&Self::p8(sk0 ^ Self::ci(1)));
        let sk2 = sk0 ^ Self::t(&Self::p8(sk1 ^ Self::ci(2)));
        let sk3 = sk1 ^ Self::t(&Self::p8(sk2 ^ Self::ci(3)));
        let sk4 = sk2 ^ Self::t(&Self::p8(sk3 ^ Self::ci(4)));
        let sk5 = sk3 ^ Self::t(&Self::p8(sk4 ^ Self::ci(5)));
        let sk6 = sk4 ^ Self::t(&Self::p8(sk5 ^ Self::ci(6)));
        let sk7 = sk5 ^ Self::t(&Self::p8(sk6 ^ Self::ci(7)));
        let sk8 = sk6 ^ Self::t(&Self::p8(sk7 ^ Self::ci(8)));
        let subkeys = [sk0, sk1, sk2, sk3, sk4, sk5, sk6, sk7, sk8];
        proof {
            assert(sk0 == model::spec_subkey(k1, k2, 0));
            assert(sk1 == model::spec_subkey(k1, k2, 1));
            assert(sk2 == model::spec_subkey(k1, k2, 2));
            assert(sk3 == model::spec_subkey(k1, k2, 3));
            assert(sk4 == model::spec_subkey(k1, k2, 4));
            assert(sk5 == model::spec_subkey(k1, k2, 5));
            assert(sk6 == model::spec_subkey(k1, k2, 6));
            assert(sk7 == model::spec_subkey(k1, k2, 7));
            assert(sk8 == model::spec_subkey(k1, k2, 8));
            assert(subkeys@ =~= model::spec_subkeys(k1, k2));
        }
        subkeys
    }

    /// Byte-wise XOR of two 8-byte buffers.
    pub fn slice_xor(a: &[u8], b: &[u8]) -> (r: [u8; 8])
        requires
            a@.len() == 8,
            b@.len() == 8,
        ensures
            r@ == model::spec_xor8(a@, b@),
    {
        let r = [
            a[0] ^ b[0],
            a[1] ^ b[1],
            a[2] ^ b[2],
            a[3] ^ b[3],
            a[4] ^ b[4],
            a[5] ^ b[5],
            a[6] ^ b[6],
            a[7] ^ b[7],
        ];
        proof {
            assert(r@ =~= model::spec_xor8(a@, b@));
        }
        r
    }

    /// Encrypt one 8-byte block: seven rounds, each with a subkey pre-mixed
    /// into its input, then a whitening XOR with the eighth subkey. The
    /// ninth subkey of the schedule is derived but reserved: the pipeline
    /// consumes only the first eight.
    pub fn encrypt_block(&self, block: u64) -> (c: u64)
        ensures
            c == model::spec_encrypt_block(self.subkeys@, block),
    {
        let m1 = Self::r(self.subkeys[0] ^ block);
        let m2 = Self::r(self.subkeys[1] ^ m1);
        let m3 = Self::r(self.subkeys[2] ^ m2);
        let m4 = Self::r(self.subkeys[3] ^ m3);
        let m5 = Self::r(self.subkeys[4] ^ m4);
        let m6 = Self::r(self.subkeys[5] ^ m5);
        let m7 = Self::r(self.subkeys[6] ^ m6);
        self.subkeys[7] ^ m7
    }

    /// Decrypt one 8-byte block: the whitening undone first, then the seven
    /// rounds inverted with subkeys in reverse order.
    pub fn decrypt_block(&self, block: u64) -> (b: u64)
        ensures
            b == model::spec_decrypt_block(self.subkeys@, block),
    {
        let m7 = self.subkeys[7] ^ block;
        let m6 = self.subkeys[6] ^ Self::r_inv(m7);
        let m5 = self.subkeys[5] ^ Self::r_inv(m6);
        let m4 = self.subkeys[4] ^ Self::r_inv(m5);
        let m3 = self.subkeys[3] ^ Self::r_inv(m4);
        let m2 = self.subkeys[2] ^ Self::r_inv(m3);
        let m1 = self.subkeys[1] ^ Self::r_inv(m2);
        self.subkeys[0] ^ Self::r_inv(m1)
    }

    /// Transform one block in the direction fixed at construction.
    pub fn transform_block(&self, block: u64) -> (r: u64)
        ensures
            self.direction is Encrypt ==> r == model::spec_encrypt_block(self.subkeys@, block),
            self.direction is Decrypt ==> r == model::spec_decrypt_block(self.subkeys@, block),
    {
        match self.direction {
            Direction::Encrypt => self.encrypt_block(block),
            Direction::Decrypt => self.decrypt_block(block),
        }
    }

    /// Byte `i` of the key source, zero where the source is shorter.
    fn padded_byte(bytes: &Vec<u8>, i: usize) -> (b: u8)
        ensures
            b == model::spec_key_byte(bytes@, i as int),
    {
        if i < bytes.len() {
            bytes[i]
        } else {
            0
        }
    }

    /// Interpret a key source of at most 16 bytes as the two big-endian
    /// 64-bit halves of the master key. A source shorter than 16 bytes is
    /// zero-padded on the right; a longer one is rejected.
    pub fn extract_key(key_bytes: &Vec<u8>) -> (r: Result<[u64; 2], CipherErrors>)
        ensures
            key_bytes@.len() > 16 ==> r == Err::<[u64; 2], CipherErrors>(CipherErrors::KeyTooLong),
            key_bytes@.len() <= 16 ==> (r matches Ok(k) && k@[0] == model::spec_key_word(
                key_bytes@,
                0,
            ) && k@[1] == model::spec_key_word(key_bytes@, 8)),
    {
        if key_bytes.len() > 16 {
            return Err(CipherErrors::KeyTooLong);
        }
        let lo = [
            Self::padded_byte(key_bytes, 0),
            Self::padded_byte(key_bytes, 1),
            Self::padded_byte(key_bytes, 2),
            Self::padded_byte(key_bytes, 3),
            Self::padded_byte(key_bytes, 4),
            Self::padded_byte(key_bytes, 5),
            Self::padded_byte(key_bytes, 6),
            Self::padded_byte(key_bytes, 7),
        ];
        let hi = [
            Self::padded_byte(key_bytes, 8),
            Self::padded_byte(key_bytes, 9),
            Self::padded_byte(key_bytes, 10),
            Self::padded_byte(key_bytes, 11),
            Self::padded_byte(key_bytes, 12),
            Self::padded_byte(key_bytes, 13),
            Self::padded_byte(key_bytes, 14),
            Self::padded_byte(key_bytes, 15),
        ];
        proof {
            assert(lo@ =~= Seq::new(8, |i: int| model::spec_key_byte(key_bytes@, 0 + i)));
            assert(hi@ =~= Seq::new(8, |i: int| model::spec_key_byte(key_bytes@, 8 + i)));
        }
        let k1 = Self::bytes_to_word(&lo);
        let k2 = Self::bytes_to_word(&hi);
        Ok([k1, k2])
    }

    /// Validating factory for a cipher session: interprets the key source,
    /// derives the subkey schedule, and records the paths and direction the
    /// session will drive.
    pub fn build(
        key_bytes: &Vec<u8>,
        direction: Direction,
        input_path: String,
        key_path: String,
        output_path: String,
    ) -> (r: Result<Cipher, CipherErrors>)
        ensures
            key_bytes@.len() > 16 ==> r == Err::<Cipher, CipherErrors>(CipherErrors::KeyTooLong),
            key_bytes@.len() <= 16 ==> (r matches Ok(c) && {
                &&& c.key@[0] == model::spec_key_word(key_bytes@, 0)
                &&& c.key@[1] == model::spec_key_word(key_bytes@, 8)
                &&& c.subkeys@ == model::spec_subkeys(c.key@[0], c.key@[1])
                &&& c.direction == direction
                &&& c.input_path@ == input_path@
                &&& c.key_path@ == key_path@
                &&& c.output_path@ == output_path@
            }),
    {
        let key = match Self::extract_key(key_bytes) {
            Ok(k) => k,
            Err(e) => {
                return Err(e);
            },
        };
        let subkeys = Self::generate_subkeys(&key);
        Ok(Cipher { input_path, direction, key_path, output_path, key, subkeys })
    }

    /// Relies on rand::thread_rng and rand::Rng::gen: draws an array of 16
    /// bytes from the thread-local random generator. Nothing is assumed of
    /// the byte values themselves.
    #[verifier::external_body]
    fn random_bytes_16() -> (r: Vec<u8>)
        ensures
            r@.len() == 16,
    {
        let mut rng = rand::thread_rng();
        let key: [u8; 16] = rng.gen();
        key.to_vec()
    }

    /// Produce fresh key material: 16 uniformly random bytes.
    pub fn generate_key() -> (r: Vec<u8>)
        ensures
            r@.len() == 16,
    {
        Self::random_bytes_16()
    }
}

} // verus!
