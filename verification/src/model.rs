//! Mathematical model of the cipher: spec functions for the bit/nibble
//! primitives, the round function and its inverse, the key schedule, and the
//! block pipeline. Every executable function of this crate is specified
//! against these definitions.

use vstd::prelude::*;

verus! {

/// First fixed 16-entry nibble-substitution table used inside `p`.
pub open spec fn nib_f(i: u8) -> u8 {
    if i == 0 {
        0xF
    } else if i == 1 {
        0xD
    } else if i == 2 {
        0xB
    } else if i == 3 {
        0xB
    } else if i == 4 {
        0x7
    } else if i == 5 {
        0x5
    } else if i == 6 {
        0x7
    } else if i == 7 {
        0x7
    } else if i == 8 {
        0xE
    } else if i == 9 {
        0xD
    } else if i == 10 {
        0xA
    } else if i == 11 {
        0xB
    } else if i == 12 {
        0xE
    } else if i == 13 {
        0xD
    } else if i == 14 {
        0xE
    } else {
        0xF
    }
}

/// Second fixed 16-entry nibble-substitution table used inside `p`.
pub open spec fn nib_g(i: u8) -> u8 {
    if i == 0 {
        0xA
    } else if i == 1 {
        0x6
    } else if i == 2 {
        0x0
    } else if i == 3 {
        0x2
    } else if i == 4 {
        0xB
    } else if i == 5 {
        0xE
    } else if i == 6 {
        0x1
    } else if i == 7 {
        0x8
    } else if i == 8 {
        0xD
    } else if i == 9 {
        0x4
    } else if i == 10 {
        0x5
    } else if i == 11 {
        0x3
    } else if i == 12 {
        0xF
    } else if i == 13 {
        0xC
    } else if i == 14 {
        0x7
    } else {
        0x9
    }
}

/// Left rotation of a byte by one bit.
pub open spec fn spec_rotl1(x: u8) -> u8 {
    (x << 1u8) | (x >> 7u8)
}

/// The diffusion helper `phi`: fold the alternating bits of a one-bit left
/// rotation back into the byte.
pub open spec fn spec_phi(x: u8) -> u8 {
    (spec_rotl1(x) & 0xAA) ^ x
}

/// The nibble substitution `p`: a three-step Feistel network over the two
/// nibbles of one byte, built from the tables `nib_f` and `nib_g`.
#[verifier::opaque]
pub open spec fn spec_p(b: u8) -> u8 {
    let pl = (b >> 4u8) & 0xF;
    let pr = b & 0xF;
    let mid = pl ^ nib_f(pr);
    let qr = pr ^ nib_g(mid);
    let ql = mid ^ nib_f(qr);
    (ql << 4u8) | (qr & 0xF)
}

/// The inverse of `spec_p`: the same Feistel steps undone in reverse order.
#[verifier::opaque]
pub open spec fn spec_p_inv(c: u8) -> u8 {
    let ql = (c >> 4u8) & 0xF;
    let qr = c & 0xF;
    let mid = ql ^ nib_f(qr);
    let pr = qr ^ nib_g(mid);
    let pl = mid ^ nib_f(pr);
    (pl << 4u8) | (pr & 0xF)
}

/// Left output byte of the two-byte mixing step `m`.
pub open spec fn spec_m_left(xl: u8, xr: u8) -> u8 {
    spec_p(spec_phi(xl) ^ xr)
}

/// Right output byte of the two-byte mixing step `m`.
pub open spec fn spec_m_right(xl: u8, xr: u8) -> u8 {
    spec_p(spec_rotl1(xl) ^ xr)
}

/// Left input byte recovered from the two outputs of `m`.
pub open spec fn spec_m_left_inv(yl: u8, yr: u8) -> u8 {
    let a = spec_p_inv(yl) ^ spec_p_inv(yr);
    a ^ (spec_rotl1(a) & 0x55)
}

/// Right input byte recovered from the two outputs of `m`.
pub open spec fn spec_m_right_inv(yl: u8, yr: u8) -> u8 {
    spec_rotl1(spec_m_left_inv(yl, yr)) ^ spec_p_inv(yr)
}

/// `m` applied independently to the four consecutive byte pairs of an
/// 8-byte block.
pub open spec fn spec_m8(s: Seq<u8>) -> Seq<u8> {
    seq![
        spec_m_left(s[0], s[1]),
        spec_m_right(s[0], s[1]),
        spec_m_left(s[2], s[3]),
        spec_m_right(s[2], s[3]),
        spec_m_left(s[4], s[5]),
        spec_m_right(s[4], s[5]),
        spec_m_left(s[6], s[7]),
        spec_m_right(s[6], s[7]),
    ]
}

/// The inverse of `spec_m8`, pair by pair.
pub open spec fn spec_m8_inv(s: Seq<u8>) -> Seq<u8> {
    seq![
        spec_m_left_inv(s[0], s[1]),
        spec_m_right_inv(s[0], s[1]),
        spec_m_left_inv(s[2], s[3]),
        spec_m_right_inv(s[2], s[3]),
        spec_m_left_inv(s[4], s[5]),
        spec_m_right_inv(s[4], s[5]),
        spec_m_left_inv(s[6], s[7]),
        spec_m_right_inv(s[6], s[7]),
    ]
}

/// Byte-wise XOR of two 8-byte sequences.
pub open spec fn spec_xor8(a: Seq<u8>, b: Seq<u8>) -> Seq<u8> {
    Seq::new(8, |i: int| a[i] ^ b[i])
}

/// First fixed 8-byte constant XORed into the round function's state.
pub open spec fn round_c() -> Seq<u8> {
    seq![0xb7u8, 0xe1, 0x51, 0x62, 0x8a, 0xed, 0x2a, 0x6a]
}

/// Second fixed 8-byte constant XORed into the round function's state.
pub open spec fn round_cc() -> Seq<u8> {
    seq![0xbfu8, 0x71, 0x58, 0x80, 0x9c, 0xf4, 0xf3, 0xc7]
}

/// The eight bytes of a 64-bit word, most significant first.
pub open spec fn spec_bytes(x: u64) -> Seq<u8> {
    seq![
        (x >> 56u64) as u8,
        (x >> 48u64) as u8,
        (x >> 40u64) as u8,
        (x >> 32u64) as u8,
        (x >> 24u64) as u8,
        (x >> 16u64) as u8,
        (x >> 8u64) as u8,
        x as u8,
    ]
}

/// The 64-bit word formed by eight bytes read big-endian.
pub open spec fn spec_word(s: Seq<u8>) -> u64 {
    ((s[0] as u64) << 56u64) | ((s[1] as u64) << 48u64) | ((s[2] as u64) << 40u64) | ((s[3] as u64)
        << 32u64) | ((s[4] as u64) << 24u64) | ((s[5] as u64) << 16u64) | ((s[6] as u64) << 8u64)
        | (s[7] as u64)
}

/// One round of the block transform: mix, XOR a constant, mix again, XOR a
/// second constant.
pub open spec fn spec_round(x: u64) -> u64 {
    spec_word(spec_xor8(spec_m8(spec_xor8(spec_m8(spec_bytes(x)), round_c())), round_cc()))
}

/// The inverse of `spec_round`: the constants removed and the mixes undone
/// in reverse order.
pub open spec fn spec_round_inv(y: u64) -> u64 {
    spec_word(spec_m8_inv(spec_xor8(spec_m8_inv(spec_xor8(spec_bytes(y), round_cc())), round_c())))
}

/// Column `k` of the 8x8 bit matrix whose rows are the bytes of `s`: bit `k`
/// of each byte, the first byte contributing the most significant bit.
pub open spec fn spec_col(s: Seq<u8>, k: u8) -> u8 {
    (((s[0] >> k) & 1) << 7u8) | (((s[1] >> k) & 1) << 6u8) | (((s[2] >> k) & 1) << 5u8) | (((s[3]
        >> k) & 1) << 4u8) | (((s[4] >> k) & 1) << 3u8) | (((s[5] >> k) & 1) << 2u8) | (((s[6] >> k)
        & 1) << 1u8) | ((s[7] >> k) & 1)
}

/// The 8x8 bit-matrix transpose `t`: output byte `i` collects bit `7 - i` of
/// every input byte, reassembled big-endian.
#[verifier::opaque]
pub open spec fn spec_t(s: Seq<u8>) -> u64 {
    spec_word(
        seq![
            spec_col(s, 7),
            spec_col(s, 6),
            spec_col(s, 5),
            spec_col(s, 4),
            spec_col(s, 3),
            spec_col(s, 2),
            spec_col(s, 1),
            spec_col(s, 0),
        ],
    )
}

/// `p` applied to each byte of the big-endian representation of a word.
pub open spec fn spec_p8(x: u64) -> Seq<u8> {
    Seq::new(8, |i: int| spec_p(spec_bytes(x)[i]))
}

/// The nine fixed 64-bit constants of the key-schedule recurrence.
pub open spec fn key_ci(i: int) -> u64 {
    if i == 0 {
        0x290d61409ceb9e8f
    } else if i == 1 {
        0x1f855f585b013986
    } else if i == 2 {
        0x972ed7d635ae1716
    } else if i == 3 {
        0x21b6694ea5728708
    } else if i == 4 {
        0x3c18e6e7faadb889
    } else if i == 5 {
        0xb700f76f73841163
    } else if i == 6 {
        0x3f967f6ebf149dac
    } else if i == 7 {
        0xa40e7ef6204a6230
    } else {
        0x03c54b5a46a34465
    }
}

/// Subkey `i` of the schedule derived from the master key `(k1, k2)`.
pub open spec fn spec_subkey(k1: u64, k2: u64, i: int) -> u64
    decreases i,
{
    if i <= 0 {
        k2 ^ spec_t(spec_p8(k1 ^ key_ci(0)))
    } else if i == 1 {
        k1 ^ spec_t(spec_p8(spec_subkey(k1, k2, 0) ^ key_ci(1)))
    } else {
        spec_subkey(k1, k2, i - 2) ^ spec_t(spec_p8(spec_subkey(k1, k2, i - 1) ^ key_ci(i)))
    }
}

/// The full nine-value subkey schedule of a master key.
pub open spec fn spec_subkeys(k1: u64, k2: u64) -> Seq<u64> {
    Seq::new(9, |i: int| spec_subkey(k1, k2, i))
}

/// Byte `i` of a key source zero-padded on the right to 16 bytes.
pub open spec fn spec_key_byte(s: Seq<u8>, i: int) -> u8 {
    if 0 <= i < s.len() {
        s[i]
    } else {
        0u8
    }
}

/// The 64-bit word read big-endian from eight padded key bytes starting at
/// `off`.
pub open spec fn spec_key_word(s: Seq<u8>, off: int) -> u64 {
    spec_word(Seq::new(8, |i: int| spec_key_byte(s, off + i)))
}

/// Encryption of one block: seven rounds, each with a subkey pre-mixed into
/// its input, then a whitening XOR with the eighth subkey.
pub open spec fn spec_encrypt_block(sk: Seq<u64>, b: u64) -> u64 {
    let m1 = spec_round(sk[0] ^ b);
    let m2 = spec_round(sk[1] ^ m1);
    let m3 = spec_round(sk[2] ^ m2);
    let m4 = spec_round(sk[3] ^ m3);
    let m5 = spec_round(sk[4] ^ m4);
    let m6 = spec_round(sk[5] ^ m5);
    let m7 = spec_round(sk[6] ^ m6);
    sk[7] ^ m7
}

/// Decryption of one block: the whitening undone first, then the seven
/// rounds inverted with subkeys in reverse order.
pub open spec fn spec_decrypt_block(sk: Seq<u64>, c: u64) -> u64 {
    let m7 = sk[7] ^ c;
    let m6 = sk[6] ^ spec_round_inv(m7);
    let m5 = sk[5] ^ spec_round_inv(m6);
    let m4 = sk[4] ^ spec_round_inv(m5);
    let m3 = sk[3] ^ spec_round_inv(m4);
    let m2 = sk[2] ^ spec_round_inv(m3);
    let m1 = sk[1] ^ spec_round_inv(m2);
    sk[0] ^ spec_round_inv(m1)
}

} // verus!
