//! The inversion laws of the cipher: the nibble substitution, the two-byte
//! mixing step and the bit-matrix transpose are bijections, each undone
//! exactly by its inverse, culminating in the block round-trip law for any
//! master key.

use vstd::prelude::*;

use crate::model::{
    nib_f, nib_g, round_c, round_cc, spec_bytes, spec_col, spec_decrypt_block,
    spec_encrypt_block, spec_m8, spec_m8_inv, spec_m_left, spec_m_left_inv, spec_m_right,
    spec_m_right_inv, spec_p, spec_p_inv, spec_phi, spec_rotl1, spec_round, spec_round_inv,
    spec_subkeys, spec_t, spec_word, spec_xor8,
};

verus! {

/// The nibble substitution is a bijection on bytes: `spec_p_inv` undoes
/// `spec_p` on every byte.
pub proof fn lemma_p_round_trip(b: u8)
    ensures
        spec_p_inv(spec_p(b)) == b,
{
    reveal(spec_p);
    reveal(spec_p_inv);
    let pl = (b >> 4u8) & 0xF;
    let pr = b & 0xF;
    let fpr = nib_f(pr);
    let mid = pl ^ fpr;
    let gmid = nib_g(mid);
    let qr = pr ^ gmid;
    let fqr = nib_f(qr);
    let ql = mid ^ fqr;
    let c = spec_p(b);
    assert(c == (ql << 4u8) | (qr & 0xF));
    assert(fpr <= 0xF);
    assert(fqr <= 0xF);
    assert(gmid <= 0xF);
    assert(mid <= 0xF) by (bit_vector)
        requires
            mid == ((b >> 4u8) & 0xF) ^ fpr,
            fpr <= 0xF,
    ;
    assert(ql <= 0xF && qr <= 0xF) by (bit_vector)
        requires
            ql == mid ^ fqr,
            qr == (b & 0xF) ^ gmid,
            mid <= 0xF,
            fqr <= 0xF,
            gmid <= 0xF,
    ;
    assert(((c >> 4u8) & 0xF) == ql && (c & 0xF) == qr) by (bit_vector)
        requires
            c == (ql << 4u8) | (qr & 0xF),
            ql <= 0xF,
            qr <= 0xF,
    ;
    assert((mid ^ fqr) ^ fqr == mid) by (bit_vector);
    assert((pr ^ gmid) ^ gmid == pr) by (bit_vector);
    assert((pl ^ fpr) ^ fpr == pl) by (bit_vector);
    assert(((((b >> 4u8) & 0xF) << 4u8) | ((b & 0xF) & 0xF)) == b) by (bit_vector);
}

/// The two-byte mixing step is a bijection: its inverse recovers both input
/// bytes from the two output bytes.
pub proof fn lemma_m_round_trip(xl: u8, xr: u8)
    ensures
        spec_m_left_inv(spec_m_left(xl, xr), spec_m_right(xl, xr)) == xl,
        spec_m_right_inv(spec_m_left(xl, xr), spec_m_right(xl, xr)) == xr,
{
    let yl = spec_m_left(xl, xr);
    let yr = spec_m_right(xl, xr);
    lemma_p_round_trip(spec_phi(xl) ^ xr);
    lemma_p_round_trip(spec_rotl1(xl) ^ xr);
    let a = spec_p_inv(yl) ^ spec_p_inv(yr);
    let r1 = spec_rotl1(xl);
    assert(a == ((r1 & 0xAA) ^ xl ^ xr) ^ (r1 ^ xr));
    assert(a ^ (((a << 1u8) | (a >> 7u8)) & 0x55) == xl) by (bit_vector)
        requires
            a == ((((xl << 1u8) | (xl >> 7u8)) & 0xAA) ^ xl ^ xr) ^ (((xl << 1u8) | (xl >> 7u8))
                ^ xr),
    ;
    assert(spec_m_left_inv(yl, yr) == xl);
    assert(r1 ^ (r1 ^ xr) == xr) by (bit_vector);
    assert(spec_m_right_inv(yl, yr) == xr);
}

/// The vectorized mixing step is a bijection on 8-byte blocks.
pub proof fn lemma_m8_round_trip(s: Seq<u8>)
    requires
        s.len() == 8,
    ensures
        spec_m8_inv(spec_m8(s)) == s,
{
    lemma_m_round_trip(s[0], s[1]);
    lemma_m_round_trip(s[2], s[3]);
    lemma_m_round_trip(s[4], s[5]);
    lemma_m_round_trip(s[6], s[7]);
    assert(spec_m8_inv(spec_m8(s)) =~= s);
}

/// XORing the same 8-byte constant twice returns the original block.
proof fn lemma_xor8_cancel(s: Seq<u8>, c: Seq<u8>)
    requires
        s.len() == 8,
    ensures
        spec_xor8(spec_xor8(s, c), c) == s,
{
    assert forall|i: int| 0 <= i < 8 implies spec_xor8(spec_xor8(s, c), c)[i] == s[i] by {
        let x = s[i];
        let y = c[i];
        assert((x ^ y) ^ y == x) by (bit_vector);
    }
    assert(spec_xor8(spec_xor8(s, c), c) =~= s);
}

/// Splitting a word into bytes inverts assembling it from those bytes.
proof fn lemma_bytes_of_word(s: Seq<u8>)
    requires
        s.len() == 8,
    ensures
        spec_bytes(spec_word(s)) == s,
{
    let b0 = s[0];
    let b1 = s[1];
    let b2 = s[2];
    let b3 = s[3];
    let b4 = s[4];
    let b5 = s[5];
    let b6 = s[6];
    let b7 = s[7];
    let w = spec_word(s);
    assert((w >> 56u64) as u8 == b0 && (w >> 48u64) as u8 == b1 && (w >> 40u64) as u8 == b2 && (w
        >> 32u64) as u8 == b3 && (w >> 24u64) as u8 == b4 && (w >> 16u64) as u8 == b5 && (w
        >> 8u64) as u8 == b6 && w as u8 == b7) by (bit_vector)
        requires
            w == ((b0 as u64) << 56u64) | ((b1 as u64) << 48u64) | ((b2 as u64) << 40u64) | ((b3
                as u64) << 32u64) | ((b4 as u64) << 24u64) | ((b5 as u64) << 16u64) | ((b6 as u64)
                << 8u64) | (b7 as u64),
    ;
    assert(spec_bytes(w) =~= s);
}

/// Assembling a word from its bytes returns the word.
proof fn lemma_word_of_bytes(x: u64)
    ensures
        spec_word(spec_bytes(x)) == x,
{
    assert(((((x >> 56u64) as u8) as u64) << 56u64) | ((((x >> 48u64) as u8) as u64) << 48u64) | ((((
    x >> 40u64) as u8) as u64) << 40u64) | ((((x >> 32u64) as u8) as u64) << 32u64) | ((((x
        >> 24u64) as u8) as u64) << 24u64) | ((((x >> 16u64) as u8) as u64) << 16u64) | ((((x
        >> 8u64) as u8) as u64) << 8u64) | (((x as u8) as u64)) == x) by (bit_vector);
}

/// Bit-level core of the transpose involution: reading the columns of
/// the transposed word gives back the original row bytes.
#[verifier::rlimit(100)]
proof fn lemma_t_bits_involution(b0: u8, b1: u8, b2: u8, b3: u8, b4: u8, b5: u8, b6: u8, b7: u8, c0: u8, c1: u8, c2: u8, c3: u8, c4: u8, c5: u8, c6: u8, c7: u8, y: u64, e0: u8, e1: u8, e2: u8, e3: u8, e4: u8, e5: u8, e6: u8, e7: u8, d0: u8, d1: u8, d2: u8, d3: u8, d4: u8, d5: u8, d6: u8, d7: u8)
    by (bit_vector)
    requires
        c7 == (((b0 >> 7u8) & 1) << 7u8) | (((b1 >> 7u8) & 1) << 6u8) | (((b2 >> 7u8) & 1) << 5u8) | (((b3 >> 7u8) & 1) << 4u8) | (((b4 >> 7u8) & 1) << 3u8) | (((b5 >> 7u8) & 1) << 2u8) | (((b6 >> 7u8) & 1) << 1u8) | ((b7 >> 7u8) & 1),
        c6 == (((b0 >> 6u8) & 1) << 7u8) | (((b1 >> 6u8) & 1) << 6u8) | (((b2 >> 6u8) & 1) << 5u8) | (((b3 >> 6u8) & 1) << 4u8) | (((b4 >> 6u8) & 1) << 3u8) | (((b5 >> 6u8) & 1) << 2u8) | (((b6 >> 6u8) & 1) << 1u8) | ((b7 >> 6u8) & 1),
        c5 == (((b0 >> 5u8) & 1) << 7u8) | (((b1 >> 5u8) & 1) << 6u8) | (((b2 >> 5u8) & 1) << 5u8) | (((b3 >> 5u8) & 1) << 4u8) | (((b4 >> 5u8) & 1) << 3u8) | (((b5 >> 5u8) & 1) << 2u8) | (((b6 >> 5u8) & 1) << 1u8) | ((b7 >> 5u8) & 1),
        c4 == (((b0 >> 4u8) & 1) << 7u8) | (((b1 >> 4u8) & 1) << 6u8) | (((b2 >> 4u8) & 1) << 5u8) | (((b3 >> 4u8) & 1) << 4u8) | (((b4 >> 4u8) & 1) << 3u8) | (((b5 >> 4u8) & 1) << 2u8) | (((b6 >> 4u8) & 1) << 1u8) | ((b7 >> 4u8) & 1),
        c3 == (((b0 >> 3u8) & 1) << 7u8) | (((b1 >> 3u8) & 1) << 6u8) | (((b2 >> 3u8) & 1) << 5u8) | (((b3 >> 3u8) & 1) << 4u8) | (((b4 >> 3u8) & 1) << 3u8) | (((b5 >> 3u8) & 1) << 2u8) | (((b6 >> 3u8) & 1) << 1u8) | ((b7 >> 3u8) & 1),
        c2 == (((b0 >> 2u8) & 1) << 7u8) | (((b1 >> 2u8) & 1) << 6u8) | (((b2 >> 2u8) & 1) << 5u8) | (((b3 >> 2u8) & 1) << 4u8) | (((b4 >> 2u8) & 1) << 3u8) | (((b5 >> 2u8) & 1) << 2u8) | (((b6 >> 2u8) & 1) << 1u8) | ((b7 >> 2u8) & 1),
        c1 == (((b0 >> 1u8) & 1) << 7u8) | (((b1 >> 1u8) & 1) << 6u8) | (((b2 >> 1u8) & 1) << 5u8) | (((b3 >> 1u8) & 1) << 4u8) | (((b4 >> 1u8) & 1) << 3u8) | (((b5 >> 1u8) & 1) << 2u8) | (((b6 >> 1u8) & 1) << 1u8) | ((b7 >> 1u8) & 1),
        c0 == (((b0 >> 0u8) & 1) << 7u8) | (((b1 >> 0u8) & 1) << 6u8) | (((b2 >> 0u8) & 1) << 5u8) | (((b3 >> 0u8) & 1) << 4u8) | (((b4 >> 0u8) & 1) << 3u8) | (((b5 >> 0u8) & 1) << 2u8) | (((b6 >> 0u8) & 1) << 1u8) | ((b7 >> 0u8) & 1),
        y == ((c7 as u64) << 56u64) | ((c6 as u64) << 48u64) | ((c5 as u64) << 40u64) | ((c4 as u64) << 32u64) | ((c3 as u64) << 24u64) | ((c2 as u64) << 16u64) | ((c1 as u64) << 8u64) | (c0 as u64),
        e0 == (y >> 56u64) as u8,
        e1 == (y >> 48u64) as u8,
        e2 == (y >> 40u64) as u8,
        e3 == (y >> 32u64) as u8,
        e4 == (y >> 24u64) as u8,
        e5 == (y >> 16u64) as u8,
        e6 == (y >> 8u64) as u8,
        e7 == y as u8,
        d7 == (((e0 >> 7u8) & 1) << 7u8) | (((e1 >> 7u8) & 1) << 6u8) | (((e2 >> 7u8) & 1) << 5u8) | (((e3 >> 7u8) & 1) << 4u8) | (((e4 >> 7u8) & 1) << 3u8) | (((e5 >> 7u8) & 1) << 2u8) | (((e6 >> 7u8) & 1) << 1u8) | ((e7 >> 7u8) & 1),
        d6 == (((e0 >> 6u8) & 1) << 7u8) | (((e1 >> 6u8) & 1) << 6u8) | (((e2 >> 6u8) & 1) << 5u8) | (((e3 >> 6u8) & 1) << 4u8) | (((e4 >> 6u8) & 1) << 3u8) | (((e5 >> 6u8) & 1) << 2u8) | (((e6 >> 6u8) & 1) << 1u8) | ((e7 >> 6u8) & 1),
        d5 == (((e0 >> 5u8) & 1) << 7u8) | (((e1 >> 5u8) & 1) << 6u8) | (((e2 >> 5u8) & 1) << 5u8) | (((e3 >> 5u8) & 1) << 4u8) | (((e4 >> 5u8) & 1) << 3u8) | (((e5 >> 5u8) & 1) << 2u8) | (((e6 >> 5u8) & 1) << 1u8) | ((e7 >> 5u8) & 1),
        d4 == (((e0 >> 4u8) & 1) << 7u8) | (((e1 >> 4u8) & 1) << 6u8) | (((e2 >> 4u8) & 1) << 5u8) | (((e3 >> 4u8) & 1) << 4u8) | (((e4 >> 4u8) & 1) << 3u8) | (((e5 >> 4u8) & 1) << 2u8) | (((e6 >> 4u8) & 1) << 1u8) | ((e7 >> 4u8) & 1),
        d3 == (((e0 >> 3u8) & 1) << 7u8) | (((e1 >> 3u8) & 1) << 6u8) | (((e2 >> 3u8) & 1) << 5u8) | (((e3 >> 3u8) & 1) << 4u8) | (((e4 >> 3u8) & 1) << 3u8) | (((e5 >> 3u8) & 1) << 2u8) | (((e6 >> 3u8) & 1) << 1u8) | ((e7 >> 3u8) & 1),
        d2 == (((e0 >> 2u8) & 1) << 7u8) | (((e1 >> 2u8) & 1) << 6u8) | (((e2 >> 2u8) & 1) << 5u8) | (((e3 >> 2u8) & 1) << 4u8) | (((e4 >> 2u8) & 1) << 3u8) | (((e5 >> 2u8) & 1) << 2u8) | (((e6 >> 2u8) & 1) << 1u8) | ((e7 >> 2u8) & 1),
        d1 == (((e0 >> 1u8) & 1) << 7u8) | (((e1 >> 1u8) & 1) << 6u8) | (((e2 >> 1u8) & 1) << 5u8) | (((e3 >> 1u8) & 1) << 4u8) | (((e4 >> 1u8) & 1) << 3u8) | (((e5 >> 1u8) & 1) << 2u8) | (((e6 >> 1u8) & 1) << 1u8) | ((e7 >> 1u8) & 1),
        d0 == (((e0 >> 0u8) & 1) << 7u8) | (((e1 >> 0u8) & 1) << 6u8) | (((e2 >> 0u8) & 1) << 5u8) | (((e3 >> 0u8) & 1) << 4u8) | (((e4 >> 0u8) & 1) << 3u8) | (((e5 >> 0u8) & 1) << 2u8) | (((e6 >> 0u8) & 1) << 1u8) | ((e7 >> 0u8) & 1),
    ensures
        d7 == b0,
        d6 == b1,
        d5 == b2,
        d4 == b3,
        d3 == b4,
        d2 == b5,
        d1 == b6,
        d0 == b7,
{
}

/// The bit-matrix transpose is an involution: transposing the bytes of a
/// transposed block recovers the original word, so `t` is a bijection and
/// is its own inverse.
#[verifier::rlimit(100)]
pub proof fn lemma_t_involution(s: Seq<u8>)
    requires
        s.len() == 8,
    ensures
        spec_t(spec_bytes(spec_t(s))) == spec_word(s),
{
    reveal(spec_t);
    let y = spec_t(s);
    let s2 = spec_bytes(y);
    lemma_t_bits_involution(
        s[0], s[1], s[2], s[3], s[4], s[5], s[6], s[7],
        spec_col(s, 0), spec_col(s, 1), spec_col(s, 2), spec_col(s, 3),
        spec_col(s, 4), spec_col(s, 5), spec_col(s, 6), spec_col(s, 7),
        y,
        s2[0], s2[1], s2[2], s2[3], s2[4], s2[5], s2[6], s2[7],
        spec_col(s2, 0), spec_col(s2, 1), spec_col(s2, 2), spec_col(s2, 3),
        spec_col(s2, 4), spec_col(s2, 5), spec_col(s2, 6), spec_col(s2, 7),
    );
    assert(spec_t(s2) == spec_word(
        seq![
            spec_col(s2, 7),
            spec_col(s2, 6),
            spec_col(s2, 5),
            spec_col(s2, 4),
            spec_col(s2, 3),
            spec_col(s2, 2),
            spec_col(s2, 1),
            spec_col(s2, 0),
        ],
    ));
}

/// The round function is a bijection on 64-bit blocks: `spec_round_inv`
/// undoes `spec_round`.
pub proof fn lemma_round_round_trip(x: u64)
    ensures
        spec_round_inv(spec_round(x)) == x,
{
    let s0 = spec_bytes(x);
    let s1 = spec_m8(s0);
    let s2 = spec_xor8(s1, round_c());
    let s3 = spec_m8(s2);
    let s4 = spec_xor8(s3, round_cc());
    assert(spec_round(x) == spec_word(s4));
    lemma_bytes_of_word(s4);
    lemma_xor8_cancel(s3, round_cc());
    lemma_m8_round_trip(s2);
    lemma_xor8_cancel(s1, round_c());
    lemma_m8_round_trip(s0);
    lemma_word_of_bytes(x);
}

/// Decrypting an encrypted block with the same subkey schedule returns the
/// block, for any schedule.
pub proof fn lemma_block_round_trip(sk: Seq<u64>, b: u64)
    ensures
        spec_decrypt_block(sk, spec_encrypt_block(sk, b)) == b,
{
    assert(forall|k: u64, m: u64| k ^ (k ^ m) == m) by (bit_vector);
    let m1 = spec_round(sk[0] ^ b);
    let m2 = spec_round(sk[1] ^ m1);
    let m3 = spec_round(sk[2] ^ m2);
    let m4 = spec_round(sk[3] ^ m3);
    let m5 = spec_round(sk[4] ^ m4);
    let m6 = spec_round(sk[5] ^ m5);
    let m7 = spec_round(sk[6] ^ m6);
    lemma_round_round_trip(sk[0] ^ b);
    lemma_round_round_trip(sk[1] ^ m1);
    lemma_round_round_trip(sk[2] ^ m2);
    lemma_round_round_trip(sk[3] ^ m3);
    lemma_round_round_trip(sk[4] ^ m4);
    lemma_round_round_trip(sk[5] ^ m5);
    lemma_round_round_trip(sk[6] ^ m6);
}

/// Round-trip law of the cipher: for every master key and every 8-byte
/// block, decrypting the encryption of the block under that key's schedule
/// returns the block.
pub proof fn lemma_encrypt_then_decrypt(k1: u64, k2: u64, block: u64)
    ensures
        spec_decrypt_block(
            spec_subkeys(k1, k2),
            spec_encrypt_block(spec_subkeys(k1, k2), block),
        ) == block,
{
    lemma_block_round_trip(spec_subkeys(k1, k2), block);
}

} // verus!
