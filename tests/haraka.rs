use haraka::lane::{Lane, SBOX};
use haraka::{haraka256, haraka512, haraka512_keyed};

fn unhex(s: &str) -> Vec<u8> {
    (0..s.len() / 2)
        .map(|i| u8::from_str_radix(&s[2 * i..2 * i + 2], 16).unwrap())
        .collect()
}

fn counting_bytes<const M: usize>() -> [u8; M] {
    let mut b = [0u8; M];
    for i in 0..M {
        b[i] = i as u8;
    }
    b
}

fn differing_bits(a: &[u8; 32], b: &[u8; 32]) -> u32 {
    a.iter().zip(b.iter()).map(|(x, y)| (x ^ y).count_ones()).sum()
}

#[test]
fn test_keyed_xor_step() {
    let state = [0x11u8; 64];
    let key = [0x22u8; 64];
    let expected_xor_state = [0x33u8; 64];

    let mut xor_state_result = [0u8; 64];
    for off in [0usize, 16, 32, 48] {
        let mut s = Lane::read(&state, off);
        let k = Lane::read(&key, off);
        s.pxor(&k);
        s.write_part(0, 16, &mut xor_state_result, off);
    }

    assert_eq!(xor_state_result, expected_xor_state);
}

#[test]
fn keyed_equals_unkeyed_with_zero_key() {
    let mut msg = [0u8; 64];
    for i in 0..64 {
        msg[i] = i as u8;
    }
    let zero_key = [0u8; 64];

    let mut unkeyed = [0u8; 32];
    haraka512::<5>(&mut unkeyed, &msg);

    let mut keyed = [0u8; 32];
    haraka512_keyed::<5>(&mut keyed, &msg, &zero_key);

    assert_eq!(
        keyed, unkeyed,
        "keyed digest should equal un-keyed when key = 0"
    );
}

#[test]
fn haraka512_known_answer() {
    let msg: [u8; 64] = counting_bytes();
    let mut out = [0u8; 32];
    haraka512::<5>(&mut out, &msg);
    assert_eq!(
        out.to_vec(),
        unhex("be7f723b4e80a99813b292287f306f625a6d57331cae5f34dd9277b0945be2aa")
    );
}

#[test]
fn haraka256_known_answer() {
    let msg: [u8; 32] = counting_bytes();
    let mut out = [0u8; 32];
    haraka256::<5>(&mut out, &msg);
    assert_eq!(
        out.to_vec(),
        unhex("8027ccb87949774b78d0545fb72bf70c695c2a0923cbd47bba1159efbf2b2c1c")
    );
}

#[test]
fn haraka512_one_round() {
    let msg: [u8; 64] = counting_bytes();
    let mut out = [0u8; 32];
    haraka512::<1>(&mut out, &msg);
    assert_eq!(
        out.to_vec(),
        unhex("53fea687e41cb5f222d4c5a9356924c93fb1abb34ad39a15d14fd051dd1d5c1c")
    );
}

#[test]
fn haraka256_one_round() {
    let msg: [u8; 32] = counting_bytes();
    let mut out = [0u8; 32];
    haraka256::<1>(&mut out, &msg);
    assert_eq!(
        out.to_vec(),
        unhex("faff88602f3bed071aaf5a8f6c1f79a4e2af706aa5240b23037658404fcd8ee3")
    );
}

#[test]
fn keyed_known_answer() {
    let msg: [u8; 64] = counting_bytes();
    let key = [0x22u8; 64];
    let mut out = [0u8; 32];
    haraka512_keyed::<5>(&mut out, &msg, &key);
    assert_eq!(
        out.to_vec(),
        unhex("aab06e98e02af11b78fbee63bc0c1522bece3ebebd134192084252db80154560")
    );
}

#[test]
fn keyed_one_round() {
    let mut out = [0u8; 32];
    haraka512_keyed::<1>(&mut out, &[0x11u8; 64], &[0x22u8; 64]);
    assert_eq!(
        out.to_vec(),
        unhex("30330acd0044bb91477ad6f4d3bfcda28f87f683d17eec5321a7571be053691d")
    );
}

#[test]
fn nonzero_key_changes_digest() {
    let msg: [u8; 64] = counting_bytes();
    let mut unkeyed = [0u8; 32];
    haraka512::<5>(&mut unkeyed, &msg);
    let mut keyed = [0u8; 32];
    haraka512_keyed::<5>(&mut keyed, &msg, &[0x22u8; 64]);
    assert_ne!(keyed, unkeyed);
}

#[test]
fn zero_key_equivalence_every_round_count() {
    let state = [0xa5u8; 64];
    let zero = [0u8; 64];
    let mut a = [0u8; 32];
    let mut b = [0u8; 32];
    haraka512::<0>(&mut a, &state);
    haraka512_keyed::<0>(&mut b, &state, &zero);
    assert_eq!(a, b);
    haraka512::<2>(&mut a, &state);
    haraka512_keyed::<2>(&mut b, &state, &zero);
    assert_eq!(a, b);
    haraka512::<3>(&mut a, &state);
    haraka512_keyed::<3>(&mut b, &state, &zero);
    assert_eq!(a, b);
}

#[test]
fn zero_rounds_cancel_in_feed_forward() {
    let msg: [u8; 64] = counting_bytes();
    let mut out = [0xffu8; 32];
    haraka512::<0>(&mut out, &msg);
    assert_eq!(out, [0u8; 32]);
    let small: [u8; 32] = counting_bytes();
    let mut out2 = [0xffu8; 32];
    haraka256::<0>(&mut out2, &small);
    assert_eq!(out2, [0u8; 32]);
}

#[test]
fn repeated_calls_agree() {
    let msg = [0x5cu8; 64];
    let key = [0x36u8; 64];
    let mut a = [0u8; 32];
    let mut b = [1u8; 32];
    haraka512_keyed::<5>(&mut a, &msg, &key);
    haraka512_keyed::<5>(&mut b, &msg, &key);
    assert_eq!(a, b);
    haraka512::<5>(&mut a, &msg);
    haraka512::<5>(&mut b, &msg);
    assert_eq!(a, b);
}

#[test]
fn round_counts_give_different_digests() {
    let msg: [u8; 64] = counting_bytes();
    let mut d4 = [0u8; 32];
    let mut d5 = [0u8; 32];
    haraka512::<4>(&mut d4, &msg);
    haraka512::<5>(&mut d5, &msg);
    assert_ne!(d4, d5);
}

#[test]
fn single_bit_flip_changes_about_half_the_output() {
    let msg: [u8; 64] = counting_bytes();
    let mut base = [0u8; 32];
    haraka512::<5>(&mut base, &msg);
    let mut total: u32 = 0;
    for bit in 0..512usize {
        let mut flipped = msg;
        flipped[bit / 8] ^= 1u8 << (bit % 8);
        let mut out = [0u8; 32];
        haraka512::<5>(&mut out, &flipped);
        let d = differing_bits(&base, &out);
        assert!(d > 60 && d < 196, "bit {} changed {} output bits", bit, d);
        total += d;
    }
    let mean = total / 512;
    assert!(mean >= 120 && mean <= 136, "mean changed bits {}", mean);
}

#[test]
fn aes_round_matches_standard_vector() {
    let mut s = Lane { bytes: [0u8; 16] };
    s.bytes.copy_from_slice(&unhex("193de3bea0f4e22b9ac68d2ae9f84808"));
    let mut k = Lane { bytes: [0u8; 16] };
    k.bytes.copy_from_slice(&unhex("a0fafe1788542cb123a339392a6c7605"));
    s.aesenc(&k);
    assert_eq!(s.bytes.to_vec(), unhex("a49c7ff2689f352b6b5bea43026a5049"));
}

#[test]
fn lane_read_write_round_trip() {
    let src: [u8; 64] = counting_bytes();
    let mut dst = [0u8; 64];
    for off in [0usize, 16, 32, 48] {
        Lane::read(&src, off).write_part(0, 16, &mut dst, off);
    }
    assert_eq!(dst, src);
}

#[test]
fn lane_xor_with_zero_is_identity_and_self_xor_is_zero() {
    let src: [u8; 16] = counting_bytes();
    let mut a = Lane { bytes: src };
    a.pxor(&Lane { bytes: [0u8; 16] });
    assert_eq!(a.bytes, src);
    let b = a;
    a.pxor(&b);
    assert_eq!(a.bytes, [0u8; 16]);
}

#[test]
fn haraka512_two_rounds() {
    let msg: [u8; 64] = counting_bytes();
    let mut out = [0u8; 32];
    haraka512::<2>(&mut out, &msg);
    assert_eq!(
        out.to_vec(),
        unhex("69f352fa152fb59d44c247f81d85211af1e887fa70c7ea89d73321ddca4f1cab")
    );
}

fn gf_mul(mut a: u8, mut b: u8) -> u8 {
    let mut p = 0u8;
    while b != 0 {
        if b & 1 != 0 {
            p ^= a;
        }
        let hi = a & 0x80;
        a <<= 1;
        if hi != 0 {
            a ^= 0x1b;
        }
        b >>= 1;
    }
    p
}

#[test]
fn sbox_is_the_aes_substitution() {
    for x in 0..=255u8 {
        let inv = if x == 0 { 0 } else { (1..=255u8).find(|&y| gf_mul(x, y) == 1).unwrap() };
        let expected = inv
            ^ inv.rotate_left(1)
            ^ inv.rotate_left(2)
            ^ inv.rotate_left(3)
            ^ inv.rotate_left(4)
            ^ 0x63;
        assert_eq!(SBOX[x as usize], expected, "entry {:#04x}", x);
    }
}
