//! Haraka-256 and Haraka-512: short-input permutations built from AES rounds.
//!
//! Each function takes its round count as a const parameter; the canonical
//! construction uses five rounds.

pub mod constants;
pub mod lane;
pub mod state;
mod haraka256;
mod haraka512;
mod haraka512_keyed;

use vstd::prelude::*;

pub use crate::haraka256::{MAX_ROUNDS_256, haraka256_digest, rounds256};
pub use crate::haraka512::{MAX_ROUNDS_512, haraka512_digest, rounds512, truncate512};
pub use crate::haraka512_keyed::haraka512_keyed_digest;
use crate::constants::RC_LEN;
use crate::lane::xor_bytes;
use crate::state::key_index;

verus! {

/// Computes the `N_ROUNDS`-round Haraka-256 digest of the 32 bytes `src` into `dst`.
pub fn haraka256<const N_ROUNDS: usize>(dst: &mut [u8; 32], src: &[u8; 32])
    requires
        N_ROUNDS <= MAX_ROUNDS_256,
    ensures
        final(dst)@ == haraka256_digest(src@, N_ROUNDS as nat),
{
    haraka256::haraka256::<N_ROUNDS>(dst, src)
}

/// Computes the `N_ROUNDS`-round Haraka-512 digest of the 64 bytes `src` into `dst`.
pub fn haraka512<const N_ROUNDS: usize>(dst: &mut [u8; 32], src: &[u8; 64])
    requires
        N_ROUNDS <= MAX_ROUNDS_512,
    ensures
        final(dst)@ == haraka512_digest(src@, N_ROUNDS as nat),
{
    haraka512::haraka512::<N_ROUNDS>(dst, src)
}

/// Computes the `N_ROUNDS`-round keyed Haraka-512 digest into `dst`.
///
/// The 64-byte `state` is XORed with the 64-byte `key`, permuted with
/// `N_ROUNDS` rounds, XORed with the keyed state (the feed-forward), and
/// truncated to 32 bytes: the upper halves of the first two lanes, then the
/// lower halves of the last two.
pub fn haraka512_keyed<const N_ROUNDS: usize>(dst: &mut [u8; 32], state: &[u8; 64], key: &[u8; 64])
    requires
        N_ROUNDS <= MAX_ROUNDS_512,
    ensures
        final(dst)@ == haraka512_keyed_digest(state@, key@, N_ROUNDS as nat),
{
    haraka512_keyed::haraka512_keyed::<N_ROUNDS>(dst, state, key)
}

/// With an all-zero key, keyed Haraka-512 gives the same digest as unkeyed
/// Haraka-512 with the same round count: XOR with zero leaves the state as it
/// is, so the keyed state and the input coincide.
pub proof fn lemma_zero_key_equivalence(state: Seq<u8>, n: nat)
    requires
        state.len() == 64,
        n <= MAX_ROUNDS_512,
    ensures
        haraka512_keyed_digest(state, Seq::new(64, |i: int| 0u8), n) == haraka512_digest(state, n),
{
    let zero = Seq::new(64, |i: int| 0u8);
    assert forall|i: int| 0 <= i < 64 implies xor_bytes(state, zero)[i] == state[i] by {
        let x = state[i];
        assert(x ^ 0u8 == x) by (bit_vector);
    }
    assert(xor_bytes(state, zero) =~= state);
}

/// Two different rounds of Haraka-512 never use the same round constant:
/// round `r` uses constants `8 * r .. 8 * r + 8`.
pub proof fn lemma_round_keys_disjoint512(
    r1: int,
    lane1: int,
    step1: int,
    r2: int,
    lane2: int,
    step2: int,
)
    requires
        0 <= r1,
        0 <= r2,
        r1 != r2,
        0 <= lane1 < 4,
        0 <= lane2 < 4,
        0 <= step1 < 2,
        0 <= step2 < 2,
    ensures
        key_index(4, 8 * r1, lane1, step1) != key_index(4, 8 * r2, lane2, step2),
        8 * r1 <= key_index(4, 8 * r1, lane1, step1) < 8 * r1 + 8,
{
}

/// Two different rounds of Haraka-256 never use the same round constant:
/// round `r` uses constants `4 * r .. 4 * r + 4`.
pub proof fn lemma_round_keys_disjoint256(
    r1: int,
    lane1: int,
    step1: int,
    r2: int,
    lane2: int,
    step2: int,
)
    requires
        0 <= r1,
        0 <= r2,
        r1 != r2,
        0 <= lane1 < 2,
        0 <= lane2 < 2,
        0 <= step1 < 2,
        0 <= step2 < 2,
    ensures
        key_index(2, 4 * r1, lane1, step1) != key_index(2, 4 * r2, lane2, step2),
        4 * r1 <= key_index(2, 4 * r1, lane1, step1) < 4 * r1 + 4,
{
}

/// Every round constant that a Haraka-512 run of at most `MAX_ROUNDS_512`
/// rounds uses lies inside the constant table.
pub proof fn lemma_round_keys_in_table512(r: int, lane: int, step: int)
    requires
        0 <= r < MAX_ROUNDS_512,
        0 <= lane < 4,
        0 <= step < 2,
    ensures
        0 <= key_index(4, 8 * r, lane, step) < RC_LEN,
{
}

/// Every round constant that a Haraka-256 run of at most `MAX_ROUNDS_256`
/// rounds uses lies inside the constant table.
pub proof fn lemma_round_keys_in_table256(r: int, lane: int, step: int)
    requires
        0 <= r < MAX_ROUNDS_256,
        0 <= lane < 2,
        0 <= step < 2,
    ensures
        0 <= key_index(2, 4 * r, lane, step) < RC_LEN,
{
}

} // verus!
