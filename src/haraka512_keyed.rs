//! Keyed Haraka-512: the key is XORed into the state before the rounds, and
//! the feed-forward uses the keyed state.

use vstd::prelude::*;
use crate::haraka512::{MAX_ROUNDS_512, haraka512_digest, permute512, truncstore};
use crate::lane::xor_bytes;
use crate::state::xor_in_place;

verus! {

/// The keyed Haraka-512 digest of `state` under `key` with `n` rounds: the
/// unkeyed digest of the keyed state `state ^ key`.
pub open spec fn haraka512_keyed_digest(state: Seq<u8>, key: Seq<u8>, n: nat) -> Seq<u8> {
    haraka512_digest(xor_bytes(state, key), n)
}

/// Computes the `N_ROUNDS`-round keyed Haraka-512 digest of `state` under
/// `key` into `dst`.
///
/// The key is XORed into the state, the rounds run on the result, the
/// result of the rounds is XORed with the keyed state, and the truncation
/// of that is written to `dst`.
pub fn haraka512_keyed<const N_ROUNDS: usize>(dst: &mut [u8; 32], state: &[u8; 64], key: &[u8; 64])
    requires
        N_ROUNDS <= MAX_ROUNDS_512,
    ensures
        final(dst)@ == haraka512_keyed_digest(state@, key@, N_ROUNDS as nat),
{
    let mut s = *state;
    xor_in_place(&mut s, key);
    let t = s;
    permute512(&mut s, N_ROUNDS);
    xor_in_place(&mut s, &t);
    truncstore(dst, &s);
}

} // verus!
