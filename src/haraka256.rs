//! Haraka-256: two lanes, four round constants per round, and a feed-forward.

use vstd::prelude::*;
use crate::lane::xor_bytes;
use crate::state::{
    aes_lanes,
    aes_lanes_in_place,
    permute_words,
    permute_words_in_place,
    xor_in_place,
};

verus! {

/// Most rounds that the constant table supplies for Haraka-256.
pub const MAX_ROUNDS_256: usize = 10;

/// The Haraka-256 word shuffle: word `k` of the mixed state is word
/// `MIX256[k]` of the state before it.
pub const MIX256: [usize; 8] = [0, 4, 1, 5, 2, 6, 3, 7];

/// Round `r` (counted from zero) of Haraka-256.
pub open spec fn round256(s: Seq<u8>, r: int) -> Seq<u8> {
    permute_words(aes_lanes(s, 2, 4 * r), MIX256@)
}

/// The first `n` rounds of Haraka-256.
pub open spec fn rounds256(s: Seq<u8>, n: nat) -> Seq<u8>
    decreases n,
{
    if n == 0 {
        s
    } else {
        round256(rounds256(s, (n - 1) as nat), n - 1)
    }
}

/// The Haraka-256 digest of `src` with `n` rounds.
pub open spec fn haraka256_digest(src: Seq<u8>, n: nat) -> Seq<u8> {
    xor_bytes(rounds256(src, n), src)
}

/// One round: two AES rounds on both lanes with constants `rci .. rci + 4`,
/// then the word shuffle.
pub fn aes_mix2(state: &mut [u8; 32], rci: usize)
    requires
        rci + 4 <= crate::constants::RC_LEN,
    ensures
        final(state)@ == permute_words(aes_lanes(old(state)@, 2, rci as int), MIX256@),
{
    aes_lanes_in_place(state, 2, rci);
    permute_words_in_place(state, &MIX256);
}

/// Computes the `N_ROUNDS`-round Haraka-256 digest of `src` into `dst`.
pub fn haraka256<const N_ROUNDS: usize>(dst: &mut [u8; 32], src: &[u8; 32])
    requires
        N_ROUNDS <= MAX_ROUNDS_256,
    ensures
        final(dst)@ == haraka256_digest(src@, N_ROUNDS as nat),
{
    let mut s = *src;
    let mut i: usize = 0;
    while i < N_ROUNDS
        invariant
            i <= N_ROUNDS,
            N_ROUNDS <= MAX_ROUNDS_256,
            s@ == rounds256(src@, i as nat),
        decreases N_ROUNDS - i,
    {
        aes_mix2(&mut s, 4 * i);
        i = i + 1;
    }
    xor_in_place(&mut s, src);
    *dst = s;
}

} // verus!
