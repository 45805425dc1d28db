//! Haraka-512: four lanes, eight round constants per round, a feed-forward,
//! and a 32-byte truncation of the 64-byte result.

use vstd::prelude::*;
use crate::lane::{Lane, xor_bytes};
use crate::state::{
    aes_lanes,
    aes_lanes_in_place,
    permute_words,
    permute_words_in_place,
    xor_in_place,
};

verus! {

/// Most rounds that the constant table supplies for Haraka-512.
pub const MAX_ROUNDS_512: usize = 5;

/// The Haraka-512 word shuffle: word `k` of the mixed state is word
/// `MIX512[k]` of the state before it.
pub const MIX512: [usize; 16] = [3, 11, 7, 15, 8, 0, 12, 4, 9, 1, 13, 5, 2, 10, 6, 14];

/// Round `r` (counted from zero) of Haraka-512.
pub open spec fn round512(s: Seq<u8>, r: int) -> Seq<u8> {
    permute_words(aes_lanes(s, 4, 8 * r), MIX512@)
}

/// The first `n` rounds of Haraka-512.
pub open spec fn rounds512(s: Seq<u8>, n: nat) -> Seq<u8>
    decreases n,
{
    if n == 0 {
        s
    } else {
        round512(rounds512(s, (n - 1) as nat), n - 1)
    }
}

/// The 32 output bytes taken from a 64-byte state: the upper halves of
/// lanes 0 and 1, then the lower halves of lanes 2 and 3.
pub open spec fn truncate512(s: Seq<u8>) -> Seq<u8> {
    s.subrange(8, 16) + s.subrange(24, 32) + s.subrange(32, 40) + s.subrange(48, 56)
}

/// The Haraka-512 digest of `src` with `n` rounds.
pub open spec fn haraka512_digest(src: Seq<u8>, n: nat) -> Seq<u8> {
    truncate512(xor_bytes(rounds512(src, n), src))
}

/// One round: two AES rounds on every lane with constants `rci .. rci + 8`,
/// then the word shuffle.
pub fn aes_mix4(state: &mut [u8; 64], rci: usize)
    requires
        rci + 8 <= crate::constants::RC_LEN,
    ensures
        final(state)@ == permute_words(aes_lanes(old(state)@, 4, rci as int), MIX512@),
{
    aes_lanes_in_place(state, 4, rci);
    permute_words_in_place(state, &MIX512);
}

/// Writes the truncation of `state` into `dst`.
pub fn truncstore(dst: &mut [u8; 32], state: &[u8; 64])
    ensures
        final(dst)@ == truncate512(state@),
{
    Lane::read(state, 0).write_part(8, 8, dst, 0);
    Lane::read(state, 16).write_part(8, 8, dst, 8);
    Lane::read(state, 32).write_part(0, 8, dst, 16);
    Lane::read(state, 48).write_part(0, 8, dst, 24);
    assert(dst@ =~= truncate512(state@));
}

/// Runs `n` rounds of Haraka-512 on `state`, round `i` with constants from `8 * i`.
pub fn permute512(state: &mut [u8; 64], n: usize)
    requires
        n <= MAX_ROUNDS_512,
    ensures
        final(state)@ == rounds512(old(state)@, n as nat),
{
    let ghost s0 = state@;
    let mut i: usize = 0;
    while i < n
        invariant
            i <= n,
            n <= MAX_ROUNDS_512,
            state@ == rounds512(s0, i as nat),
        decreases n - i,
    {
        aes_mix4(state, 8 * i);
        i = i + 1;
    }
}

/// Computes the `N_ROUNDS`-round Haraka-512 digest of `src` into `dst`.
pub fn haraka512<const N_ROUNDS: usize>(dst: &mut [u8; 32], src: &[u8; 64])
    requires
        N_ROUNDS <= MAX_ROUNDS_512,
    ensures
        final(dst)@ == haraka512_digest(src@, N_ROUNDS as nat),
{
    let mut s = *src;
    permute512(&mut s, N_ROUNDS);
    xor_in_place(&mut s, src);
    truncstore(dst, &s);
}

} // verus!
