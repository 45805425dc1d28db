//! Operations on a whole Haraka state: a run of 128-bit lanes laid out one
//! after another, lane `i` at bytes `16 * i .. 16 * i + 16`.

use vstd::prelude::*;
use crate::constants::{HARAKA_RC, RC_LEN, rc};
use crate::lane::{Lane, aes_round, xor_bytes};

verus! {

/// Lane `i` of a state.
pub open spec fn lane_of(s: Seq<u8>, i: int) -> Seq<u8> {
    s.subrange(16 * i, 16 * i + 16)
}

/// Position in the constant table of the round key that AES step `step`
/// (0 or 1) of lane `lane` uses, in a state of `n` lanes whose round starts
/// at constant `c`.
pub open spec fn key_index(n: int, c: int, lane: int, step: int) -> int {
    c + n * step + lane
}

/// Lane `i` after the two AES rounds of a round that starts at constant `c`.
pub open spec fn aes2(s: Seq<u8>, n: int, c: int, i: int) -> Seq<u8> {
    aes_round(aes_round(lane_of(s, i), rc(key_index(n, c, i, 0))), rc(key_index(n, c, i, 1)))
}

/// The AES half of a round on a state of `n` lanes: two AES rounds on every lane.
pub open spec fn aes_lanes(s: Seq<u8>, n: int, c: int) -> Seq<u8> {
    Seq::new((16 * n) as nat, |j: int| aes2(s, n, c, j / 16)[j % 16])
}

/// The mix half of a round: 32-bit word `k` of the result is word `pi[k]` of `s`.
pub open spec fn permute_words(s: Seq<u8>, pi: Seq<usize>) -> Seq<u8> {
    Seq::new(s.len(), |j: int| s[4 * pi[j / 4] + j % 4])
}

/// Applies two AES rounds to each of the `n` lanes of `state`, lane `i` under
/// constants `c + i` and then `c + n + i`.
pub fn aes_lanes_in_place<const M: usize>(state: &mut [u8; M], n: usize, c: usize)
    requires
        M == 16 * n,
        c + 2 * n <= RC_LEN,
    ensures
        final(state)@ == aes_lanes(old(state)@, n as int, c as int),
{
    let ghost s0 = state@;
    let mut i: usize = 0;
    while i < n
        invariant
            i <= n,
            M == 16 * n,
            c + 2 * n <= RC_LEN,
            state@.len() == M,
            s0.len() == M,
            forall|j: int| 0 <= j < 16 * i ==> state@[j] == aes_lanes(s0, n as int, c as int)[j],
            forall|j: int| 16 * i <= j < M ==> state@[j] == s0[j],
        decreases n - i,
    {
        let mut l = Lane::read(state, 16 * i);
        assert(l@ =~= lane_of(s0, i as int));
        l.aesenc(&Lane { bytes: HARAKA_RC[c + i] });
        l.aesenc(&Lane { bytes: HARAKA_RC[c + n + i] });
        assert(l@ == aes2(s0, n as int, c as int, i as int));
        l.write_part(0, 16, state, 16 * i);
        assert forall|j: int| 16 * i <= j < 16 * i + 16 implies state@[j] == aes_lanes(
            s0,
            n as int,
            c as int,
        )[j] by {
            assert(j / 16 == i);
            assert(state@[j] == l@[j - 16 * i]);
        }
        i = i + 1;
    }
    assert(state@ =~= aes_lanes(s0, n as int, c as int));
}

/// Rearranges the 32-bit words of `state`: word `k` of the result is word
/// `pi[k]` of the input.
pub fn permute_words_in_place<const M: usize, const W: usize>(state: &mut [u8; M], pi: &[usize; W])
    requires
        M == 4 * W,
        forall|k: int| 0 <= k < W ==> pi@[k] < W,
    ensures
        final(state)@ == permute_words(old(state)@, pi@),
{
    let s = *state;
    let mut i: usize = 0;
    while i < M
        invariant
            i <= M,
            M == 4 * W,
            forall|k: int| 0 <= k < W ==> pi@[k] < W,
            state@.len() == M,
            forall|j: int| 0 <= j < i ==> state@[j] == permute_words(s@, pi@)[j],
        decreases M - i,
    {
        let w = pi[i / 4];
        state[i] = s[4 * w + i % 4];
        i = i + 1;
    }
    assert(state@ =~= permute_words(s@, pi@));
}

/// Bytewise XOR of `other` into `state`.
pub fn xor_in_place<const M: usize>(state: &mut [u8; M], other: &[u8; M])
    ensures
        final(state)@ == xor_bytes(old(state)@, other@),
{
    let s = *state;
    let mut i: usize = 0;
    while i < M
        invariant
            i <= M,
            state@.len() == M,
            forall|j: int| 0 <= j < i ==> state@[j] == s@[j] ^ other@[j],
        decreases M - i,
    {
        state[i] = s[i] ^ other[i];
        i = i + 1;
    }
    assert(state@ =~= xor_bytes(s@, other@));
}

} // verus!
