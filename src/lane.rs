//! The 128-bit lane: sixteen bytes, bitwise XOR and one AES encryption round.

use vstd::prelude::*;

verus! {

/// The AES S-box.
pub const SBOX: [u8; 256] = [
    0x63, 0x7c, 0x77, 0x7b, 0xf2, 0x6b, 0x6f, 0xc5, 0x30, 0x01, 0x67, 0x2b, 0xfe, 0xd7, 0xab, 0x76,
    0xca, 0x82, 0xc9, 0x7d, 0xfa, 0x59, 0x47, 0xf0, 0xad, 0xd4, 0xa2, 0xaf, 0x9c, 0xa4, 0x72, 0xc0,
    0xb7, 0xfd, 0x93, 0x26, 0x36, 0x3f, 0xf7, 0xcc, 0x34, 0xa5, 0xe5, 0xf1, 0x71, 0xd8, 0x31, 0x15,
    0x04, 0xc7, 0x23, 0xc3, 0x18, 0x96, 0x05, 0x9a, 0x07, 0x12, 0x80, 0xe2, 0xeb, 0x27, 0xb2, 0x75,
    0x09, 0x83, 0x2c, 0x1a, 0x1b, 0x6e, 0x5a, 0xa0, 0x52, 0x3b, 0xd6, 0xb3, 0x29, 0xe3, 0x2f, 0x84,
    0x53, 0xd1, 0x00, 0xed, 0x20, 0xfc, 0xb1, 0x5b, 0x6a, 0xcb, 0xbe, 0x39, 0x4a, 0x4c, 0x58, 0xcf,
    0xd0, 0xef, 0xaa, 0xfb, 0x43, 0x4d, 0x33, 0x85, 0x45, 0xf9, 0x02, 0x7f, 0x50, 0x3c, 0x9f, 0xa8,
    0x51, 0xa3, 0x40, 0x8f, 0x92, 0x9d, 0x38, 0xf5, 0xbc, 0xb6, 0xda, 0x21, 0x10, 0xff, 0xf3, 0xd2,
    0xcd, 0x0c, 0x13, 0xec, 0x5f, 0x97, 0x44, 0x17, 0xc4, 0xa7, 0x7e, 0x3d, 0x64, 0x5d, 0x19, 0x73,
    0x60, 0x81, 0x4f, 0xdc, 0x22, 0x2a, 0x90, 0x88, 0x46, 0xee, 0xb8, 0x14, 0xde, 0x5e, 0x0b, 0xdb,
    0xe0, 0x32, 0x3a, 0x0a, 0x49, 0x06, 0x24, 0x5c, 0xc2, 0xd3, 0xac, 0x62, 0x91, 0x95, 0xe4, 0x79,
    0xe7, 0xc8, 0x37, 0x6d, 0x8d, 0xd5, 0x4e, 0xa9, 0x6c, 0x56, 0xf4, 0xea, 0x65, 0x7a, 0xae, 0x08,
    0xba, 0x78, 0x25, 0x2e, 0x1c, 0xa6, 0xb4, 0xc6, 0xe8, 0xdd, 0x74, 0x1f, 0x4b, 0xbd, 0x8b, 0x8a,
    0x70, 0x3e, 0xb5, 0x66, 0x48, 0x03, 0xf6, 0x0e, 0x61, 0x35, 0x57, 0xb9, 0x86, 0xc1, 0x1d, 0x9e,
    0xe1, 0xf8, 0x98, 0x11, 0x69, 0xd9, 0x8e, 0x94, 0x9b, 0x1e, 0x87, 0xe9, 0xce, 0x55, 0x28, 0xdf,
    0x8c, 0xa1, 0x89, 0x0d, 0xbf, 0xe6, 0x42, 0x68, 0x41, 0x99, 0x2d, 0x0f, 0xb0, 0x54, 0xbb, 0x16,
];

/// Bytewise XOR of two byte sequences of equal length.
pub open spec fn xor_bytes(a: Seq<u8>, b: Seq<u8>) -> Seq<u8> {
    Seq::new(a.len(), |i: int| a[i] ^ b[i])
}

/// Substitution of one byte through the AES S-box.
pub open spec fn sbox(b: u8) -> u8 {
    SBOX@[b as int]
}

/// Multiplication by `x` in GF(2^8) modulo the AES polynomial.
pub open spec fn xtime(b: u8) -> u8 {
    if b < 0x80 {
        (b * 2) as u8
    } else {
        (((b - 0x80) * 2) as u8) ^ 0x1b
    }
}

/// SubBytes: the S-box applied to every byte of a lane.
pub open spec fn sub_bytes(s: Seq<u8>) -> Seq<u8> {
    Seq::new(16, |i: int| sbox(s[i]))
}

/// ShiftRows: byte `i` sits in row `i % 4`, and row `r` turns left by `r` columns.
pub open spec fn shift_rows(s: Seq<u8>) -> Seq<u8> {
    Seq::new(16, |i: int| s[(i + 4 * (i % 4)) % 16])
}

/// MixColumns: each column `(a0, a1, a2, a3)` is multiplied by the circulant
/// matrix `(2, 3, 1, 1)` over GF(2^8).
pub open spec fn mix_columns(s: Seq<u8>) -> Seq<u8> {
    Seq::new(
        16,
        |i: int|
            {
                let c = i - i % 4;
                let r = i % 4;
                let a1 = s[c + (r + 1) % 4];
                xtime(s[c + r]) ^ xtime(a1) ^ a1 ^ s[c + (r + 2) % 4] ^ s[c + (r + 3) % 4]
            },
    )
}

/// One AES encryption round: SubBytes, ShiftRows, MixColumns, then XOR with the round key.
pub open spec fn aes_round(s: Seq<u8>, key: Seq<u8>) -> Seq<u8> {
    xor_bytes(mix_columns(shift_rows(sub_bytes(s))), key)
}

/// A 128-bit lane, held as its sixteen bytes in memory order.
#[derive(Clone, Copy)]
pub struct Lane {
    pub bytes: [u8; 16],
}

impl View for Lane {
    type V = Seq<u8>;

    open spec fn view(&self) -> Seq<u8> {
        self.bytes@
    }
}

fn xtime_byte(b: u8) -> (r: u8)
    ensures
        r == xtime(b),
{
    if b < 0x80 {
        b * 2
    } else {
        ((b - 0x80) * 2) ^ 0x1b
    }
}

impl Lane {
    /// Loads the sixteen bytes of `src` that start at `off`.
    pub fn read<const M: usize>(src: &[u8; M], off: usize) -> (r: Lane)
        requires
            off + 16 <= M,
        ensures
            r@ == src@.subrange(off as int, off + 16),
    {
        let mut bytes = [0u8; 16];
        let mut i: usize = 0;
        while i < 16
            invariant
                i <= 16,
                off + 16 <= M,
                forall|j: int| 0 <= j < i ==> bytes@[j] == src@[off + j],
            decreases 16 - i,
        {
            bytes[i] = src[off + i];
            i = i + 1;
        }
        let r = Lane { bytes };
        assert(r@ =~= src@.subrange(off as int, off + 16));
        r
    }

    /// Stores the bytes `from .. from + len` of this lane into `dst` at `off`,
    /// leaving the rest of `dst` unchanged.
    pub fn write_part<const M: usize>(&self, from: usize, len: usize, dst: &mut [u8; M], off: usize)
        requires
            from + len <= 16,
            off + len <= M,
        ensures
            final(dst)@ == old(dst)@.subrange(0, off as int) + self@.subrange(
                from as int,
                from + len,
            ) + old(dst)@.subrange(off + len, M as int),
    {
        let ghost before = dst@;
        let mut i: usize = 0;
        while i < len
            invariant
                i <= len,
                from + len <= 16,
                off + len <= M,
                dst@.len() == M,
                forall|j: int| 0 <= j < off ==> dst@[j] == before[j],
                forall|j: int| off + len <= j < M ==> dst@[j] == before[j],
                forall|j: int| off <= j < off + i ==> dst@[j] == self@[from + j - off],
                forall|j: int| off + i <= j < off + len ==> dst@[j] == before[j],
            decreases len - i,
        {
            dst[off + i] = self.bytes[from + i];
            i = i + 1;
        }
        assert(dst@ =~= before.subrange(0, off as int) + self@.subrange(from as int, from + len)
            + before.subrange(off + len, M as int));
    }

    /// Bitwise XOR of `other` into this lane.
    pub fn pxor(&mut self, other: &Lane)
        ensures
            final(self)@ == xor_bytes(old(self)@, other@),
    {
        let a = self.bytes;
        let mut b = [0u8; 16];
        let mut i: usize = 0;
        while i < 16
            invariant
                i <= 16,
                forall|j: int| 0 <= j < i ==> b@[j] == a@[j] ^ other@[j],
            decreases 16 - i,
        {
            b[i] = a[i] ^ other.bytes[i];
            i = i + 1;
        }
        self.bytes = b;
        assert(self@ =~= xor_bytes(a@, other@));
    }

    /// One AES encryption round of this lane under the round key `key`.
    pub fn aesenc(&mut self, key: &Lane)
        ensures
            final(self)@ == aes_round(old(self)@, key@),
    {
        let a = self.bytes;
        // SubBytes and ShiftRows
        let mut t = [0u8; 16];
        let mut i: usize = 0;
        while i < 16
            invariant
                i <= 16,
                forall|j: int| 0 <= j < i ==> t@[j] == shift_rows(sub_bytes(a@))[j],
            decreases 16 - i,
        {
            t[i] = SBOX[a[(i + 4 * (i % 4)) % 16] as usize];
            i = i + 1;
        }
        assert(t@ =~= shift_rows(sub_bytes(a@)));
        // MixColumns and AddRoundKey
        let mut b = [0u8; 16];
        let mut i: usize = 0;
        while i < 16
            invariant
                i <= 16,
                t@ == shift_rows(sub_bytes(a@)),
                forall|j: int| 0 <= j < i ==> b@[j] == aes_round(a@, key@)[j],
            decreases 16 - i,
        {
            let c = i - i % 4;
            let r = i % 4;
            let a1 = t[c + (r + 1) % 4];
            b[i] = xtime_byte(t[c + r]) ^ xtime_byte(a1) ^ a1 ^ t[c + (r + 2) % 4] ^ t[c + (r + 3)
                % 4] ^ key.bytes[i];
            i = i + 1;
        }
        self.bytes = b;
        assert(self@ =~= aes_round(a@, key@));
    }
}

} // verus!
