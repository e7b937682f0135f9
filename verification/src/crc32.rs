//! CRC-32 (IEEE, reflected, polynomial `0xEDB8_8320`) over byte sequences.
//!
//! The persisted records and the update-transfer protocol both use this
//! checksum as their integrity tag. It is computed bit by bit so the
//! executable code mirrors the specification functions directly, and it can
//! fold bytes incrementally, which lets the update manager keep a running
//! register while an image is streamed in.

use vstd::prelude::*;

verus! {

/// Reflected generator polynomial of the CRC-32 checksum.
pub const CRC32_POLY: u32 = 0xEDB8_8320;

/// Initial register value, also used as the final whitening mask.
pub const CRC32_INIT: u32 = 0xFFFF_FFFF;

/// One shift round of the checksum register: shift right, and fold the
/// polynomial back in when a one bit falls out.
pub open spec fn crc32_bit_step(c: u32) -> u32 {
    if (c & 1) == 1 {
        (c >> 1) ^ CRC32_POLY
    } else {
        c >> 1
    }
}

/// `n` shift rounds of the checksum register.
pub open spec fn crc32_bit_steps(c: u32, n: nat) -> u32
    decreases n,
{
    if n == 0 {
        c
    } else {
        crc32_bit_step(crc32_bit_steps(c, (n - 1) as nat))
    }
}

/// Folding one byte into the register: xor it into the low bits, then run
/// eight shift rounds.
pub open spec fn crc32_push_byte(c: u32, b: u8) -> u32 {
    crc32_bit_steps(c ^ (b as u32), 8)
}

/// Folding a whole byte sequence into the register, first byte first.
pub open spec fn crc32_fold(c: u32, s: Seq<u8>) -> u32
    decreases s.len(),
{
    if s.len() == 0 {
        c
    } else {
        crc32_fold(crc32_push_byte(c, s[0]), s.drop_first())
    }
}

/// The CRC-32 checksum of a byte sequence.
pub open spec fn crc32_spec(s: Seq<u8>) -> u32 {
    crc32_fold(CRC32_INIT, s) ^ CRC32_INIT
}

/// Folding distributes over appending one byte at the end.
pub proof fn lemma_fold_push(c: u32, s: Seq<u8>, b: u8)
    ensures
        crc32_fold(c, s.push(b)) == crc32_push_byte(crc32_fold(c, s), b),
    decreases s.len(),
{
    reveal_with_fuel(crc32_fold, 3);
    if s.len() == 0 {
        assert(s.push(b).drop_first() =~= Seq::<u8>::empty());
    } else {
        assert(s.push(b).drop_first() =~= s.drop_first().push(b));
        lemma_fold_push(crc32_push_byte(c, s[0]), s.drop_first(), b);
    }
}

/// One byte folded into the register.
pub fn crc32_push_byte_exec(c: u32, b: u8) -> (r: u32)
    ensures
        r == crc32_push_byte(c, b),
{
    let start: u32 = c ^ (b as u32);
    let mut x: u32 = start;
    let mut i: usize = 0;
    while i < 8
        invariant
            i <= 8,
            x == crc32_bit_steps(start, i as nat),
        decreases 8 - i,
    {
        x = if (x & 1) == 1 {
            (x >> 1u32) ^ CRC32_POLY
        } else {
            x >> 1u32
        };
        i = i + 1;
    }
    x
}

/// A byte slice folded into the register, continuing from `c`.
pub fn crc32_update(c: u32, data: &[u8]) -> (r: u32)
    ensures
        r == crc32_fold(c, data@),
{
    let mut x: u32 = c;
    let mut i: usize = 0;
    while i < data.len()
        invariant
            i <= data@.len(),
            x == crc32_fold(c, data@.subrange(0, i as int)),
        decreases data@.len() - i,
    {
        proof {
            assert(data@.subrange(0, i + 1) =~= data@.subrange(0, i as int).push(data@[i as int]));
            lemma_fold_push(c, data@.subrange(0, i as int), data@[i as int]);
        }
        x = crc32_push_byte_exec(x, data[i]);
        i = i + 1;
    }
    proof {
        assert(data@.subrange(0, data@.len() as int) =~= data@);
    }
    x
}

/// The CRC-32 checksum of a byte slice.
pub fn crc32(data: &[u8]) -> (r: u32)
    ensures
        r == crc32_spec(data@),
{
    crc32_update(CRC32_INIT, data) ^ CRC32_INIT
}

} // verus!
