//! The additive checksum that guards a frame header.
//!
//! The checksum of a header is the sum of the bytes that precede the
//! checksum field, reduced to sixteen bits. It catches accidental damage; it
//! is no defence against a peer that recomputes it.

use vstd::prelude::*;

verus! {

/// The sum of all of `bytes`.
pub open spec fn byte_sum(bytes: Seq<u8>) -> nat
    decreases bytes.len(),
{
    if bytes.len() == 0 {
        0
    } else {
        byte_sum(bytes.drop_last()) + bytes.last() as nat
    }
}

/// The sum of `bytes`, reduced to sixteen bits.
pub open spec fn checksum_of(bytes: Seq<u8>) -> u16 {
    (byte_sum(bytes) % 0x1_0000) as u16
}

/// No byte adds more than 255 to the sum.
pub proof fn lemma_byte_sum_bound(bytes: Seq<u8>)
    ensures
        byte_sum(bytes) <= 255 * bytes.len(),
    decreases bytes.len(),
{
    if bytes.len() > 0 {
        lemma_byte_sum_bound(bytes.drop_last());
    }
}

/// Replacing one byte moves the sum by the difference of the two bytes.
pub proof fn lemma_byte_sum_update(bytes: Seq<u8>, index: int, byte: u8)
    requires
        0 <= index < bytes.len(),
    ensures
        byte_sum(bytes.update(index, byte)) + bytes[index] == byte_sum(bytes) + byte,
    decreases bytes.len(),
{
    let changed = bytes.update(index, byte);
    if index == bytes.len() - 1 {
        assert(changed.drop_last() =~= bytes.drop_last());
    } else {
        lemma_byte_sum_update(bytes.drop_last(), index, byte);
        assert(changed.drop_last() =~= bytes.drop_last().update(index, byte));
    }
}

/// The checksum sees every change of a single byte, as long as the bytes are
/// so few that their sum stays below 65536.
pub proof fn lemma_checksum_sees_one_byte(bytes: Seq<u8>, index: int, byte: u8)
    requires
        bytes.len() <= 257,
        0 <= index < bytes.len(),
        byte != bytes[index],
    ensures
        checksum_of(bytes.update(index, byte)) != checksum_of(bytes),
{
    lemma_byte_sum_update(bytes, index, byte);
    lemma_byte_sum_bound(bytes);
    lemma_byte_sum_bound(bytes.update(index, byte));
}

/// Sums `bytes` in 32 bits, wrapping around, and keeps the low sixteen bits
/// of the sum.
pub fn checksum(bytes: &[u8]) -> (sum: u16)
    ensures
        sum == checksum_of(bytes@),
{
    let mut sum: u32 = 0;
    let mut i: usize = 0;
    while i < bytes.len()
        invariant
            i <= bytes@.len(),
            sum == byte_sum(bytes@.subrange(0, i as int)) % 0x1_0000_0000,
        decreases bytes@.len() - i,
    {
        proof {
            assert(bytes@.subrange(0, i + 1).drop_last() =~= bytes@.subrange(0, i as int));
        }
        sum = sum.wrapping_add(bytes[i] as u32);
        i += 1;
    }
    proof {
        assert(bytes@.subrange(0, i as int) =~= bytes@);
        assert(sum & 0xFFFF == sum % 0x1_0000) by (bit_vector);
    }
    (sum & 0xFFFF) as u16
}

} // verus!
