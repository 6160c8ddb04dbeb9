//! Little-endian images of unsigned integers.
//!
//! Every multi-byte field of a frame travels least significant byte first.
//! The two spec functions [`le_bytes`] and [`le_value`] say what that means
//! for any width; [`put_le`] and [`get_le`] are the executable counterparts
//! for the widths a machine word can hold.

use vstd::prelude::*;

verus! {

/// 256 raised to `width`: how many values fit in `width` bytes.
pub open spec fn radix_pow(width: nat) -> nat
    decreases width,
{
    if width == 0 {
        1
    } else {
        256 * radix_pow((width - 1) as nat)
    }
}

/// The `width` low-order bytes of `value`, least significant first.
pub open spec fn le_bytes(value: nat, width: nat) -> Seq<u8>
    decreases width,
{
    if width == 0 {
        Seq::empty()
    } else {
        seq![(value % 256) as u8] + le_bytes(value / 256, (width - 1) as nat)
    }
}

/// The number that `bytes` spell, least significant byte first.
pub open spec fn le_value(bytes: Seq<u8>) -> nat
    decreases bytes.len(),
{
    if bytes.len() == 0 {
        0
    } else {
        bytes[0] as nat + 256 * le_value(bytes.drop_first())
    }
}

/// The powers of 256 at the widths of the machine integers.
pub proof fn lemma_radix_pow_values()
    ensures
        radix_pow(0) == 1,
        radix_pow(1) == 0x100,
        radix_pow(2) == 0x1_0000,
        radix_pow(4) == 0x1_0000_0000,
        radix_pow(7) == 0x100_0000_0000_0000,
        radix_pow(8) == 0x1_0000_0000_0000_0000,
{
    reveal_with_fuel(radix_pow, 9);
}

/// A wider image can hold at least as many values.
pub proof fn lemma_radix_pow_monotonic(narrow: nat, wide: nat)
    requires
        narrow <= wide,
    ensures
        0 < radix_pow(narrow) <= radix_pow(wide),
    decreases wide,
{
    if wide == 0 {
    } else if narrow == wide {
        lemma_radix_pow_monotonic((narrow - 1) as nat, (wide - 1) as nat);
    } else {
        lemma_radix_pow_monotonic(narrow, (wide - 1) as nat);
    }
}

/// An image of `width` bytes has `width` bytes.
pub proof fn lemma_le_bytes_len(value: nat, width: nat)
    ensures
        le_bytes(value, width).len() == width,
    decreases width,
{
    if width > 0 {
        lemma_le_bytes_len(value / 256, (width - 1) as nat);
    }
}

/// What `n` bytes spell is below 256 to the `n`.
pub proof fn lemma_le_value_bound(bytes: Seq<u8>)
    ensures
        le_value(bytes) < radix_pow(bytes.len()),
    decreases bytes.len(),
{
    if bytes.len() > 0 {
        lemma_le_value_bound(bytes.drop_first());
    }
}

/// Reading back the image of a value that fits in `width` bytes gives the
/// value.
pub proof fn lemma_le_value_of_bytes(value: nat, width: nat)
    requires
        value < radix_pow(width),
    ensures
        le_value(le_bytes(value, width)) == value,
    decreases width,
{
    if width > 0 {
        let rest = le_bytes(value / 256, (width - 1) as nat);
        lemma_le_value_of_bytes(value / 256, (width - 1) as nat);
        assert(le_bytes(value, width).drop_first() =~= rest);
    }
}

/// Writing what `bytes` spell, at their own width, gives `bytes` again.
pub proof fn lemma_le_bytes_of_value(bytes: Seq<u8>)
    ensures
        le_bytes(le_value(bytes), bytes.len()) == bytes,
    decreases bytes.len(),
{
    if bytes.len() > 0 {
        lemma_le_bytes_of_value(bytes.drop_first());
    }
}

/// Appends the `width` low-order bytes of `value` to `out`, least
/// significant first. Beyond the eighth byte the image is zero.
pub fn put_le(out: &mut Vec<u8>, value: u64, width: usize)
    ensures
        final(out)@ == old(out)@ + le_bytes(value as nat, width as nat),
{
    let ghost before = out@;
    let mut rest: u64 = value;
    let mut written: usize = 0;
    while written < width
        invariant
            written <= width,
            out@ + le_bytes(rest as nat, (width - written) as nat) == before + le_bytes(
                value as nat,
                width as nat,
            ),
        decreases width - written,
    {
        out.push((rest % 256) as u8);
        rest = rest / 256;
        written += 1;
    }
}

/// Reads the number that the `width` bytes at `offset` spell, least
/// significant first.
pub fn get_le(bytes: &[u8], offset: usize, width: usize) -> (value: u64)
    requires
        width <= 8,
        offset + width <= bytes@.len(),
    ensures
        value == le_value(bytes@.subrange(offset as int, offset + width)),
{
    assert(offset + width <= bytes.len());
    let end: usize = offset + width;
    let mut value: u64 = 0;
    let mut at: usize = end;
    while at > offset
        invariant
            offset <= at <= end,
            end == offset + width,
            width <= 8,
            end <= bytes@.len(),
            value == le_value(bytes@.subrange(at as int, end as int)),
        decreases at,
    {
        let ghost higher = bytes@.subrange(at as int, end as int);
        at -= 1;
        proof {
            lemma_le_value_bound(higher);
            lemma_radix_pow_monotonic(higher.len(), 7);
            lemma_radix_pow_values();
            assert(bytes@.subrange(at as int, end as int).drop_first() =~= higher);
        }
        value = value * 256 + bytes[at] as u64;
    }
    value
}

} // verus!
