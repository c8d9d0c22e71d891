use vstd::prelude::*;

verus! {

/// Bit `k` of the byte `b` (least significant bit first).
pub open spec fn byte_bit(b: u8, k: u8) -> bool {
    (b >> k) & 1u8 == 1u8
}

/// Bit `i` of a byte sequence read as a little-endian bit string.
pub open spec fn packed_bit(bytes: Seq<u8>, i: int) -> bool {
    byte_bit(bytes[i / 8], (i % 8) as u8)
}

/// Testing a byte against a one-bit mask reads that bit.
pub proof fn lemma_mask_test(b: u8, k: u8)
    requires
        k < 8,
    ensures
        ((b & (1u8 << k)) != 0u8) == byte_bit(b, k),
{
    assert(k < 8 ==> (((b & (1u8 << k)) != 0u8) == ((b >> k) & 1u8 == 1u8))) by (bit_vector);
}

/// Or-ing in a one-bit mask sets that bit and keeps the others.
pub proof fn lemma_set_bit(b: u8, k: u8, j: u8)
    requires
        k < 8,
        j < 8,
    ensures
        byte_bit(b | (1u8 << k), j) == (j == k || byte_bit(b, j)),
{
    assert(k < 8 && j < 8 ==> ((((b | (1u8 << k)) >> j) & 1u8 == 1u8) == (j == k || (b >> j)
        & 1u8 == 1u8))) by (bit_vector);
}

/// And-ing with an inverted one-bit mask clears that bit and keeps the others.
pub proof fn lemma_clear_bit(b: u8, k: u8, j: u8)
    requires
        k < 8,
        j < 8,
    ensures
        byte_bit(b & !(1u8 << k), j) == (j != k && byte_bit(b, j)),
{
    assert(k < 8 && j < 8 ==> ((((b & !(1u8 << k)) >> j) & 1u8 == 1u8) == (j != k && (b >> j)
        & 1u8 == 1u8))) by (bit_vector);
}

/// No bit of the zero byte is set.
pub proof fn lemma_zero_byte(j: u8)
    ensures
        !byte_bit(0u8, j),
{
    assert(((0u8 >> j) & 1u8 == 1u8) == false) by (bit_vector);
}

/// Shifting by three and masking with seven split a bit position into its
/// byte and its bit within the byte.
pub proof fn lemma_index_split(idx: usize)
    ensures
        idx >> 3usize == idx / 8,
        idx & 7usize == idx % 8,
{
    assert(idx >> 3usize == idx / 8) by (bit_vector);
    assert(idx & 7usize == idx % 8) by (bit_vector);
}

} // verus!
