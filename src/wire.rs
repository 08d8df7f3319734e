//! Byte-level helpers: big-endian 16-bit fields and single bits of a byte.
use vstd::prelude::*;

verus! {

/// Big-endian encoding of a 16-bit value: high byte first.
pub open spec fn be16(v: u16) -> Seq<u8> {
    seq![(v / 256) as u8, (v % 256) as u8]
}

/// Little-endian encoding of a 16-bit value: low byte first.
pub open spec fn le16(v: u16) -> Seq<u8> {
    seq![(v % 256) as u8, (v / 256) as u8]
}

/// The 16-bit value whose big-endian encoding is `hi, lo`.
pub open spec fn u16_of(hi: u8, lo: u8) -> u16 {
    (hi as int * 256 + lo as int) as u16
}

/// Bit `j` (0 is the least significant) of byte `b`.
pub open spec fn bit_of(b: u8, j: u8) -> bool {
    b & (1u8 << j) != 0
}

/// Reading back an encoded 16-bit value gives the value.
pub proof fn lemma_be16_inverse(v: u16)
    ensures
        u16_of(be16(v)[0], be16(v)[1]) == v,
        u16_of(le16(v)[1], le16(v)[0]) == v,
{
}

/// Setting bit `t` of `b` sets that bit and keeps the others.
pub proof fn lemma_set_bit(b: u8, t: u8, j: u8)
    requires
        t < 8,
        j < 8,
    ensures
        bit_of(b | (1u8 << t), j) == (j == t || bit_of(b, j)),
{
    assert((b | (1u8 << t)) & (1u8 << j) != 0 <==> (j == t || b & (1u8 << j) != 0))
        by (bit_vector)
        requires
            t < 8,
            j < 8,
    ;
}

/// No bit of zero is set.
pub proof fn lemma_zero_bits(j: u8)
    requires
        j < 8,
    ensures
        !bit_of(0u8, j),
{
    assert(0u8 & (1u8 << j) == 0) by (bit_vector)
        requires
            j < 8,
    ;
}

/// Appends the big-endian encoding of `v`.
pub fn push_be16(out: &mut Vec<u8>, v: u16)
    ensures
        final(out)@ == old(out)@ + be16(v),
{
    out.push((v / 256) as u8);
    out.push((v % 256) as u8);
    assert(final(out)@ =~= old(out)@ + be16(v));
}

/// Reads the big-endian 16-bit value at `at`.
pub fn read_be16(data: &[u8], at: usize) -> (r: u16)
    requires
        at + 1 < data@.len(),
    ensures
        r == u16_of(data@[at as int], data@[at + 1]),
{
    data[at] as u16 * 256 + data[at + 1] as u16
}

} // verus!
