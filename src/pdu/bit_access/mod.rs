//! Single-bit data: coils and discrete inputs, packed eight to a byte.
pub mod read_coils;
pub mod read_dscr_in;
pub mod write_single_coil;

use crate::error::Error;
use crate::pdu::Function;
use crate::pdu::MAX_SIZE;
use crate::wire::{bit_of, lemma_set_bit, lemma_zero_bits};
use vstd::prelude::*;

verus! {

/// Bits carried by one byte.
pub const DSCR_PER_BYTE: usize = 8;

/// The largest byte count of a bit-read response: the PDU less its
/// function code and byte count.
pub const MAX_BYTE_COUNT: usize = MAX_SIZE - 2;

/// Bit `i` of `bits`; bits past the end read as zero (padding).
pub open spec fn bit_at(bits: Seq<bool>, i: int) -> bool {
    0 <= i < bits.len() && bits[i]
}

/// Bytes needed to carry `n` bits.
pub open spec fn byte_count_for(n: nat) -> nat {
    (n + 7) / 8
}

/// Bit `j` of `b` is bit `8 * k + j` of `bits`, for each `j` below 8.
pub open spec fn holds_bits(b: u8, bits: Seq<bool>, k: int) -> bool {
    forall|j: u8| j < 8 ==> #[trigger] bit_of(b, j) == bit_at(bits, 8 * k + j)
}

/// Byte `k` of the packing of `bits`: the byte whose bit `j` is
/// bit `8 * k + j` of `bits`, least significant bit first.
pub open spec fn packed_byte(bits: Seq<bool>, k: int) -> u8 {
    choose|b: u8| #[trigger] holds_bits(b, bits, k)
}

/// `bits` packed eight to a byte, the last byte padded with zeros.
pub open spec fn pack(bits: Seq<bool>) -> Seq<u8> {
    Seq::new(byte_count_for(bits.len()), |k: int| packed_byte(bits, k))
}

/// Every bit of `bytes`, least significant bit of each byte first.
pub open spec fn unpack(bytes: Seq<u8>) -> Seq<bool> {
    Seq::new(8 * bytes.len(), |i: int| bit_of(bytes[i / 8], (i % 8) as u8))
}

/// Encoding a bit-read response of function `code`.
pub open spec fn encode_bits_spec(code: u8, bits: Seq<bool>) -> Result<Seq<u8>, Error> {
    let n = byte_count_for(bits.len());
    if n == 0 || n > MAX_BYTE_COUNT {
        Err(Error::InvalidValue)
    } else {
        Ok(seq![code, n as u8] + pack(bits))
    }
}

/// Decoding a bit-read response of function `code`.
pub open spec fn decode_bits_spec(code: u8, data: Seq<u8>) -> Result<Seq<bool>, Error> {
    if data.len() < 3 {
        Err(Error::InvalidDataLength)
    } else if data[0] != code {
        Err(Error::InvalidData)
    } else if data.len() != data[1] + 2 {
        Err(Error::InvalidDataLength)
    } else {
        Ok(unpack(data.subrange(2, data.len() as int)))
    }
}

/// A byte is fixed by its eight bits.
proof fn lemma_bits_determine(a: u8, b: u8)
    requires
        forall|j: u8| j < 8 ==> #[trigger] bit_of(a, j) == bit_of(b, j),
    ensures
        a == b,
{
    assert(bit_of(a, 0) == bit_of(b, 0));
    assert(bit_of(a, 1) == bit_of(b, 1));
    assert(bit_of(a, 2) == bit_of(b, 2));
    assert(bit_of(a, 3) == bit_of(b, 3));
    assert(bit_of(a, 4) == bit_of(b, 4));
    assert(bit_of(a, 5) == bit_of(b, 5));
    assert(bit_of(a, 6) == bit_of(b, 6));
    assert(bit_of(a, 7) == bit_of(b, 7));
    assert(a == b) by (bit_vector)
        requires
            (a & (1u8 << 0u8) != 0) == (b & (1u8 << 0u8) != 0),
            (a & (1u8 << 1u8) != 0) == (b & (1u8 << 1u8) != 0),
            (a & (1u8 << 2u8) != 0) == (b & (1u8 << 2u8) != 0),
            (a & (1u8 << 3u8) != 0) == (b & (1u8 << 3u8) != 0),
            (a & (1u8 << 4u8) != 0) == (b & (1u8 << 4u8) != 0),
            (a & (1u8 << 5u8) != 0) == (b & (1u8 << 5u8) != 0),
            (a & (1u8 << 6u8) != 0) == (b & (1u8 << 6u8) != 0),
            (a & (1u8 << 7u8) != 0) == (b & (1u8 << 7u8) != 0),
    ;
}

/// A byte with the bits asked of byte `k` is that packed byte.
proof fn lemma_packed_byte(bits: Seq<bool>, k: int, b: u8)
    requires
        holds_bits(b, bits, k),
    ensures
        packed_byte(bits, k) == b,
{
    let c = packed_byte(bits, k);
    assert(holds_bits(c, bits, k));
    assert forall|j: u8| j < 8 implies #[trigger] bit_of(c, j) == bit_of(b, j) by {
        assert(bit_of(b, j) == bit_at(bits, 8 * k + j));
    }
    lemma_bits_determine(c, b);
}

/// Some byte has the eight bits asked of byte `k`.
proof fn lemma_packed_byte_exists(bits: Seq<bool>, k: int)
    ensures
        holds_bits(packed_byte(bits, k), bits, k),
{
    let b0 = bit_at(bits, 8 * k);
    let b1 = bit_at(bits, 8 * k + 1);
    let b2 = bit_at(bits, 8 * k + 2);
    let b3 = bit_at(bits, 8 * k + 3);
    let b4 = bit_at(bits, 8 * k + 4);
    let b5 = bit_at(bits, 8 * k + 5);
    let b6 = bit_at(bits, 8 * k + 6);
    let b7 = bit_at(bits, 8 * k + 7);
    let w: u8 = (if b0 { 1u8 } else { 0u8 }) | (if b1 { 2u8 } else { 0u8 }) | (if b2 { 4u8 } else { 0u8 })
        | (if b3 { 8u8 } else { 0u8 }) | (if b4 { 16u8 } else { 0u8 }) | (if b5 { 32u8 } else { 0u8 })
        | (if b6 { 64u8 } else { 0u8 }) | (if b7 { 128u8 } else { 0u8 });
    assert({
        &&& (w & (1u8 << 0u8) != 0) == b0
        &&& (w & (1u8 << 1u8) != 0) == b1
        &&& (w & (1u8 << 2u8) != 0) == b2
        &&& (w & (1u8 << 3u8) != 0) == b3
        &&& (w & (1u8 << 4u8) != 0) == b4
        &&& (w & (1u8 << 5u8) != 0) == b5
        &&& (w & (1u8 << 6u8) != 0) == b6
        &&& (w & (1u8 << 7u8) != 0) == b7
    }) by (bit_vector)
        requires
            w == (if b0 { 1u8 } else { 0u8 }) | (if b1 { 2u8 } else { 0u8 }) | (if b2 { 4u8 } else { 0u8 })
                | (if b3 { 8u8 } else { 0u8 }) | (if b4 { 16u8 } else { 0u8 }) | (if b5 { 32u8 } else { 0u8 })
                | (if b6 { 64u8 } else { 0u8 }) | (if b7 { 128u8 } else { 0u8 }),
    ;
    assert forall|j: u8| j < 8 implies #[trigger] bit_of(w, j) == bit_at(bits, 8 * k + j) by {
        if j == 0 {
            assert(bit_of(w, 0u8) == b0);
        } else if j == 1 {
            assert(bit_of(w, 1u8) == b1);
        } else if j == 2 {
            assert(bit_of(w, 2u8) == b2);
        } else if j == 3 {
            assert(bit_of(w, 3u8) == b3);
        } else if j == 4 {
            assert(bit_of(w, 4u8) == b4);
        } else if j == 5 {
            assert(bit_of(w, 5u8) == b5);
        } else if j == 6 {
            assert(bit_of(w, 6u8) == b6);
        } else {
            assert(bit_of(w, 7u8) == b7);
        }
    }
    assert(holds_bits(w, bits, k));
}

/// Packs bit `8 * k ..` of `bits` into one byte.
fn pack_byte(bits: &[bool], k: usize) -> (r: u8)
    requires
        8 * k + 8 <= usize::MAX,
    ensures
        r == packed_byte(bits@, k as int),
{
    let mut byte: u8 = 0;
    let mut j: u8 = 0;
    assert forall|t: u8| t < 8 implies !#[trigger] bit_of(0u8, t) by {
        lemma_zero_bits(t);
    }
    while j < 8
        invariant
            j <= 8,
            8 * k + 8 <= usize::MAX,
            forall|t: u8| t < j ==> #[trigger] bit_of(byte, t) == bit_at(bits@, 8 * k + t),
            forall|t: u8| j <= t < 8 ==> !#[trigger] bit_of(byte, t),
        decreases 8 - j,
    {
        let i: usize = k * DSCR_PER_BYTE + j as usize;
        let on: bool = i < bits.len() && bits[i];
        let ghost before = byte;
        if on {
            byte = byte | (1u8 << j);
            proof {
                assert forall|t: u8| t < 8 implies #[trigger] bit_of(byte, t) == (t == j || bit_of(before, t)) by {
                    lemma_set_bit(before, j, t);
                }
            }
        }
        j = j + 1;
    }
    proof {
        lemma_packed_byte(bits@, k as int, byte);
    }
    byte
}

/// Encodes a bit-read response: function code, byte count, packed bits.
pub fn encode_bits(code: u8, bits: &[bool]) -> (r: Result<Vec<u8>, Error>)
    ensures
        crate::pdu::bytes_of(r) == encode_bits_spec(code, bits@),
{
    let len: usize = bits.len();
    let byte_count: usize = len / DSCR_PER_BYTE + if len % DSCR_PER_BYTE > 0 { 1 } else { 0 };
    assert(byte_count == byte_count_for(bits@.len()));
    if byte_count == 0 || byte_count > MAX_BYTE_COUNT {
        return Err(Error::InvalidValue);
    }
    let mut result: Vec<u8> = Vec::new();
    result.push(code);
    result.push(byte_count as u8);
    let mut k: usize = 0;
    while k < byte_count
        invariant
            k <= byte_count,
            byte_count <= MAX_BYTE_COUNT,
            byte_count == byte_count_for(bits@.len()),
            result@ == seq![code, byte_count as u8] + pack(bits@).subrange(0, k as int),
        decreases byte_count - k,
    {
        let b = pack_byte(bits, k);
        result.push(b);
        k = k + 1;
        assert(result@ =~= seq![code, byte_count as u8] + pack(bits@).subrange(0, k as int));
    }
    assert(pack(bits@).subrange(0, k as int) =~= pack(bits@));
    Ok(result)
}

/// Decodes a bit-read response into every bit it carries, padding included.
pub fn decode_bits(code: u8, data: &[u8]) -> (r: Result<Vec<bool>, Error>)
    ensures
        match (r, decode_bits_spec(code, data@)) {
            (Ok(v), Ok(s)) => v@ == s,
            (Err(e), Err(f)) => e == f,
            _ => false,
        },
{
    let len: usize = data.len();
    if len < 3 {
        return Err(Error::InvalidDataLength);
    }
    if data[0] != code {
        return Err(Error::InvalidData);
    }
    let byte_count: usize = data[1] as usize;
    if len != byte_count + 2 {
        return Err(Error::InvalidDataLength);
    }
    let ghost bytes = data@.subrange(2, len as int);
    let mut result: Vec<bool> = Vec::with_capacity(byte_count * DSCR_PER_BYTE);
    let mut k: usize = 0;
    while k < byte_count
        invariant
            k <= byte_count,
            len == byte_count + 2,
            len == data@.len(),
            bytes == data@.subrange(2, len as int),
            result@ == unpack(bytes).subrange(0, 8 * k),
        decreases byte_count - k,
    {
        let mut j: u8 = 0;
        while j < 8
            invariant
                j <= 8,
                k < byte_count,
                len == byte_count + 2,
                len == data@.len(),
                bytes == data@.subrange(2, len as int),
                result@ == unpack(bytes).subrange(0, 8 * k + j),
            decreases 8 - j,
        {
            let bit: bool = data[2 + k] & (1u8 << j) != 0;
            result.push(bit);
            proof {
                let i = 8 * k + j;
                assert(i / 8 == k as int && i % 8 == j as int);
            }
            j = j + 1;
            assert(result@ =~= unpack(bytes).subrange(0, 8 * k + j));
        }
        k = k + 1;
    }
    assert(unpack(bytes).subrange(0, 8 * k) =~= unpack(bytes));
    Ok(result)
}

/// Unpacking packed bits gives the bits back, followed by zero padding.
pub proof fn lemma_unpack_pack(bits: Seq<bool>)
    ensures
        unpack(pack(bits)).len() == 8 * byte_count_for(bits.len()),
        bits.len() <= unpack(pack(bits)).len(),
        forall|i: int| 0 <= i < unpack(pack(bits)).len() ==> #[trigger] unpack(pack(bits))[i] == bit_at(bits, i),
{
    let u = unpack(pack(bits));
    assert forall|i: int| 0 <= i < u.len() implies #[trigger] u[i] == bit_at(bits, i) by {
        let k = i / 8;
        let j = (i % 8) as u8;
        let c = packed_byte(bits, k);
        lemma_packed_byte_exists(bits, k);
        assert(bit_of(c, j) == bit_at(bits, 8 * k + j));
        assert(8 * k + j == i);
    }
}

} // verus!

verus! {

/// A bit-read response that can be encoded decodes back to its bits,
/// followed by zero padding up to a whole byte.
pub proof fn lemma_bits_round_trip(code: u8, bits: Seq<bool>)
    requires
        encode_bits_spec(code, bits) is Ok,
    ensures
        match encode_bits_spec(code, bits) {
            Ok(pdu) => match decode_bits_spec(code, pdu) {
                Ok(d) => {
                    &&& d.len() == 8 * byte_count_for(bits.len())
                    &&& d.subrange(0, bits.len() as int) == bits
                    &&& forall|i: int| bits.len() <= i < d.len() ==> !#[trigger] d[i]
                },
                Err(_) => false,
            },
            Err(_) => false,
        },
{
    let n = byte_count_for(bits.len());
    let pdu = seq![code, n as u8] + pack(bits);
    assert(pdu.subrange(2, pdu.len() as int) =~= pack(bits));
    lemma_unpack_pack(bits);
    let d = unpack(pack(bits));
    assert(d.subrange(0, bits.len() as int) =~= bits);
}

} // verus!

verus! {

/// Encoding a Read Coils or a Read Discrete Inputs request fails with
/// `InvalidValue` exactly when its quantity is 0 or above 2000.
pub proof fn lemma_bit_read_quantity(address: u16, quantity: u16)
    ensures
        (quantity == 0 || quantity > 2000) <==> read_coils::Request::encode_spec((address, quantity))
            == Err::<Seq<u8>, Error>(Error::InvalidValue),
        (quantity == 0 || quantity > 2000) <==> read_dscr_in::Request::encode_spec((address, quantity))
            == Err::<Seq<u8>, Error>(Error::InvalidValue),
{
}

} // verus!
