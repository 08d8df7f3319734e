//! Field layouts shared by several functions: the address and quantity of a
//! read request, and a list of 16-bit registers.
use crate::error::Error;
use crate::wire::{be16, lemma_be16_inverse, push_be16, read_be16, u16_of};
use vstd::prelude::*;

verus! {

/// The PDU of a read request: function code, start address, quantity.
pub open spec fn read_req_bytes(code: u8, address: u16, quantity: u16) -> Seq<u8> {
    seq![code] + be16(address) + be16(quantity)
}

/// Encoding a read request whose quantity must lie in `1..=max`.
pub open spec fn encode_read_req_spec(code: u8, max: u16, address: u16, quantity: u16) -> Result<Seq<u8>, Error> {
    if 1 <= quantity && quantity <= max {
        Ok(read_req_bytes(code, address, quantity))
    } else {
        Err(Error::InvalidValue)
    }
}

/// Decoding a read request of function `code` into (address, quantity).
pub open spec fn decode_read_req_spec(code: u8, data: Seq<u8>) -> Result<(u16, u16), Error> {
    if data.len() != 5 {
        Err(Error::InvalidDataLength)
    } else if data[0] != code {
        Err(Error::InvalidData)
    } else {
        Ok((u16_of(data[1], data[2]), u16_of(data[3], data[4])))
    }
}

/// Encodes a read request of function `code`; `InvalidValue` unless the
/// quantity lies in `1..=max`.
pub fn encode_read_req(code: u8, max: u16, address: u16, quantity: u16) -> (r: Result<Vec<u8>, Error>)
    ensures
        crate::pdu::bytes_of(r) == encode_read_req_spec(code, max, address, quantity),
{
    if quantity < 1 || quantity > max {
        return Err(Error::InvalidValue);
    }
    let mut result: Vec<u8> = Vec::new();
    result.push(code);
    push_be16(&mut result, address);
    push_be16(&mut result, quantity);
    assert(result@ =~= read_req_bytes(code, address, quantity));
    Ok(result)
}

/// Decodes a read request of function `code` into (address, quantity).
pub fn decode_read_req(code: u8, data: &[u8]) -> (r: Result<(u16, u16), Error>)
    ensures
        r == decode_read_req_spec(code, data@),
{
    if data.len() != 5 {
        return Err(Error::InvalidDataLength);
    }
    if data[0] != code {
        return Err(Error::InvalidData);
    }
    Ok((read_be16(data, 1), read_be16(data, 3)))
}

/// A read request decodes to the address and quantity it was encoded from.
pub proof fn lemma_read_req_round_trip(code: u8, address: u16, quantity: u16)
    ensures
        decode_read_req_spec(code, read_req_bytes(code, address, quantity)) == Ok::<(u16, u16), Error>((address, quantity)),
{
    lemma_be16_inverse(address);
    lemma_be16_inverse(quantity);
    let b = read_req_bytes(code, address, quantity);
    assert(b[1] == be16(address)[0] && b[2] == be16(address)[1]);
    assert(b[3] == be16(quantity)[0] && b[4] == be16(quantity)[1]);
}

/// The big-endian bytes of a list of registers, two per register.
pub open spec fn regs_bytes(regs: Seq<u16>) -> Seq<u8> {
    Seq::new(2 * regs.len(), |i: int| be16(regs[i / 2])[i % 2])
}

/// The registers carried by `n` byte pairs of `data` from offset `at`.
pub open spec fn regs_of(data: Seq<u8>, at: int, n: int) -> Seq<u16> {
    Seq::new(n as nat, |i: int| u16_of(data[at + 2 * i], data[at + 2 * i + 1]))
}

/// Appends the big-endian bytes of each register.
pub fn push_regs(out: &mut Vec<u8>, regs: &[u16])
    ensures
        final(out)@ == old(out)@ + regs_bytes(regs@),
{
    let mut i: usize = 0;
    while i < regs.len()
        invariant
            i <= regs@.len(),
            out@ == old(out)@ + regs_bytes(regs@.subrange(0, i as int)),
        decreases regs@.len() - i,
    {
        let ghost before = out@;
        push_be16(out, regs[i]);
        proof {
            let next = regs@.subrange(0, i + 1);
            assert(regs_bytes(next) =~= regs_bytes(regs@.subrange(0, i as int)) + be16(regs@[i as int]));
        }
        i = i + 1;
    }
    assert(regs@.subrange(0, regs@.len() as int) =~= regs@);
}

/// Reads `n` registers from the byte pairs of `data` starting at `at`.
pub fn read_regs(data: &[u8], at: usize, n: usize) -> (r: Vec<u16>)
    requires
        at + 2 * n <= data@.len(),
    ensures
        r@ == regs_of(data@, at as int, n as int),
{
    let len: usize = data.len();
    let mut regs: Vec<u16> = Vec::with_capacity(n);
    let mut i: usize = 0;
    while i < n
        invariant
            i <= n,
            len == data@.len(),
            at + 2 * n <= data@.len(),
            regs@ == regs_of(data@, at as int, i as int),
        decreases n - i,
    {
        assert(at + 2 * i + 1 < len);
        regs.push(read_be16(data, at + 2 * i));
        i = i + 1;
        assert(regs@ =~= regs_of(data@, at as int, i as int));
    }
    regs
}

/// The two bytes that register `i` is written as.
proof fn lemma_regs_bytes_at(regs: Seq<u16>, i: int)
    requires
        0 <= i < regs.len(),
    ensures
        regs_bytes(regs)[2 * i] == be16(regs[i])[0],
        regs_bytes(regs)[2 * i + 1] == be16(regs[i])[1],
{
    assert((2 * i) / 2 == i && (2 * i) % 2 == 0) by (nonlinear_arith);
    assert((2 * i + 1) / 2 == i && (2 * i + 1) % 2 == 1) by (nonlinear_arith);
}

/// Registers written out as bytes read back as the same registers.
pub proof fn lemma_regs_round_trip(prefix: Seq<u8>, regs: Seq<u16>, suffix: Seq<u8>)
    ensures
        regs_of(prefix + regs_bytes(regs) + suffix, prefix.len() as int, regs.len() as int) == regs,
{
    let body = regs_bytes(regs);
    let data = prefix + body + suffix;
    let at = prefix.len() as int;
    let got = regs_of(data, at, regs.len() as int);
    assert forall|i: int| 0 <= i < regs.len() implies #[trigger] got[i] == regs[i] by {
        let k = 2 * i;
        assert(0 <= k && k + 1 < body.len());
        assert(data[at + k] == body[k]);
        assert(data[at + k + 1] == body[k + 1]);
        lemma_regs_bytes_at(regs, i);
        lemma_be16_inverse(regs[i]);
        assert(got[i] == u16_of(data[at + k], data[at + k + 1]));
    }
    assert(got =~= regs);
}

} // verus!
