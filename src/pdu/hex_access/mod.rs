//! 16-bit data: holding and input registers.
pub mod read_hld_reg;
pub mod read_in_reg;
pub mod write_multi_reg;
pub mod write_single_reg;

use crate::error::Error;
use crate::pdu::Function;
use crate::pdu::fields::{lemma_regs_round_trip, push_regs, read_regs, regs_bytes, regs_of};
use vstd::prelude::*;

verus! {

/// The largest number of registers one read request may ask for.
pub const MAX_READ_QUANTITY: u16 = 125;

/// Encoding a register-read response of function `code`: function code,
/// byte count, then each register big-endian.
pub open spec fn encode_regs_spec(code: u8, regs: Seq<u16>) -> Result<Seq<u8>, Error> {
    if regs.len() == 0 || regs.len() > MAX_READ_QUANTITY {
        Err(Error::InvalidValue)
    } else {
        Ok(seq![code, (2 * regs.len()) as u8] + regs_bytes(regs))
    }
}

/// Decoding a register-read response of function `code`.
pub open spec fn decode_regs_spec(code: u8, data: Seq<u8>) -> Result<Seq<u16>, Error> {
    if data.len() < 2 {
        Err(Error::InvalidDataLength)
    } else if data[0] != code {
        Err(Error::InvalidData)
    } else if data[1] % 2 != 0 {
        Err(Error::InvalidData)
    } else if data[1] != data.len() - 2 {
        Err(Error::InvalidDataLength)
    } else {
        Ok(regs_of(data, 2, data[1] as int / 2))
    }
}

/// Encodes a register-read response of function `code`.
pub fn encode_regs(code: u8, regs: &[u16]) -> (r: Result<Vec<u8>, Error>)
    ensures
        crate::pdu::bytes_of(r) == encode_regs_spec(code, regs@),
{
    let n: usize = regs.len();
    if n == 0 || n > MAX_READ_QUANTITY as usize {
        return Err(Error::InvalidValue);
    }
    let mut result: Vec<u8> = Vec::new();
    result.push(code);
    result.push((2 * n) as u8);
    push_regs(&mut result, regs);
    assert(result@ =~= seq![code, (2 * regs@.len()) as u8] + regs_bytes(regs@));
    Ok(result)
}

/// Decodes a register-read response of function `code`.
pub fn decode_regs(code: u8, data: &[u8]) -> (r: Result<Vec<u16>, Error>)
    ensures
        match (r, decode_regs_spec(code, data@)) {
            (Ok(v), Ok(s)) => v@ == s,
            (Err(e), Err(f)) => e == f,
            _ => false,
        },
{
    let len: usize = data.len();
    if len < 2 {
        return Err(Error::InvalidDataLength);
    }
    if data[0] != code {
        return Err(Error::InvalidData);
    }
    let num_bytes: u8 = data[1];
    if num_bytes % 2 != 0 {
        return Err(Error::InvalidData);
    }
    if num_bytes as usize != len - 2 {
        return Err(Error::InvalidDataLength);
    }
    Ok(read_regs(data, 2, (num_bytes / 2) as usize))
}

/// A register-read response that can be encoded decodes back to its
/// registers.
pub proof fn lemma_regs_response_round_trip(code: u8, regs: Seq<u16>)
    requires
        encode_regs_spec(code, regs) is Ok,
    ensures
        match encode_regs_spec(code, regs) {
            Ok(pdu) => decode_regs_spec(code, pdu) == Ok::<Seq<u16>, Error>(regs),
            Err(_) => false,
        },
{
    let prefix = seq![code, (2 * regs.len()) as u8];
    lemma_regs_round_trip(prefix, regs, Seq::empty());
    assert(prefix + regs_bytes(regs) + Seq::<u8>::empty() =~= prefix + regs_bytes(regs));
}

} // verus!

verus! {

/// Encoding a Read Holding Registers or a Read Input Registers request
/// fails with `InvalidValue` exactly when its quantity is 0 or above 125.
pub proof fn lemma_register_read_quantity(address: u16, quantity: u16)
    ensures
        (quantity == 0 || quantity > 125) <==> read_hld_reg::Request::encode_spec((address, quantity))
            == Err::<Seq<u8>, Error>(Error::InvalidValue),
        (quantity == 0 || quantity > 125) <==> read_in_reg::Request::encode_spec((address, quantity))
            == Err::<Seq<u8>, Error>(Error::InvalidValue),
{
}

} // verus!
