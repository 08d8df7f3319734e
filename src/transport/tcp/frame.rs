//! Modbus-TCP frame: the MBAP header (transaction id, protocol id 0,
//! length, unit id) followed by the PDU.
use crate::error::Error;
use crate::pdu::MAX_SIZE;
use crate::wire::{be16, lemma_be16_inverse, push_be16, read_be16, u16_of};
use vstd::prelude::*;

verus! {

/// The protocol id of Modbus in the MBAP header.
pub const MODBUS_ID: u16 = 0;

/// Bytes of the MBAP header.
pub const HEADER_SIZE: usize = 7;

/// Source of MBAP transaction ids: a 16-bit counter that goes up by one for
/// each frame and wraps around.
#[derive(Debug)]
pub struct TransactionIds {
    next: u16,
}

impl View for TransactionIds {
    /// The id that the next frame gets.
    type V = u16;

    closed spec fn view(&self) -> u16 {
        self.next
    }
}

/// The id after `id`, modulo 2^16.
pub open spec fn next_id(id: u16) -> u16 {
    if id == u16::MAX {
        0
    } else {
        (id + 1) as u16
    }
}

impl TransactionIds {
    /// A counter whose first id is 0.
    pub fn new() -> (r: Self)
        ensures
            r@ == 0,
    {
        TransactionIds { next: 0 }
    }

    /// A counter whose first id is `first`.
    pub fn starting_at(first: u16) -> (r: Self)
        ensures
            r@ == first,
    {
        TransactionIds { next: first }
    }

    /// Hands out the next transaction id.
    pub fn get_transaction_id(&mut self) -> (r: u16)
        ensures
            r == old(self)@,
            final(self)@ == next_id(old(self)@),
    {
        let id = self.next;
        self.next = self.next.wrapping_add(1);
        id
    }
}

/// The bytes of a frame: header, then the PDU.
pub open spec fn frame_bytes(transaction_id: u16, unit_id: u8, pdu: Seq<u8>) -> Seq<u8> {
    be16(transaction_id) + be16(MODBUS_ID) + be16((pdu.len() + 1) as u16) + seq![unit_id] + pdu
}

/// Encoding a frame: a PDU must hold 1 to 253 bytes.
pub open spec fn encode_spec(m: (u16, u8, Seq<u8>)) -> Result<Seq<u8>, Error> {
    if 1 <= m.2.len() <= MAX_SIZE {
        Ok(frame_bytes(m.0, m.1, m.2))
    } else {
        Err(Error::InvalidValue)
    }
}

/// The length of the frame whose header starts `data`.
pub open spec fn declared_len(data: Seq<u8>) -> int {
    u16_of(data[4], data[5]) + 6
}

/// Decoding the bytes received so far: `TooShortData` until the frame
/// that the header declares is complete, `InvalidData` for another protocol
/// id, `InvalidDataLength` for bytes past the declared end, else
/// (transaction id, unit id, PDU).
pub open spec fn decode_spec(data: Seq<u8>) -> Result<(u16, u8, Seq<u8>), Error> {
    if data.len() < HEADER_SIZE + 1 {
        Err(Error::TooShortData)
    } else if u16_of(data[2], data[3]) != MODBUS_ID {
        Err(Error::InvalidData)
    } else if data.len() < declared_len(data) {
        Err(Error::TooShortData)
    } else if data.len() > declared_len(data) {
        Err(Error::InvalidDataLength)
    } else {
        Ok((u16_of(data[0], data[1]), data[6], data.subrange(7, data.len() as int)))
    }
}

/// A Modbus-TCP frame.
#[derive(Debug, PartialEq, Eq)]
pub struct Frame {
    transaction_id: u16,
    unit_id: u8,
    pdu: Vec<u8>,
}

impl View for Frame {
    /// (transaction id, unit id, PDU)
    type V = (u16, u8, Seq<u8>);

    closed spec fn view(&self) -> (u16, u8, Seq<u8>) {
        (self.transaction_id, self.unit_id, self.pdu@)
    }
}

impl Frame {
    /// A frame for `unit_id` carrying `pdu`, with the next transaction id.
    pub fn new(ids: &mut TransactionIds, unit_id: u8, pdu: &[u8]) -> (r: Self)
        ensures
            r@ == (old(ids)@, unit_id, pdu@),
            final(ids)@ == next_id(old(ids)@),
    {
        let transaction_id = ids.get_transaction_id();
        Frame { transaction_id, unit_id, pdu: vstd::slice::slice_to_vec(pdu) }
    }

    /// The transaction id of the frame.
    pub fn get_transaction_id(&self) -> (r: u16)
        ensures
            r == self@.0,
    {
        self.transaction_id
    }

    /// The unit id of the frame.
    pub fn get_unit_id(&self) -> (r: u8)
        ensures
            r == self@.1,
    {
        self.unit_id
    }

    /// A copy of the PDU the frame carries.
    pub fn get_pdu(&self) -> (r: Vec<u8>)
        ensures
            r@ == self@.2,
    {
        vstd::slice::slice_to_vec(self.pdu.as_slice())
    }

    /// The bytes of the frame; `InvalidValue` unless the PDU holds 1 to 253
    /// bytes.
    pub fn encode(&self) -> (r: Result<Vec<u8>, Error>)
        ensures
            crate::pdu::bytes_of(r) == encode_spec(self@),
    {
        let n: usize = self.pdu.len();
        if n < 1 || n > MAX_SIZE {
            return Err(Error::InvalidValue);
        }
        let mut result: Vec<u8> = Vec::new();
        push_be16(&mut result, self.transaction_id);
        push_be16(&mut result, MODBUS_ID);
        push_be16(&mut result, (n + 1) as u16);
        result.push(self.unit_id);
        result.extend_from_slice(self.pdu.as_slice());
        assert(result@ =~= frame_bytes(self.transaction_id, self.unit_id, self.pdu@));
        Ok(result)
    }

    /// Reads a frame from the bytes received so far (see `decode_spec`).
    pub fn decode(data: &[u8]) -> (r: Result<Self, Error>)
        ensures
            crate::pdu::model_of(r) == decode_spec(data@),
    {
        let len: usize = data.len();
        if len < HEADER_SIZE + 1 {
            return Err(Error::TooShortData);
        }
        if read_be16(data, 2) != MODBUS_ID {
            return Err(Error::InvalidData);
        }
        let expected_len: usize = read_be16(data, 4) as usize + 6;
        if len < expected_len {
            return Err(Error::TooShortData);
        }
        if len > expected_len {
            return Err(Error::InvalidDataLength);
        }
        let pdu = vstd::slice::slice_to_vec(vstd::slice::slice_subrange(data, HEADER_SIZE, len));
        Ok(Frame { transaction_id: read_be16(data, 0), unit_id: data[6], pdu })
    }
}

/// Every frame with a PDU of 1 to 253 bytes (its header then holds protocol
/// id 0 and length 1 + the PDU's length) decodes back to its transaction
/// id, unit id and PDU.
pub proof fn lemma_round_trip(m: (u16, u8, Seq<u8>))
    requires
        1 <= m.2.len() <= MAX_SIZE,
    ensures
        match encode_spec(m) {
            Ok(bytes) => decode_spec(bytes) == Ok::<(u16, u8, Seq<u8>), Error>(m),
            Err(_) => false,
        },
{
    let bytes = frame_bytes(m.0, m.1, m.2);
    lemma_be16_inverse(m.0);
    lemma_be16_inverse(MODBUS_ID);
    lemma_be16_inverse((m.2.len() + 1) as u16);
    assert(bytes.subrange(7, bytes.len() as int) =~= m.2);
}

} // verus!
