//! RTU frame: unit address, PDU, and a CRC-16/MODBUS over both, low byte
//! first.
use crate::error::Error;
use crate::pdu::MAX_SIZE;
use crate::wire::{le16, lemma_be16_inverse, u16_of};
use vstd::prelude::*;

verus! {

/// The CRC-16/MODBUS (polynomial 0xA001 reflected, initial value 0xFFFF,
/// no final xor) of a byte string.
pub uninterp spec fn modbus_crc(data: Seq<u8>) -> u16;

/// Relies on `crc16::State::<crc16::MODBUS>::calculate`: the CRC-16/MODBUS
/// of `data`, which depends on the bytes alone.
#[verifier::external_body]
fn crc(data: &[u8]) -> (r: u16)
    ensures
        r == modbus_crc(data@),
{
    crc16::State::<crc16::MODBUS>::calculate(data)
}

/// The bytes of an RTU frame carrying `pdu` to or from unit `address`.
pub open spec fn frame_bytes(address: u8, pdu: Seq<u8>) -> Seq<u8> {
    seq![address] + pdu + le16(modbus_crc(seq![address] + pdu))
}

/// Encoding a frame: a PDU must hold 1 to 253 bytes.
pub open spec fn encode_spec(address: u8, pdu: Seq<u8>) -> Result<Seq<u8>, Error> {
    if 1 <= pdu.len() <= MAX_SIZE {
        Ok(frame_bytes(address, pdu))
    } else {
        Err(Error::InvalidValue)
    }
}

/// Decoding a frame into (address, PDU): at least four bytes, and a CRC
/// that matches the bytes before it.
pub open spec fn decode_spec(data: Seq<u8>) -> Result<(u8, Seq<u8>), Error> {
    if data.len() < 4 {
        Err(Error::InvalidDataLength)
    } else if modbus_crc(data.subrange(0, data.len() - 2)) != u16_of(data[data.len() - 1], data[data.len() - 2]) {
        Err(Error::InvalidData)
    } else {
        Ok((data[0], data.subrange(1, data.len() - 2)))
    }
}

/// An RTU frame: the unit address and the PDU it carries.
#[derive(Debug, PartialEq, Eq)]
pub struct Frame {
    address: u8,
    pdu: Vec<u8>,
}

impl View for Frame {
    /// (unit address, PDU)
    type V = (u8, Seq<u8>);

    closed spec fn view(&self) -> (u8, Seq<u8>) {
        (self.address, self.pdu@)
    }
}

impl Frame {
    /// A frame carrying `pdu` to or from unit `address`.
    pub fn new(address: u8, pdu: &[u8]) -> (r: Self)
        ensures
            r@ == (address, pdu@),
    {
        Frame { address, pdu: vstd::slice::slice_to_vec(pdu) }
    }

    /// The unit address of the frame.
    pub fn get_address(&self) -> (r: u8)
        ensures
            r == self@.0,
    {
        self.address
    }

    /// A copy of the PDU the frame carries.
    pub fn get_pdu(&self) -> (r: Vec<u8>)
        ensures
            r@ == self@.1,
    {
        vstd::slice::slice_to_vec(self.pdu.as_slice())
    }

    /// Whether the frame is addressed to or from unit `other`.
    pub fn is_address(&self, other: u8) -> (r: bool)
        ensures
            r == (self@.0 == other),
    {
        self.address == other
    }

    /// The bytes of the frame; `InvalidValue` unless the PDU holds 1 to 253
    /// bytes.
    pub fn encode(&self) -> (r: Result<Vec<u8>, Error>)
        ensures
            crate::pdu::bytes_of(r) == encode_spec(self@.0, self@.1),
    {
        let n: usize = self.pdu.len();
        if n < 1 || n > MAX_SIZE {
            return Err(Error::InvalidValue);
        }
        let mut result: Vec<u8> = Vec::new();
        result.push(self.address);
        result.extend_from_slice(self.pdu.as_slice());
        let ghost body = result@;
        assert(body =~= seq![self.address] + self.pdu@);
        let c: u16 = crc(result.as_slice());
        result.push((c % 256) as u8);
        result.push((c / 256) as u8);
        assert(result@ =~= frame_bytes(self.address, self.pdu@));
        Ok(result)
    }

    /// Reads a frame; `InvalidDataLength` below four bytes, `InvalidData`
    /// when the CRC does not match.
    pub fn decode(data: &[u8]) -> (r: Result<Self, Error>)
        ensures
            crate::pdu::model_of(r) == decode_spec(data@),
    {
        let len: usize = data.len();
        if len < 4 {
            return Err(Error::InvalidDataLength);
        }
        let expected_crc: u16 = crc(vstd::slice::slice_subrange(data, 0, len - 2));
        let received_crc: u16 = data[len - 1] as u16 * 256 + data[len - 2] as u16;
        if expected_crc != received_crc {
            return Err(Error::InvalidData);
        }
        let pdu = vstd::slice::slice_to_vec(vstd::slice::slice_subrange(data, 1, len - 2));
        Ok(Frame { address: data[0], pdu })
    }
}

/// Every PDU of 1 to 253 bytes, framed for any unit, decodes back to that
/// unit and PDU.
pub proof fn lemma_round_trip(address: u8, pdu: Seq<u8>)
    requires
        1 <= pdu.len() <= MAX_SIZE,
    ensures
        match encode_spec(address, pdu) {
            Ok(bytes) => decode_spec(bytes) == Ok::<(u8, Seq<u8>), Error>((address, pdu)),
            Err(_) => false,
        },
{
    let body = seq![address] + pdu;
    let c = modbus_crc(body);
    let bytes = frame_bytes(address, pdu);
    let n = bytes.len();
    assert(bytes.subrange(0, n - 2) =~= body);
    assert(bytes.subrange(1, n - 2) =~= pdu);
    assert(bytes[n - 2] == le16(c)[0] && bytes[n - 1] == le16(c)[1]);
    lemma_be16_inverse(c);
}

} // verus!
