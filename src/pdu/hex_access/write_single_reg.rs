//! Write Single Register (function code 0x06); the response echoes the
//! request.
use crate::error::Error;
use crate::pdu::{Function, FunctionCode, Request, Response, Setter};
use crate::wire::{be16, lemma_be16_inverse, push_be16, read_be16, u16_of};
use vstd::prelude::*;

verus! {

/// Write Single Register request or response function
#[derive(Clone, Copy, Debug, PartialEq, Eq, Structural)]
pub struct Message {
    address: u16,
    value: u16,
}

impl View for Message {
    /// (register address, value)
    type V = (u16, u16);

    closed spec fn view(&self) -> (u16, u16) {
        (self.address, self.value)
    }
}

impl Message {
    /// Create a new Write Single Register function
    pub fn new(address: u16, value: u16) -> (r: Self)
        ensures
            r@ == (address, value),
    {
        Message { address, value }
    }

    /// Get address of the register from the Write Single Register function
    pub fn get_address(&self) -> (r: u16)
        ensures
            r == self@.0,
    {
        self.address
    }

    /// Get value from the Write Single Register function
    pub fn get_value(&self) -> (r: u16)
        ensures
            r == self@.1,
    {
        self.value
    }
}

impl Function for Message {
    open spec fn encode_spec(m: (u16, u16)) -> Result<Seq<u8>, Error> {
        Ok(seq![FunctionCode::WriteSingleReg.spec_code()] + be16(m.0) + be16(m.1))
    }

    open spec fn decode_spec(data: Seq<u8>) -> Result<(u16, u16), Error> {
        if data.len() != 5 {
            Err(Error::InvalidDataLength)
        } else if data[0] != FunctionCode::WriteSingleReg.spec_code() {
            Err(Error::InvalidData)
        } else {
            Ok((u16_of(data[1], data[2]), u16_of(data[3], data[4])))
        }
    }

    fn encode(&self) -> (r: Result<Vec<u8>, Error>) {
        let mut result: Vec<u8> = Vec::new();
        result.push(FunctionCode::WriteSingleReg.code());
        push_be16(&mut result, self.address);
        push_be16(&mut result, self.value);
        assert(result@ =~= seq![FunctionCode::WriteSingleReg.spec_code()] + be16(self.address) + be16(self.value));
        Ok(result)
    }

    fn decode(data: &[u8]) -> (r: Result<Self, Error>) {
        if data.len() != 5 {
            return Err(Error::InvalidDataLength);
        }
        if data[0] != FunctionCode::WriteSingleReg.code() {
            return Err(Error::InvalidData);
        }
        Ok(Message { address: read_be16(data, 1), value: read_be16(data, 3) })
    }
}

impl Request for Message {
    type Rsp = Message;
}

impl Response for Message {
    open spec fn exc_function_code_spec() -> u8 {
        (FunctionCode::WriteSingleReg.spec_code() + 0x80) as u8
    }

    fn get_exc_function_code() -> (r: u8) {
        FunctionCode::WriteSingleReg.exc_code()
    }
}

impl Setter for Message {
    open spec fn expected_response_spec(m: (u16, u16)) -> (u16, u16) {
        m
    }

    fn is_expected_response(&self, rsp: &Message) -> (r: bool) {
        self.address == rsp.address && self.value == rsp.value
    }
}

/// Every Write Single Register message decodes back to itself.
pub proof fn lemma_round_trip(m: (u16, u16))
    ensures
        match Message::encode_spec(m) {
            Ok(pdu) => Message::decode_spec(pdu) == Ok::<(u16, u16), Error>(m),
            Err(_) => false,
        },
{
    lemma_be16_inverse(m.0);
    lemma_be16_inverse(m.1);
}

} // verus!
