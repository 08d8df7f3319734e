//! Read Holding Registers (function code 0x03).
use super::{decode_regs, decode_regs_spec, encode_regs, encode_regs_spec, lemma_regs_response_round_trip, MAX_READ_QUANTITY};
use crate::error::Error;
use crate::pdu::fields::{
    decode_read_req, decode_read_req_spec, encode_read_req, encode_read_req_spec,
    lemma_read_req_round_trip,
};
use crate::pdu::{Function, FunctionCode, Request as ReqT, Response as RspT};
use vstd::prelude::*;

verus! {

/// Read Holding Registers function request
#[derive(Clone, Copy, Debug, PartialEq, Eq, Structural)]
pub struct Request {
    address: u16,
    quantity: u16,
}

impl View for Request {
    /// (start address, quantity)
    type V = (u16, u16);

    closed spec fn view(&self) -> (u16, u16) {
        (self.address, self.quantity)
    }
}

impl Request {
    /// Create a new Read Holding Registers request
    pub fn new(address: u16, quantity: u16) -> (r: Self)
        ensures
            r@ == (address, quantity),
    {
        Request { address, quantity }
    }

    /// Get address of the first register from the request
    pub fn get_address(&self) -> (r: u16)
        ensures
            r == self@.0,
    {
        self.address
    }

    /// Get quantity of the registers in the request
    pub fn get_quantity(&self) -> (r: u16)
        ensures
            r == self@.1,
    {
        self.quantity
    }
}

impl Function for Request {
    open spec fn encode_spec(m: (u16, u16)) -> Result<Seq<u8>, Error> {
        encode_read_req_spec(FunctionCode::ReadHldReg.spec_code(), MAX_READ_QUANTITY, m.0, m.1)
    }

    open spec fn decode_spec(data: Seq<u8>) -> Result<(u16, u16), Error> {
        decode_read_req_spec(FunctionCode::ReadHldReg.spec_code(), data)
    }

    fn encode(&self) -> (r: Result<Vec<u8>, Error>) {
        encode_read_req(FunctionCode::ReadHldReg.code(), MAX_READ_QUANTITY, self.address, self.quantity)
    }

    fn decode(data: &[u8]) -> (r: Result<Self, Error>) {
        match decode_read_req(FunctionCode::ReadHldReg.code(), data) {
            Ok((address, quantity)) => Ok(Request { address, quantity }),
            Err(e) => Err(e),
        }
    }
}

impl ReqT for Request {
    type Rsp = Response;
}

/// Read Holding Registers function response
#[derive(Debug, PartialEq, Eq)]
pub struct Response {
    registers: Vec<u16>,
}

impl View for Response {
    /// The register values.
    type V = Seq<u16>;

    closed spec fn view(&self) -> Seq<u16> {
        self.registers@
    }
}

impl Response {
    /// Create a new Read Holding Registers response
    pub fn new(registers: &[u16]) -> (r: Self)
        ensures
            r@ == registers@,
    {
        Response { registers: vstd::slice::slice_to_vec(registers) }
    }

    /// Get registers' values from the response.
    pub fn get_registers(&self) -> (r: &Vec<u16>)
        ensures
            r@ == self@,
    {
        &self.registers
    }
}

impl Function for Response {
    open spec fn encode_spec(m: Seq<u16>) -> Result<Seq<u8>, Error> {
        encode_regs_spec(FunctionCode::ReadHldReg.spec_code(), m)
    }

    open spec fn decode_spec(data: Seq<u8>) -> Result<Seq<u16>, Error> {
        decode_regs_spec(FunctionCode::ReadHldReg.spec_code(), data)
    }

    fn encode(&self) -> (r: Result<Vec<u8>, Error>) {
        encode_regs(FunctionCode::ReadHldReg.code(), self.registers.as_slice())
    }

    fn decode(data: &[u8]) -> (r: Result<Self, Error>) {
        match decode_regs(FunctionCode::ReadHldReg.code(), data) {
            Ok(registers) => Ok(Response { registers }),
            Err(e) => Err(e),
        }
    }
}

impl RspT for Response {
    open spec fn exc_function_code_spec() -> u8 {
        (FunctionCode::ReadHldReg.spec_code() + 0x80) as u8
    }

    fn get_exc_function_code() -> (r: u8) {
        FunctionCode::ReadHldReg.exc_code()
    }
}

/// A Read Holding Registers request with a quantity in `1..=125` decodes back
/// to itself.
pub proof fn lemma_request_round_trip(m: (u16, u16))
    requires
        1 <= m.1 <= MAX_READ_QUANTITY,
    ensures
        match Request::encode_spec(m) {
            Ok(pdu) => Request::decode_spec(pdu) == Ok::<(u16, u16), Error>(m),
            Err(_) => false,
        },
{
    lemma_read_req_round_trip(FunctionCode::ReadHldReg.spec_code(), m.0, m.1);
}

/// A Read Holding Registers response with 1 to 125 registers decodes back to
/// its registers.
pub proof fn lemma_response_round_trip(registers: Seq<u16>)
    requires
        1 <= registers.len() <= MAX_READ_QUANTITY,
    ensures
        match Response::encode_spec(registers) {
            Ok(pdu) => Response::decode_spec(pdu) == Ok::<Seq<u16>, Error>(registers),
            Err(_) => false,
        },
{
    lemma_regs_response_round_trip(FunctionCode::ReadHldReg.spec_code(), registers);
}

} // verus!
