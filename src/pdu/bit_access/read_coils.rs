//! Read Coils (function code 0x01).
use super::{byte_count_for, decode_bits, decode_bits_spec, encode_bits, encode_bits_spec};
use crate::error::Error;
use crate::pdu::fields::{
    decode_read_req, decode_read_req_spec, encode_read_req, encode_read_req_spec,
    lemma_read_req_round_trip,
};
use crate::pdu::{Function, FunctionCode, Request as ReqT, Response as RspT};
use vstd::prelude::*;

verus! {

/// The largest number of coils one request may read.
pub const MAX_QUANTITY: u16 = 2000;

/// Read Coils function request
#[derive(Clone, Copy, Debug, PartialEq, Eq, Structural)]
pub struct Request {
    address: u16,
    quantity: u16,
}

impl View for Request {
    /// (start address, quantity)
    type V = (u16, u16);

    closed spec fn view(&self) -> (u16, u16) {
        (self.address, self.quantity)
    }
}

impl Request {
    /// Create a new Read Coils request
    pub fn new(address: u16, quantity: u16) -> (r: Self)
        ensures
            r@ == (address, quantity),
    {
        Request { address, quantity }
    }

    /// Get address of the first coil from the request
    pub fn get_address(&self) -> (r: u16)
        ensures
            r == self@.0,
    {
        self.address
    }

    /// Get quantity of the coils in the request
    pub fn get_quantity(&self) -> (r: u16)
        ensures
            r == self@.1,
    {
        self.quantity
    }
}

impl Function for Request {
    open spec fn encode_spec(m: (u16, u16)) -> Result<Seq<u8>, Error> {
        encode_read_req_spec(FunctionCode::ReadCoils.spec_code(), MAX_QUANTITY, m.0, m.1)
    }

    open spec fn decode_spec(data: Seq<u8>) -> Result<(u16, u16), Error> {
        decode_read_req_spec(FunctionCode::ReadCoils.spec_code(), data)
    }

    fn encode(&self) -> (r: Result<Vec<u8>, Error>) {
        encode_read_req(FunctionCode::ReadCoils.code(), MAX_QUANTITY, self.address, self.quantity)
    }

    fn decode(data: &[u8]) -> (r: Result<Self, Error>) {
        match decode_read_req(FunctionCode::ReadCoils.code(), data) {
            Ok((address, quantity)) => Ok(Request { address, quantity }),
            Err(e) => Err(e),
        }
    }
}

impl ReqT for Request {
    type Rsp = Response;
}

/// Read Coils function response
#[derive(Debug, PartialEq, Eq)]
pub struct Response {
    coils: Vec<bool>,
}

impl View for Response {
    /// The coil values, padding bits of a decoded response included.
    type V = Seq<bool>;

    closed spec fn view(&self) -> Seq<bool> {
        self.coils@
    }
}

impl Response {
    /// Create a new Read Coils response.
    pub fn new(coils: &[bool]) -> (r: Self)
        ensures
            r@ == coils@,
    {
        Response { coils: vstd::slice::slice_to_vec(coils) }
    }

    /// Get vector of coils from the given response.
    pub fn get_coils(&self) -> (r: &Vec<bool>)
        ensures
            r@ == self@,
    {
        &self.coils
    }
}

impl Function for Response {
    open spec fn encode_spec(m: Seq<bool>) -> Result<Seq<u8>, Error> {
        encode_bits_spec(FunctionCode::ReadCoils.spec_code(), m)
    }

    open spec fn decode_spec(data: Seq<u8>) -> Result<Seq<bool>, Error> {
        decode_bits_spec(FunctionCode::ReadCoils.spec_code(), data)
    }

    fn encode(&self) -> (r: Result<Vec<u8>, Error>) {
        encode_bits(FunctionCode::ReadCoils.code(), self.coils.as_slice())
    }

    fn decode(data: &[u8]) -> (r: Result<Self, Error>) {
        match decode_bits(FunctionCode::ReadCoils.code(), data) {
            Ok(coils) => Ok(Response { coils }),
            Err(e) => Err(e),
        }
    }
}

impl RspT for Response {
    open spec fn exc_function_code_spec() -> u8 {
        (FunctionCode::ReadCoils.spec_code() + 0x80) as u8
    }

    fn get_exc_function_code() -> (r: u8) {
        FunctionCode::ReadCoils.exc_code()
    }
}

/// A Read Coils request with a quantity in `1..=2000` decodes back to
/// itself.
pub proof fn lemma_request_round_trip(m: (u16, u16))
    requires
        1 <= m.1 <= MAX_QUANTITY,
    ensures
        match Request::encode_spec(m) {
            Ok(pdu) => Request::decode_spec(pdu) == Ok::<(u16, u16), Error>(m),
            Err(_) => false,
        },
{
    lemma_read_req_round_trip(FunctionCode::ReadCoils.spec_code(), m.0, m.1);
}

/// A Read Coils response that can be encoded decodes back to its coils,
/// followed by zero padding up to a whole byte.
pub proof fn lemma_response_round_trip(coils: Seq<bool>)
    requires
        Response::encode_spec(coils) is Ok,
    ensures
        match Response::encode_spec(coils) {
            Ok(pdu) => match Response::decode_spec(pdu) {
                Ok(d) => {
                    &&& d.len() == 8 * byte_count_for(coils.len())
                    &&& d.subrange(0, coils.len() as int) == coils
                    &&& forall|i: int| coils.len() <= i < d.len() ==> !#[trigger] d[i]
                },
                Err(_) => false,
            },
            Err(_) => false,
        },
{
    super::lemma_bits_round_trip(FunctionCode::ReadCoils.spec_code(), coils);
}

} // verus!
