//! Read Discrete Inputs (function code 0x02).
use super::{byte_count_for, decode_bits, decode_bits_spec, encode_bits, encode_bits_spec};
use crate::error::Error;
use crate::pdu::fields::{
    decode_read_req, decode_read_req_spec, encode_read_req, encode_read_req_spec,
    lemma_read_req_round_trip,
};
use crate::pdu::{Function, FunctionCode, Request as ReqT, Response as RspT};
use vstd::prelude::*;

verus! {

/// The largest number of inputs one request may read.
pub const MAX_QUANTITY: u16 = 2000;

/// Read Discrete Inputs function request
#[derive(Clone, Copy, Debug, PartialEq, Eq, Structural)]
pub struct Request {
    address: u16,
    quantity: u16,
}

impl View for Request {
    /// (start address, quantity)
    type V = (u16, u16);

    closed spec fn view(&self) -> (u16, u16) {
        (self.address, self.quantity)
    }
}

impl Request {
    /// Create a new Read Discrete Inputs request
    pub fn new(address: u16, quantity: u16) -> (r: Self)
        ensures
            r@ == (address, quantity),
    {
        Request { address, quantity }
    }

    /// Get address of the first discrete input from the request
    pub fn get_address(&self) -> (r: u16)
        ensures
            r == self@.0,
    {
        self.address
    }

    /// Get quantity of the inputs in the request
    pub fn get_quantity(&self) -> (r: u16)
        ensures
            r == self@.1,
    {
        self.quantity
    }
}

impl Function for Request {
    open spec fn encode_spec(m: (u16, u16)) -> Result<Seq<u8>, Error> {
        encode_read_req_spec(FunctionCode::ReadDscrIn.spec_code(), MAX_QUANTITY, m.0, m.1)
    }

    open spec fn decode_spec(data: Seq<u8>) -> Result<(u16, u16), Error> {
        decode_read_req_spec(FunctionCode::ReadDscrIn.spec_code(), data)
    }

    fn encode(&self) -> (r: Result<Vec<u8>, Error>) {
        encode_read_req(FunctionCode::ReadDscrIn.code(), MAX_QUANTITY, self.address, self.quantity)
    }

    fn decode(data: &[u8]) -> (r: Result<Self, Error>) {
        match decode_read_req(FunctionCode::ReadDscrIn.code(), data) {
            Ok((address, quantity)) => Ok(Request { address, quantity }),
            Err(e) => Err(e),
        }
    }
}

impl ReqT for Request {
    type Rsp = Response;
}

/// Read Discrete Inputs function response
#[derive(Debug, PartialEq, Eq)]
pub struct Response {
    inputs: Vec<bool>,
}

impl View for Response {
    /// The input values, padding bits of a decoded response included.
    type V = Seq<bool>;

    closed spec fn view(&self) -> Seq<bool> {
        self.inputs@
    }
}

impl Response {
    /// Create a new Read Discrete Inputs response.
    pub fn new(inputs: &[bool]) -> (r: Self)
        ensures
            r@ == inputs@,
    {
        Response { inputs: vstd::slice::slice_to_vec(inputs) }
    }

    /// Get vector of inputs from the given response.
    pub fn get_inputs(&self) -> (r: &Vec<bool>)
        ensures
            r@ == self@,
    {
        &self.inputs
    }
}

impl Function for Response {
    open spec fn encode_spec(m: Seq<bool>) -> Result<Seq<u8>, Error> {
        encode_bits_spec(FunctionCode::ReadDscrIn.spec_code(), m)
    }

    open spec fn decode_spec(data: Seq<u8>) -> Result<Seq<bool>, Error> {
        decode_bits_spec(FunctionCode::ReadDscrIn.spec_code(), data)
    }

    fn encode(&self) -> (r: Result<Vec<u8>, Error>) {
        encode_bits(FunctionCode::ReadDscrIn.code(), self.inputs.as_slice())
    }

    fn decode(data: &[u8]) -> (r: Result<Self, Error>) {
        match decode_bits(FunctionCode::ReadDscrIn.code(), data) {
            Ok(inputs) => Ok(Response { inputs }),
            Err(e) => Err(e),
        }
    }
}

impl RspT for Response {
    open spec fn exc_function_code_spec() -> u8 {
        (FunctionCode::ReadDscrIn.spec_code() + 0x80) as u8
    }

    fn get_exc_function_code() -> (r: u8) {
        FunctionCode::ReadDscrIn.exc_code()
    }
}

/// A Read Discrete Inputs request with a quantity in `1..=2000` decodes back to
/// itself.
pub proof fn lemma_request_round_trip(m: (u16, u16))
    requires
        1 <= m.1 <= MAX_QUANTITY,
    ensures
        match Request::encode_spec(m) {
            Ok(pdu) => Request::decode_spec(pdu) == Ok::<(u16, u16), Error>(m),
            Err(_) => false,
        },
{
    lemma_read_req_round_trip(FunctionCode::ReadDscrIn.spec_code(), m.0, m.1);
}

/// A Read Discrete Inputs response that can be encoded decodes back to its inputs,
/// followed by zero padding up to a whole byte.
pub proof fn lemma_response_round_trip(inputs: Seq<bool>)
    requires
        Response::encode_spec(inputs) is Ok,
    ensures
        match Response::encode_spec(inputs) {
            Ok(pdu) => match Response::decode_spec(pdu) {
                Ok(d) => {
                    &&& d.len() == 8 * byte_count_for(inputs.len())
                    &&& d.subrange(0, inputs.len() as int) == inputs
                    &&& forall|i: int| inputs.len() <= i < d.len() ==> !#[trigger] d[i]
                },
                Err(_) => false,
            },
            Err(_) => false,
        },
{
    super::lemma_bits_round_trip(FunctionCode::ReadDscrIn.spec_code(), inputs);
}

} // verus!
