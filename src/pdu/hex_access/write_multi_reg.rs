//! Write Multiple Registers (function code 0x10); the response echoes the
//! request's address and quantity.
use crate::error::Error;
use crate::pdu::fields::{lemma_regs_round_trip, push_regs, read_regs, regs_bytes, regs_of};
use crate::pdu::{Function, FunctionCode, Request as ReqT, Response as RspT, Setter};
use crate::wire::{be16, lemma_be16_inverse, push_be16, read_be16, u16_of};
use vstd::prelude::*;

verus! {

/// The fewest registers one request may write.
pub const MIN_QUANTITY: u16 = 1;

/// The most registers one request may write.
pub const MAX_QUANTITY: u16 = 123;

/// Write Multiple Registers request function
#[derive(Debug, PartialEq, Eq)]
pub struct Request {
    address: u16,
    values: Vec<u16>,
}

impl View for Request {
    /// (start address, register values)
    type V = (u16, Seq<u16>);

    closed spec fn view(&self) -> (u16, Seq<u16>) {
        (self.address, self.values@)
    }
}

impl Request {
    /// Create a new Write Multiple Registers request function
    pub fn new(address: u16, values: &[u16]) -> (r: Self)
        ensures
            r@ == (address, values@),
    {
        Request { address, values: vstd::slice::slice_to_vec(values) }
    }

    /// Get address of the starting register from the Write Multiple Registers request function
    pub fn get_address(&self) -> (r: u16)
        ensures
            r == self@.0,
    {
        self.address
    }

    /// Get values from the Write Multiple Registers request function
    pub fn get_values(&self) -> (r: &[u16])
        ensures
            r@ == self@.1,
    {
        self.values.as_slice()
    }
}

/// The PDU of a request writing `values` from `address`.
pub open spec fn request_bytes(address: u16, values: Seq<u16>) -> Seq<u8> {
    seq![FunctionCode::WriteMultiReg.spec_code()] + be16(address) + be16(values.len() as u16)
        + seq![(2 * values.len()) as u8] + regs_bytes(values)
}

impl Function for Request {
    open spec fn encode_spec(m: (u16, Seq<u16>)) -> Result<Seq<u8>, Error> {
        if MIN_QUANTITY <= m.1.len() <= MAX_QUANTITY {
            Ok(request_bytes(m.0, m.1))
        } else {
            Err(Error::InvalidValue)
        }
    }

    open spec fn decode_spec(data: Seq<u8>) -> Result<(u16, Seq<u16>), Error> {
        if data.len() < 6 {
            Err(Error::InvalidDataLength)
        } else if data[0] != FunctionCode::WriteMultiReg.spec_code() {
            Err(Error::InvalidData)
        } else if data[5] != 2 * u16_of(data[3], data[4]) {
            Err(Error::InvalidDataLength)
        } else if u16_of(data[3], data[4]) < MIN_QUANTITY || u16_of(data[3], data[4]) > MAX_QUANTITY {
            Err(Error::InvalidData)
        } else if data.len() != 6 + data[5] {
            Err(Error::InvalidDataLength)
        } else {
            Ok((u16_of(data[1], data[2]), regs_of(data, 6, u16_of(data[3], data[4]) as int)))
        }
    }

    fn encode(&self) -> (r: Result<Vec<u8>, Error>) {
        let n: usize = self.values.len();
        if n < MIN_QUANTITY as usize || n > MAX_QUANTITY as usize {
            return Err(Error::InvalidValue);
        }
        let mut result: Vec<u8> = Vec::new();
        result.push(FunctionCode::WriteMultiReg.code());
        push_be16(&mut result, self.address);
        push_be16(&mut result, n as u16);
        result.push((2 * n) as u8);
        push_regs(&mut result, self.values.as_slice());
        assert(result@ =~= request_bytes(self.address, self.values@));
        Ok(result)
    }

    fn decode(data: &[u8]) -> (r: Result<Self, Error>) {
        let len: usize = data.len();
        if len < 6 {
            return Err(Error::InvalidDataLength);
        }
        if data[0] != FunctionCode::WriteMultiReg.code() {
            return Err(Error::InvalidData);
        }
        let address = read_be16(data, 1);
        let quantity = read_be16(data, 3);
        let data_cnt: u8 = data[5];
        if data_cnt as u32 != 2 * quantity as u32 {
            return Err(Error::InvalidDataLength);
        }
        if quantity < MIN_QUANTITY || quantity > MAX_QUANTITY {
            return Err(Error::InvalidData);
        }
        if len != 6 + data_cnt as usize {
            return Err(Error::InvalidDataLength);
        }
        let values = read_regs(data, 6, quantity as usize);
        Ok(Request { address, values })
    }
}

impl ReqT for Request {
    type Rsp = Response;
}

impl Setter for Request {
    open spec fn expected_response_spec(m: (u16, Seq<u16>)) -> (u16, u16) {
        (m.0, m.1.len() as u16)
    }

    fn is_expected_response(&self, rsp: &Response) -> (r: bool) {
        rsp.address == self.address && rsp.quantity == self.values.len() as u16
    }
}

/// Write Multiple Registers response function
#[derive(Clone, Copy, Debug, PartialEq, Eq, Structural)]
pub struct Response {
    address: u16,
    quantity: u16,
}

impl View for Response {
    /// (start address, quantity written)
    type V = (u16, u16);

    closed spec fn view(&self) -> (u16, u16) {
        (self.address, self.quantity)
    }
}

impl Response {
    /// Create a new Write Multiple Registers response function
    pub fn new(address: u16, quantity: u16) -> (r: Self)
        ensures
            r@ == (address, quantity),
    {
        Response { address, quantity }
    }

    /// Get address of the starting register from the Write Multiple Registers response function
    pub fn get_address(&self) -> (r: u16)
        ensures
            r == self@.0,
    {
        self.address
    }

    /// Get quantity from the Write Multiple Registers response function
    pub fn get_quantity(&self) -> (r: u16)
        ensures
            r == self@.1,
    {
        self.quantity
    }
}

impl Function for Response {
    open spec fn encode_spec(m: (u16, u16)) -> Result<Seq<u8>, Error> {
        if MIN_QUANTITY <= m.1 <= MAX_QUANTITY {
            Ok(seq![FunctionCode::WriteMultiReg.spec_code()] + be16(m.0) + be16(m.1))
        } else {
            Err(Error::InvalidValue)
        }
    }

    open spec fn decode_spec(data: Seq<u8>) -> Result<(u16, u16), Error> {
        if data.len() != 5 {
            Err(Error::InvalidDataLength)
        } else if data[0] != FunctionCode::WriteMultiReg.spec_code() {
            Err(Error::InvalidData)
        } else if u16_of(data[3], data[4]) < MIN_QUANTITY || u16_of(data[3], data[4]) > MAX_QUANTITY {
            Err(Error::InvalidData)
        } else {
            Ok((u16_of(data[1], data[2]), u16_of(data[3], data[4])))
        }
    }

    fn encode(&self) -> (r: Result<Vec<u8>, Error>) {
        if self.quantity < MIN_QUANTITY || self.quantity > MAX_QUANTITY {
            return Err(Error::InvalidValue);
        }
        let mut result: Vec<u8> = Vec::new();
        result.push(FunctionCode::WriteMultiReg.code());
        push_be16(&mut result, self.address);
        push_be16(&mut result, self.quantity);
        assert(result@ =~= seq![FunctionCode::WriteMultiReg.spec_code()] + be16(self.address) + be16(self.quantity));
        Ok(result)
    }

    fn decode(data: &[u8]) -> (r: Result<Self, Error>) {
        if data.len() != 5 {
            return Err(Error::InvalidDataLength);
        }
        if data[0] != FunctionCode::WriteMultiReg.code() {
            return Err(Error::InvalidData);
        }
        let address = read_be16(data, 1);
        let quantity = read_be16(data, 3);
        if quantity < MIN_QUANTITY || quantity > MAX_QUANTITY {
            return Err(Error::InvalidData);
        }
        Ok(Response { address, quantity })
    }
}

impl RspT for Response {
    open spec fn exc_function_code_spec() -> u8 {
        (FunctionCode::WriteMultiReg.spec_code() + 0x80) as u8
    }

    fn get_exc_function_code() -> (r: u8) {
        FunctionCode::WriteMultiReg.exc_code()
    }
}

/// A Write Multiple Registers request with 1 to 123 values decodes back to
/// itself.
pub proof fn lemma_request_round_trip(m: (u16, Seq<u16>))
    requires
        MIN_QUANTITY <= m.1.len() <= MAX_QUANTITY,
    ensures
        match Request::encode_spec(m) {
            Ok(pdu) => Request::decode_spec(pdu) == Ok::<(u16, Seq<u16>), Error>(m),
            Err(_) => false,
        },
{
    let n = m.1.len();
    let head = seq![FunctionCode::WriteMultiReg.spec_code()] + be16(m.0) + be16(n as u16) + seq![(2 * n) as u8];
    let pdu = request_bytes(m.0, m.1);
    assert(pdu == head + regs_bytes(m.1));
    lemma_be16_inverse(m.0);
    lemma_be16_inverse(n as u16);
    assert(pdu[1] == head[1] && pdu[2] == head[2] && pdu[3] == head[3] && pdu[4] == head[4] && pdu[5] == head[5]);
    assert(u16_of(pdu[3], pdu[4]) == n);
    lemma_regs_round_trip(head, m.1, Seq::empty());
    assert(head + regs_bytes(m.1) + Seq::<u8>::empty() =~= pdu);
}

/// A Write Multiple Registers response with a quantity in `1..=123` decodes
/// back to itself.
pub proof fn lemma_response_round_trip(m: (u16, u16))
    requires
        MIN_QUANTITY <= m.1 <= MAX_QUANTITY,
    ensures
        match Response::encode_spec(m) {
            Ok(pdu) => Response::decode_spec(pdu) == Ok::<(u16, u16), Error>(m),
            Err(_) => false,
        },
{
    lemma_be16_inverse(m.0);
    lemma_be16_inverse(m.1);
}

/// Encoding a request with fewer than 1 or more than 123 values fails with
/// `InvalidValue`; decoding a PDU whose byte count is not twice its quantity
/// fails with `InvalidDataLength`.
pub proof fn lemma_quantity_rules(m: (u16, Seq<u16>), data: Seq<u8>)
    ensures
        (m.1.len() < MIN_QUANTITY || m.1.len() > MAX_QUANTITY)
            ==> Request::encode_spec(m) == Err::<Seq<u8>, Error>(Error::InvalidValue),
        (data.len() >= 6 && data[0] == FunctionCode::WriteMultiReg.spec_code()
            && data[5] != 2 * u16_of(data[3], data[4]))
            ==> Request::decode_spec(data) == Err::<(u16, Seq<u16>), Error>(Error::InvalidDataLength),
{
}

} // verus!
