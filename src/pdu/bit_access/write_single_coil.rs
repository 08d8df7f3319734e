//! Write Single Coil (function code 0x05); the response echoes the request.
use crate::error::Error;
use crate::pdu::{Function, FunctionCode, Request, Response, Setter};
use crate::wire::{be16, lemma_be16_inverse, push_be16, read_be16, u16_of};
use vstd::prelude::*;

verus! {

/// The wire value that switches a coil on.
pub const COIL_ON: u16 = 0xFF00;

/// The wire value that switches a coil off.
pub const COIL_OFF: u16 = 0x0000;

/// The two values a coil may be written with.
#[derive(Clone, Copy, Debug, PartialEq, Eq, Structural)]
enum Value {
    Off,
    On,
}

impl Value {
    spec fn spec_is_on(self) -> bool {
        self == Value::On
    }

    fn from_bool(on: bool) -> (r: Value)
        ensures
            r.spec_is_on() == on,
    {
        if on {
            Value::On
        } else {
            Value::Off
        }
    }

    fn is_on(self) -> (r: bool)
        ensures
            r == self.spec_is_on(),
    {
        match self {
            Value::On => true,
            Value::Off => false,
        }
    }

    fn wire(self) -> (r: u16)
        ensures
            r == if self.spec_is_on() { COIL_ON } else { COIL_OFF },
    {
        match self {
            Value::On => COIL_ON,
            Value::Off => COIL_OFF,
        }
    }

    /// The value a 16-bit wire word stands for; `InvalidData` for any word
    /// but the two coil values.
    fn from_wire(v: u16) -> (r: Result<Value, Error>)
        ensures
            v == COIL_ON ==> (r matches Ok(x) && x.spec_is_on()),
            v == COIL_OFF ==> (r matches Ok(x) && !x.spec_is_on()),
            v != COIL_ON && v != COIL_OFF ==> r == Err::<Value, Error>(Error::InvalidData),
    {
        if v == COIL_ON {
            Ok(Value::On)
        } else if v == COIL_OFF {
            Ok(Value::Off)
        } else {
            Err(Error::InvalidData)
        }
    }
}

/// Write Single Coil request or response function
#[derive(Clone, Copy, Debug, PartialEq, Eq, Structural)]
pub struct Message {
    address: u16,
    value: Value,
}

impl View for Message {
    /// (coil address, whether the coil is switched on)
    type V = (u16, bool);

    closed spec fn view(&self) -> (u16, bool) {
        (self.address, self.value.spec_is_on())
    }
}

impl Message {
    /// Create a new Write Single Coil function
    pub fn new(address: u16, value: bool) -> (r: Self)
        ensures
            r@ == (address, value),
    {
        Message { address, value: Value::from_bool(value) }
    }

    /// Get address of the coil from the Write Single Coil function
    pub fn get_address(&self) -> (r: u16)
        ensures
            r == self@.0,
    {
        self.address
    }

    /// Get value from the Write Single Coil function
    pub fn get_value(&self) -> (r: bool)
        ensures
            r == self@.1,
    {
        self.value.is_on()
    }
}

/// The wire word of a coil value.
pub open spec fn coil_word(on: bool) -> u16 {
    if on {
        COIL_ON
    } else {
        COIL_OFF
    }
}

impl Function for Message {
    open spec fn encode_spec(m: (u16, bool)) -> Result<Seq<u8>, Error> {
        Ok(seq![FunctionCode::WriteSingleCoil.spec_code()] + be16(m.0) + be16(coil_word(m.1)))
    }

    open spec fn decode_spec(data: Seq<u8>) -> Result<(u16, bool), Error> {
        if data.len() != 5 {
            Err(Error::InvalidDataLength)
        } else if data[0] != FunctionCode::WriteSingleCoil.spec_code() {
            Err(Error::InvalidData)
        } else if u16_of(data[3], data[4]) == COIL_ON {
            Ok((u16_of(data[1], data[2]), true))
        } else if u16_of(data[3], data[4]) == COIL_OFF {
            Ok((u16_of(data[1], data[2]), false))
        } else {
            Err(Error::InvalidData)
        }
    }

    fn encode(&self) -> (r: Result<Vec<u8>, Error>) {
        let mut result: Vec<u8> = Vec::new();
        result.push(FunctionCode::WriteSingleCoil.code());
        push_be16(&mut result, self.address);
        push_be16(&mut result, self.value.wire());
        assert(result@ =~= seq![FunctionCode::WriteSingleCoil.spec_code()] + be16(self.address)
            + be16(coil_word(self.value.spec_is_on())));
        Ok(result)
    }

    fn decode(data: &[u8]) -> (r: Result<Self, Error>) {
        if data.len() != 5 {
            return Err(Error::InvalidDataLength);
        }
        if data[0] != FunctionCode::WriteSingleCoil.code() {
            return Err(Error::InvalidData);
        }
        let address = read_be16(data, 1);
        match Value::from_wire(read_be16(data, 3)) {
            Ok(value) => Ok(Message { address, value }),
            Err(e) => Err(e),
        }
    }
}

impl Request for Message {
    type Rsp = Message;
}

impl Response for Message {
    open spec fn exc_function_code_spec() -> u8 {
        (FunctionCode::WriteSingleCoil.spec_code() + 0x80) as u8
    }

    fn get_exc_function_code() -> (r: u8) {
        FunctionCode::WriteSingleCoil.exc_code()
    }
}

impl Setter for Message {
    open spec fn expected_response_spec(m: (u16, bool)) -> (u16, bool) {
        m
    }

    fn is_expected_response(&self, rsp: &Message) -> (r: bool) {
        self.address == rsp.address && self.value == rsp.value
    }
}

/// Every Write Single Coil message decodes back to itself.
pub proof fn lemma_round_trip(m: (u16, bool))
    ensures
        match Message::encode_spec(m) {
            Ok(pdu) => Message::decode_spec(pdu) == Ok::<(u16, bool), Error>(m),
            Err(_) => false,
        },
{
    lemma_be16_inverse(m.0);
    lemma_be16_inverse(coil_word(m.1));
}

/// A Write Single Coil PDU whose value is neither 0x0000 nor 0xFF00 is
/// rejected with `InvalidData`.
pub proof fn lemma_invalid_value_rejected(address: u16, value: u16)
    requires
        value != COIL_ON,
        value != COIL_OFF,
    ensures
        Message::decode_spec(seq![FunctionCode::WriteSingleCoil.spec_code()] + be16(address) + be16(value))
            == Err::<(u16, bool), Error>(Error::InvalidData),
{
    lemma_be16_inverse(value);
}

} // verus!
