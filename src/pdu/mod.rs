//! Protocol data units: function codes, exception codes, the traits shared
//! by every request and response, and the slave-side request dispatcher.
pub mod bit_access;
pub mod hex_access;
pub mod fields;

use crate::error::Error;
use vstd::prelude::*;

verus! {

/// The largest PDU, in bytes.
pub const MAX_SIZE: usize = 253;

/// Set on the function code of an exception response.
pub const EXCEPTION_FLAG: u8 = 0x80;

/// The bytes of an encoder's result, or its error.
pub open spec fn bytes_of(r: Result<Vec<u8>, Error>) -> Result<Seq<u8>, Error> {
    match r {
        Ok(v) => Ok(v@),
        Err(e) => Err(e),
    }
}

/// The model of a decoder's result, or its error.
pub open spec fn model_of<T: View>(r: Result<T, Error>) -> Result<T::V, Error> {
    match r {
        Ok(v) => Ok(v@),
        Err(e) => Err(e),
    }
}

/// Function codes of the supported requests.
#[derive(Clone, Copy, Debug, PartialEq, Eq, Structural)]
pub enum FunctionCode {
    ReadCoils,
    ReadDscrIn,
    ReadHldReg,
    ReadInReg,
    WriteSingleCoil,
    WriteSingleReg,
    WriteMultiReg,
}

impl FunctionCode {
    /// The byte that stands for this function on the wire.
    pub open spec fn spec_code(self) -> u8 {
        match self {
            FunctionCode::ReadCoils => 0x01,
            FunctionCode::ReadDscrIn => 0x02,
            FunctionCode::ReadHldReg => 0x03,
            FunctionCode::ReadInReg => 0x04,
            FunctionCode::WriteSingleCoil => 0x05,
            FunctionCode::WriteSingleReg => 0x06,
            FunctionCode::WriteMultiReg => 0x10,
        }
    }

    /// The function a code byte stands for, if any.
    pub open spec fn spec_from_code(b: u8) -> Option<FunctionCode> {
        if b == 0x01 {
            Some(FunctionCode::ReadCoils)
        } else if b == 0x02 {
            Some(FunctionCode::ReadDscrIn)
        } else if b == 0x03 {
            Some(FunctionCode::ReadHldReg)
        } else if b == 0x04 {
            Some(FunctionCode::ReadInReg)
        } else if b == 0x05 {
            Some(FunctionCode::WriteSingleCoil)
        } else if b == 0x06 {
            Some(FunctionCode::WriteSingleReg)
        } else if b == 0x10 {
            Some(FunctionCode::WriteMultiReg)
        } else {
            None
        }
    }

    /// The code byte of this function.
    pub fn code(self) -> (r: u8)
        ensures
            r == self.spec_code(),
    {
        match self {
            FunctionCode::ReadCoils => 0x01,
            FunctionCode::ReadDscrIn => 0x02,
            FunctionCode::ReadHldReg => 0x03,
            FunctionCode::ReadInReg => 0x04,
            FunctionCode::WriteSingleCoil => 0x05,
            FunctionCode::WriteSingleReg => 0x06,
            FunctionCode::WriteMultiReg => 0x10,
        }
    }

    /// The code byte of this function's exception responses: the code with
    /// its high bit set.
    pub fn exc_code(self) -> (r: u8)
        ensures
            r == self.spec_code() + EXCEPTION_FLAG,
    {
        self.code() + EXCEPTION_FLAG
    }

    /// The function that a code byte stands for.
    pub fn from_code(b: u8) -> (r: Option<FunctionCode>)
        ensures
            r == Self::spec_from_code(b),
    {
        if b == 0x01 {
            Some(FunctionCode::ReadCoils)
        } else if b == 0x02 {
            Some(FunctionCode::ReadDscrIn)
        } else if b == 0x03 {
            Some(FunctionCode::ReadHldReg)
        } else if b == 0x04 {
            Some(FunctionCode::ReadInReg)
        } else if b == 0x05 {
            Some(FunctionCode::WriteSingleCoil)
        } else if b == 0x06 {
            Some(FunctionCode::WriteSingleReg)
        } else if b == 0x10 {
            Some(FunctionCode::WriteMultiReg)
        } else {
            None
        }
    }
}

/// Exception codes that a server may answer with.
#[derive(Clone, Copy, Debug, PartialEq, Eq, Structural)]
pub enum ExceptionCode {
    IllegalFunction,
    IllegalDataAddress,
    IllegalDataValue,
    ServerDeviceFailure,
    Acknowledge,
    ServerDeviceBusy,
    MemoryParityError,
    GatewayPathUnavailable,
    GatewayTargetDeviceFailedToRespond,
}

impl ExceptionCode {
    /// The byte that stands for this exception on the wire.
    pub open spec fn spec_code(self) -> u8 {
        match self {
            ExceptionCode::IllegalFunction => 0x01,
            ExceptionCode::IllegalDataAddress => 0x02,
            ExceptionCode::IllegalDataValue => 0x03,
            ExceptionCode::ServerDeviceFailure => 0x04,
            ExceptionCode::Acknowledge => 0x05,
            ExceptionCode::ServerDeviceBusy => 0x06,
            ExceptionCode::MemoryParityError => 0x08,
            ExceptionCode::GatewayPathUnavailable => 0x0A,
            ExceptionCode::GatewayTargetDeviceFailedToRespond => 0x0B,
        }
    }

    /// The exception a byte stands for, if any.
    pub open spec fn spec_from_code(b: u8) -> Option<ExceptionCode> {
        if b == 0x01 {
            Some(ExceptionCode::IllegalFunction)
        } else if b == 0x02 {
            Some(ExceptionCode::IllegalDataAddress)
        } else if b == 0x03 {
            Some(ExceptionCode::IllegalDataValue)
        } else if b == 0x04 {
            Some(ExceptionCode::ServerDeviceFailure)
        } else if b == 0x05 {
            Some(ExceptionCode::Acknowledge)
        } else if b == 0x06 {
            Some(ExceptionCode::ServerDeviceBusy)
        } else if b == 0x08 {
            Some(ExceptionCode::MemoryParityError)
        } else if b == 0x0A {
            Some(ExceptionCode::GatewayPathUnavailable)
        } else if b == 0x0B {
            Some(ExceptionCode::GatewayTargetDeviceFailedToRespond)
        } else {
            None
        }
    }

    /// The code byte of this exception.
    pub fn code(self) -> (r: u8)
        ensures
            r == self.spec_code(),
    {
        match self {
            ExceptionCode::IllegalFunction => 0x01,
            ExceptionCode::IllegalDataAddress => 0x02,
            ExceptionCode::IllegalDataValue => 0x03,
            ExceptionCode::ServerDeviceFailure => 0x04,
            ExceptionCode::Acknowledge => 0x05,
            ExceptionCode::ServerDeviceBusy => 0x06,
            ExceptionCode::MemoryParityError => 0x08,
            ExceptionCode::GatewayPathUnavailable => 0x0A,
            ExceptionCode::GatewayTargetDeviceFailedToRespond => 0x0B,
        }
    }

    /// The exception that a byte stands for; `InvalidData` for a byte that
    /// is no exception code.
    pub fn try_from_code(v: u8) -> (r: Result<ExceptionCode, Error>)
        ensures
            r == match Self::spec_from_code(v) {
                Some(c) => Ok::<ExceptionCode, Error>(c),
                None => Err(Error::InvalidData),
            },
    {
        if v == 0x01 {
            Ok(ExceptionCode::IllegalFunction)
        } else if v == 0x02 {
            Ok(ExceptionCode::IllegalDataAddress)
        } else if v == 0x03 {
            Ok(ExceptionCode::IllegalDataValue)
        } else if v == 0x04 {
            Ok(ExceptionCode::ServerDeviceFailure)
        } else if v == 0x05 {
            Ok(ExceptionCode::Acknowledge)
        } else if v == 0x06 {
            Ok(ExceptionCode::ServerDeviceBusy)
        } else if v == 0x08 {
            Ok(ExceptionCode::MemoryParityError)
        } else if v == 0x0A {
            Ok(ExceptionCode::GatewayPathUnavailable)
        } else if v == 0x0B {
            Ok(ExceptionCode::GatewayTargetDeviceFailedToRespond)
        } else {
            Err(Error::InvalidData)
        }
    }
}

/// The text that describes an exception.
pub open spec fn exception_text(c: ExceptionCode) -> Seq<char> {
    match c {
        ExceptionCode::IllegalFunction => "[exc] Illegal function"@,
        ExceptionCode::IllegalDataAddress => "[exc] Illegal data address"@,
        ExceptionCode::IllegalDataValue => "[exc] Illegal data value"@,
        ExceptionCode::ServerDeviceFailure => "[exc] Server device failure"@,
        ExceptionCode::Acknowledge => "[exc] Acknowledge"@,
        ExceptionCode::ServerDeviceBusy => "[exc] Server device busy"@,
        ExceptionCode::MemoryParityError => "[exc] Memory parity error"@,
        ExceptionCode::GatewayPathUnavailable => "[exc] Gateway path unavailable"@,
        ExceptionCode::GatewayTargetDeviceFailedToRespond => "[exc] Gateway target device failed to respond"@,
    }
}

impl ExceptionCode {
    /// A text that describes this exception.
    pub fn description(self) -> (r: &'static str)
        ensures
            r@ == exception_text(self),
    {
        match self {
            ExceptionCode::IllegalFunction => "[exc] Illegal function",
            ExceptionCode::IllegalDataAddress => "[exc] Illegal data address",
            ExceptionCode::IllegalDataValue => "[exc] Illegal data value",
            ExceptionCode::ServerDeviceFailure => "[exc] Server device failure",
            ExceptionCode::Acknowledge => "[exc] Acknowledge",
            ExceptionCode::ServerDeviceBusy => "[exc] Server device busy",
            ExceptionCode::MemoryParityError => "[exc] Memory parity error",
            ExceptionCode::GatewayPathUnavailable => "[exc] Gateway path unavailable",
            ExceptionCode::GatewayTargetDeviceFailedToRespond => "[exc] Gateway target device failed to respond",
        }
    }
}

/// What decoding `data` as an exception response does: it must be two
/// bytes long, start with `exp_fnc_code` where one is given, and end with a
/// known exception code.
pub open spec fn exc_rsp_spec(data: Seq<u8>, exp_fnc_code: Option<u8>) -> Result<ExceptionCode, Error> {
    if data.len() != 2 {
        Err(Error::InvalidDataLength)
    } else if exp_fnc_code.is_some() && data[0] != exp_fnc_code.unwrap() {
        Err(Error::InvalidData)
    } else {
        match ExceptionCode::spec_from_code(data[1]) {
            Some(c) => Ok(c),
            None => Err(Error::InvalidData),
        }
    }
}

/// Decodes an exception response.
pub fn decode_exc_rsp(data: &[u8], exp_fnc_code: Option<u8>) -> (r: Result<ExceptionCode, Error>)
    ensures
        r == exc_rsp_spec(data@, exp_fnc_code),
{
    if data.len() != 2 {
        return Err(Error::InvalidDataLength);
    }
    if let Some(c) = exp_fnc_code {
        if data[0] != c {
            return Err(Error::InvalidData);
        }
    }
    ExceptionCode::try_from_code(data[1])
}

/// A Modbus function: a value that encodes to a PDU and decodes from one.
///
/// `encode_spec` and `decode_spec` say, over the value's model, exactly
/// what `encode` and `decode` return.
pub trait Function: Sized + View {
    /// The PDU that a value encodes to, or the error on a value that may
    /// not be sent.
    spec fn encode_spec(m: Self::V) -> Result<Seq<u8>, Error>;

    /// The value a PDU decodes to, or the error on a malformed PDU.
    spec fn decode_spec(data: Seq<u8>) -> Result<Self::V, Error>;

    fn encode(&self) -> (r: Result<Vec<u8>, Error>)
        ensures
            bytes_of(r) == Self::encode_spec(self@),
    ;

    fn decode(data: &[u8]) -> (r: Result<Self, Error>)
        ensures
            model_of(r) == Self::decode_spec(data@),
    ;
}

/// A request, tied to the type of the response it expects.
pub trait Request: Function {
    type Rsp: Response;
}

/// What decoding `data` as a response of `R` gives: an exception response of
/// its function first, else the ordinary decoding.
pub open spec fn response_spec<R: Response>(data: Seq<u8>) -> Result<R::V, Error> {
    match exc_rsp_spec(data, Some(R::exc_function_code_spec())) {
        Ok(c) => Err(Error::ExceptionResponse(c)),
        Err(_) => R::decode_spec(data),
    }
}

/// A response, which may arrive as an exception response instead.
pub trait Response: Function {
    /// The function code that this response's exception responses carry.
    spec fn exc_function_code_spec() -> u8;

    fn get_exc_function_code() -> (r: u8)
        ensures
            r == Self::exc_function_code_spec(),
    ;

    /// Decodes a response PDU; an exception response of this function is
    /// reported as `ExceptionResponse`.
    fn decode_response(data: &[u8]) -> (r: Result<Self, Error>)
        ensures
            model_of(r) == match exc_rsp_spec(data@, Some(Self::exc_function_code_spec())) {
                Ok(c) => Err(Error::ExceptionResponse(c)),
                Err(_) => Self::decode_spec(data@),
            },
    {
        let exc = decode_exc_rsp(data, Some(Self::get_exc_function_code()));
        if let Ok(exc_code) = exc {
            return Err(Error::ExceptionResponse(exc_code));
        }
        Self::decode(data)
    }
}

/// A request whose response echoes it, or its header, so that the response
/// that a peer sends can be checked against the one expected.
pub trait Setter: Request {
    /// The model of the response that a request of model `m` expects.
    spec fn expected_response_spec(m: Self::V) -> <Self::Rsp as View>::V;

    /// Whether `rsp` is the response this request expects.
    fn is_expected_response(&self, rsp: &Self::Rsp) -> (r: bool)
        ensures
            r == (rsp@ == Self::expected_response_spec(self@)),
    ;
}

/// An exception response of function `R`, carrying a known exception code,
/// decodes as that exception.
pub proof fn lemma_exception_response<R: Response>(c: ExceptionCode)
    ensures
        response_spec::<R>(seq![R::exc_function_code_spec(), c.spec_code()])
            == Err::<R::V, Error>(Error::ExceptionResponse(c)),
{
    let data = seq![R::exc_function_code_spec(), c.spec_code()];
    assert(data[0] == R::exc_function_code_spec() && data[1] == c.spec_code());
    assert(ExceptionCode::spec_from_code(c.spec_code()) == Some(c));
}

/// Enumeration of Modbus request functions.
///
/// This enumeration is used to report a received request in the Modbus
/// slave mode.
#[derive(Debug)]
pub enum RequestData {
    ReadCoils(bit_access::read_coils::Request),
    ReadDscrIn(bit_access::read_dscr_in::Request),
    ReadHldReg(hex_access::read_hld_reg::Request),
    ReadInReg(hex_access::read_in_reg::Request),
    WriteSingleCoil(bit_access::write_single_coil::Message),
    WriteSingleReg(hex_access::write_single_reg::Message),
    WriteMultiReg(hex_access::write_multi_reg::Request),
}

/// The error that the decoder of function `f` reports on `data`, if any.
pub open spec fn decode_error(f: FunctionCode, data: Seq<u8>) -> Option<Error> {
    match f {
        FunctionCode::ReadCoils => err_of(bit_access::read_coils::Request::decode_spec(data)),
        FunctionCode::ReadDscrIn => err_of(bit_access::read_dscr_in::Request::decode_spec(data)),
        FunctionCode::ReadHldReg => err_of(hex_access::read_hld_reg::Request::decode_spec(data)),
        FunctionCode::ReadInReg => err_of(hex_access::read_in_reg::Request::decode_spec(data)),
        FunctionCode::WriteSingleCoil => err_of(bit_access::write_single_coil::Message::decode_spec(data)),
        FunctionCode::WriteSingleReg => err_of(hex_access::write_single_reg::Message::decode_spec(data)),
        FunctionCode::WriteMultiReg => err_of(hex_access::write_multi_reg::Request::decode_spec(data)),
    }
}

/// The error of a result, if it is one.
pub open spec fn err_of<T>(r: Result<T, Error>) -> Option<Error> {
    match r {
        Ok(_) => None,
        Err(e) => Some(e),
    }
}

/// What dispatching `data` gives: `InvalidDataLength` below two bytes,
/// `InvalidData` for an unsupported function code, else the decoder of that
/// function's request, its result wrapped in the matching variant.
pub open spec fn decode_req_holds(data: Seq<u8>, r: Result<RequestData, Error>) -> bool {
    if data.len() < 2 {
        r == Err::<RequestData, Error>(Error::InvalidDataLength)
    } else {
        match FunctionCode::spec_from_code(data[0]) {
            None => r == Err::<RequestData, Error>(Error::InvalidData),
            Some(f) => match r {
                Err(e) => decode_error(f, data) == Some(e),
                Ok(RequestData::ReadCoils(q)) => f == FunctionCode::ReadCoils
                    && bit_access::read_coils::Request::decode_spec(data) == Ok::<_, Error>(q@),
                Ok(RequestData::ReadDscrIn(q)) => f == FunctionCode::ReadDscrIn
                    && bit_access::read_dscr_in::Request::decode_spec(data) == Ok::<_, Error>(q@),
                Ok(RequestData::ReadHldReg(q)) => f == FunctionCode::ReadHldReg
                    && hex_access::read_hld_reg::Request::decode_spec(data) == Ok::<_, Error>(q@),
                Ok(RequestData::ReadInReg(q)) => f == FunctionCode::ReadInReg
                    && hex_access::read_in_reg::Request::decode_spec(data) == Ok::<_, Error>(q@),
                Ok(RequestData::WriteSingleCoil(q)) => f == FunctionCode::WriteSingleCoil
                    && bit_access::write_single_coil::Message::decode_spec(data) == Ok::<_, Error>(q@),
                Ok(RequestData::WriteSingleReg(q)) => f == FunctionCode::WriteSingleReg
                    && hex_access::write_single_reg::Message::decode_spec(data) == Ok::<_, Error>(q@),
                Ok(RequestData::WriteMultiReg(q)) => f == FunctionCode::WriteMultiReg
                    && hex_access::write_multi_reg::Request::decode_spec(data) == Ok::<_, Error>(q@),
            },
        }
    }
}

/// Decodes a request PDU of any supported function.
pub fn decode_req(pdu: &[u8]) -> (r: Result<RequestData, Error>)
    ensures
        decode_req_holds(pdu@, r),
{
    if pdu.len() < 2 {
        return Err(Error::InvalidDataLength);
    }
    match FunctionCode::from_code(pdu[0]) {
        Some(FunctionCode::ReadCoils) => match bit_access::read_coils::Request::decode(pdu) {
            Ok(q) => Ok(RequestData::ReadCoils(q)),
            Err(e) => Err(e),
        },
        Some(FunctionCode::ReadDscrIn) => match bit_access::read_dscr_in::Request::decode(pdu) {
            Ok(q) => Ok(RequestData::ReadDscrIn(q)),
            Err(e) => Err(e),
        },
        Some(FunctionCode::ReadHldReg) => match hex_access::read_hld_reg::Request::decode(pdu) {
            Ok(q) => Ok(RequestData::ReadHldReg(q)),
            Err(e) => Err(e),
        },
        Some(FunctionCode::ReadInReg) => match hex_access::read_in_reg::Request::decode(pdu) {
            Ok(q) => Ok(RequestData::ReadInReg(q)),
            Err(e) => Err(e),
        },
        Some(FunctionCode::WriteSingleCoil) => match bit_access::write_single_coil::Message::decode(pdu) {
            Ok(q) => Ok(RequestData::WriteSingleCoil(q)),
            Err(e) => Err(e),
        },
        Some(FunctionCode::WriteSingleReg) => match hex_access::write_single_reg::Message::decode(pdu) {
            Ok(q) => Ok(RequestData::WriteSingleReg(q)),
            Err(e) => Err(e),
        },
        Some(FunctionCode::WriteMultiReg) => match hex_access::write_multi_reg::Request::decode(pdu) {
            Ok(q) => Ok(RequestData::WriteMultiReg(q)),
            Err(e) => Err(e),
        },
        None => Err(Error::InvalidData),
    }
}

} // verus!
