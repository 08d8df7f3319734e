use crate::pdu::exception_text;
use vstd::prelude::*;

verus! {

/// The error types used by the modbus library.
///
/// Failures of the underlying byte stream or serial port are carried by
/// their description, so that the whole type stays a plain value.
#[derive(Debug)]
pub enum Error {
    InvalidValue,
    TooShortData,
    InvalidData,
    InvalidDataLength,
    InvalidFunction,
    InvalidResponse,
    NoResponse,
    ExceptionResponse(crate::pdu::ExceptionCode),
    InvalidRequest,
    MissingReqHandler,
    IoError(String),
    SerialError(String),
}

/// The text that describes an error.
pub open spec fn error_text(e: Error) -> Seq<char> {
    match e {
        Error::InvalidValue => "Invalid value"@,
        Error::TooShortData => "Too short data in the buffer"@,
        Error::InvalidData => "Invalid data"@,
        Error::InvalidDataLength => "Invalid data length"@,
        Error::InvalidFunction => "Invalid function code"@,
        Error::InvalidResponse => "Invalid response"@,
        Error::NoResponse => "No response"@,
        Error::InvalidRequest => "Invalid request"@,
        Error::MissingReqHandler => "Missing request handler for given request"@,
        Error::ExceptionResponse(code) => "Exception response: "@ + exception_text(code),
        Error::IoError(detail) => "IO error: "@ + detail@,
        Error::SerialError(detail) => "Serial error: "@ + detail@,
    }
}

/// Relies on std's `format!`: the text of `head` followed by that of `tail`.
#[verifier::external_body]
fn concat(head: &str, tail: &str) -> (r: String)
    ensures
        r@ == head@ + tail@,
{
    format!("{}{}", head, tail)
}

impl Error {
    /// A text that describes this error.
    pub fn description(&self) -> (r: String)
        ensures
            r@ == error_text(*self),
    {
        match self {
            Error::InvalidValue => "Invalid value".to_owned(),
            Error::TooShortData => "Too short data in the buffer".to_owned(),
            Error::InvalidData => "Invalid data".to_owned(),
            Error::InvalidDataLength => "Invalid data length".to_owned(),
            Error::InvalidFunction => "Invalid function code".to_owned(),
            Error::InvalidResponse => "Invalid response".to_owned(),
            Error::NoResponse => "No response".to_owned(),
            Error::InvalidRequest => "Invalid request".to_owned(),
            Error::MissingReqHandler => "Missing request handler for given request".to_owned(),
            Error::ExceptionResponse(code) => concat("Exception response: ", code.description()),
            Error::IoError(detail) => concat("IO error: ", detail.as_str()),
            Error::SerialError(detail) => concat("Serial error: ", detail.as_str()),
        }
    }
}

} // verus!
