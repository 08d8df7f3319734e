//! Link layers and the decisions of the transport façade.
//!
//! Sockets, serial ports and clocks stay with the caller; what is decided
//! here is which role a transport plays, whether a destination is
//! broadcast, what the bytes received so far mean, and whether a setter's
//! response is the echo it should be.
pub mod rtu;
pub mod tcp;

use crate::error::Error;
use crate::pdu::{response_spec, Response, Setter};
use vstd::prelude::*;

verus! {

/// The unit id that addresses every unit on the line.
pub const BROADCAST_UNIT_ID: u8 = 0;

/// The lowest unit id a slave may take.
pub const MIN_SLAVE_ID: u8 = 1;

/// The highest unit id a slave may take.
pub const MAX_SLAVE_ID: u8 = 247;

/// Whether a request to `unit_id` is broadcast, so that no response is
/// awaited.
pub fn is_broadcast(unit_id: u8) -> (r: bool)
    ensures
        r == (unit_id == BROADCAST_UNIT_ID),
{
    unit_id == BROADCAST_UNIT_ID
}

/// The role a transport plays.
#[derive(Clone, Copy, Debug, PartialEq, Eq, Structural)]
pub enum Role {
    Master,
    Slave(u8),
}

impl Role {
    /// Every slave role carries an addressable unit id.
    pub open spec fn wf(self) -> bool {
        match self {
            Role::Master => true,
            Role::Slave(id) => MIN_SLAVE_ID <= id <= MAX_SLAVE_ID,
        }
    }

    /// The slave role for `unit_id`; `InvalidValue` unless it lies in
    /// `1..=247`.
    pub fn slave(unit_id: u8) -> (r: Result<Role, Error>)
        ensures
            MIN_SLAVE_ID <= unit_id <= MAX_SLAVE_ID ==> r == Ok::<Role, Error>(Role::Slave(unit_id)),
            !(MIN_SLAVE_ID <= unit_id <= MAX_SLAVE_ID) ==> r == Err::<Role, Error>(Error::InvalidValue),
            r matches Ok(role) ==> role.wf(),
    {
        if MIN_SLAVE_ID <= unit_id && unit_id <= MAX_SLAVE_ID {
            Ok(Role::Slave(unit_id))
        } else {
            Err(Error::InvalidValue)
        }
    }

    /// The unit id of a slave; `InvalidValue` in master mode, where slave
    /// operations are not valid.
    pub fn slave_unit_id(self) -> (r: Result<u8, Error>)
        ensures
            r == match self {
                Role::Master => Err::<u8, Error>(Error::InvalidValue),
                Role::Slave(id) => Ok(id),
            },
    {
        match self {
            Role::Master => Err(Error::InvalidValue),
            Role::Slave(id) => Ok(id),
        }
    }
}

/// What the bytes received so far call for.
#[derive(Debug)]
pub enum ReadStep {
    /// Nothing to hand up yet: on a stream, read more bytes; on a serial
    /// line, drop what was received and keep listening.
    Continue,
    /// A complete frame for the expected unit arrived; this is its PDU.
    Pdu(Vec<u8>),
    /// The read ends with this error.
    Failed(Error),
}

/// Checks the response PDU of a setter request: it must decode as the
/// request's response (an exception response is reported as such) and be
/// the echo that the request expects, else `InvalidData`.
pub fn check_setter_response<Req: Setter>(req: &Req, rsp_pdu: &[u8]) -> (r: Result<(), Error>)
    ensures
        r == match response_spec::<Req::Rsp>(rsp_pdu@) {
            Ok(m) => if m == Req::expected_response_spec(req@) {
                Ok::<(), Error>(())
            } else {
                Err(Error::InvalidData)
            },
            Err(e) => Err(e),
        },
{
    match Req::Rsp::decode_response(rsp_pdu) {
        Ok(rsp) => {
            if req.is_expected_response(&rsp) {
                Ok(())
            } else {
                Err(Error::InvalidData)
            }
        },
        Err(e) => Err(e),
    }
}

} // verus!
