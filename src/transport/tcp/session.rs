//! Decisions of a Modbus-TCP session: what the bytes read so far from a
//! stream mean.
use super::frame::{decode_spec, Frame};
use crate::error::Error;
use crate::transport::ReadStep;
use vstd::prelude::*;

verus! {

/// The default TCP port.
pub const TCP_PORT: u16 = 5020;

/// What the bytes read so far call for, when waiting for a frame from or to
/// `expected_unit_id`: more bytes while the frame is incomplete, its PDU
/// once it is complete and for that unit, `InvalidData` for another unit,
/// and the framing error otherwise.
pub fn on_bytes(buffer: &[u8], expected_unit_id: u8) -> (r: ReadStep)
    ensures
        match decode_spec(buffer@) {
            Err(Error::TooShortData) => r is Continue,
            Err(e) => r matches ReadStep::Failed(f) && f == e,
            Ok((_, unit_id, pdu)) => if unit_id == expected_unit_id {
                r matches ReadStep::Pdu(p) && p@ == pdu
            } else {
                r matches ReadStep::Failed(e) && e == Error::InvalidData
            },
        },
{
    match Frame::decode(buffer) {
        Err(Error::TooShortData) => ReadStep::Continue,
        Err(e) => ReadStep::Failed(e),
        Ok(frame) => {
            if frame.get_unit_id() == expected_unit_id {
                ReadStep::Pdu(frame.get_pdu())
            } else {
                ReadStep::Failed(Error::InvalidData)
            }
        },
    }
}

} // verus!
