//! Decisions of an RTU session on a serial line: how long to stay silent
//! before sending, and what a received frame means once the line falls
//! silent.
use super::frame::{decode_spec, Frame};
use crate::error::Error;
use crate::transport::ReadStep;
use vstd::prelude::*;

verus! {

/// The default least silence before a transmission, in microseconds.
pub const DEFAULT_MIN_GAP_US: u64 = 100_000;

/// How much longer to stay silent before transmitting, when `elapsed_us`
/// have passed since the last transmission or reception and the line
/// needs `min_gap_us` of silence.
pub fn gap_remaining(min_gap_us: u64, elapsed_us: u64) -> (r: u64)
    ensures
        r == if elapsed_us < min_gap_us { min_gap_us - elapsed_us } else { 0 },
{
    if elapsed_us < min_gap_us {
        min_gap_us - elapsed_us
    } else {
        0
    }
}

/// What the bytes gathered until the line fell silent call for, when
/// waiting for a frame from or to `expected_unit_id`.
///
/// A slave that is `listening` keeps waiting when nothing arrived and drops
/// frames for other units; a master waiting for a response gets
/// `NoResponse` when nothing arrived and `InvalidData` for a frame from
/// another unit. A frame that does not decode fails the read.
pub fn on_silence(frame: &[u8], expected_unit_id: u8, listening: bool) -> (r: ReadStep)
    ensures
        frame@.len() == 0 && listening ==> r is Continue,
        frame@.len() == 0 && !listening ==> (r matches ReadStep::Failed(e) && e == Error::NoResponse),
        frame@.len() > 0 ==> match decode_spec(frame@) {
            Err(e) => r matches ReadStep::Failed(f) && f == e,
            Ok((address, pdu)) => if address == expected_unit_id {
                r matches ReadStep::Pdu(p) && p@ == pdu
            } else if listening {
                r is Continue
            } else {
                r matches ReadStep::Failed(e) && e == Error::InvalidData
            },
        },
{
    if frame.len() == 0 {
        if listening {
            return ReadStep::Continue;
        } else {
            return ReadStep::Failed(Error::NoResponse);
        }
    }
    match Frame::decode(frame) {
        Err(e) => ReadStep::Failed(e),
        Ok(decoded) => {
            if decoded.is_address(expected_unit_id) {
                ReadStep::Pdu(decoded.get_pdu())
            } else if listening {
                ReadStep::Continue
            } else {
                ReadStep::Failed(Error::InvalidData)
            }
        },
    }
}

} // verus!
