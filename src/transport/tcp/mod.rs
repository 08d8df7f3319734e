//! Modbus-TCP: MBAP framing and the decisions of a stream session.
pub mod frame;
pub mod session;
