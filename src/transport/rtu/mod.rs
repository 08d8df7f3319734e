//! Modbus RTU: framing and the decisions of a serial-line session.
pub mod frame;
pub mod session;
