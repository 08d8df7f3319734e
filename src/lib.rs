//! Modbus protocol library: a PDU codec for a core set of function codes,
//! RTU and TCP (MBAP) framing, and the decisions of the transport layer.

pub mod error;
pub mod pdu;
pub mod transport;
pub mod wire;

pub use error::Error;
pub use pdu::{decode_req, ExceptionCode, Function, FunctionCode, Request, RequestData, Response, Setter};

pub use pdu::bit_access::read_coils::Request as ReadCoilsRequest;
pub use pdu::bit_access::read_dscr_in::Request as ReadDscrInRequest;
pub use pdu::bit_access::write_single_coil::Message as WriteSingleCoilRequest;
pub use pdu::hex_access::read_hld_reg::Request as ReadHldRegRequest;
pub use pdu::hex_access::read_in_reg::Request as ReadInRegRequest;
pub use pdu::hex_access::write_multi_reg::Request as WriteMultiRegRequest;
pub use pdu::hex_access::write_single_reg::Message as WriteSingleRegRequest;

pub use pdu::bit_access::read_coils::Response as ReadCoilsResponse;
pub use pdu::bit_access::read_dscr_in::Response as ReadDscrInResponse;
pub use pdu::bit_access::write_single_coil::Message as WriteSingleCoilResponse;
pub use pdu::hex_access::read_hld_reg::Response as ReadHldRegResponse;
pub use pdu::hex_access::read_in_reg::Response as ReadInRegResponse;
pub use pdu::hex_access::write_multi_reg::Response as WriteMultiRegResponse;
pub use pdu::hex_access::write_single_reg::Message as WriteSingleRegResponse;

pub use transport::rtu::frame::Frame as RtuFrame;
pub use transport::tcp::frame::{Frame as TcpFrame, TransactionIds};
pub use transport::{check_setter_response, is_broadcast, ReadStep, Role};
