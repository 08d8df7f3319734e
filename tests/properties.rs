use modbus::transport::rtu::session::{gap_remaining, on_silence};
use modbus::transport::tcp::session::on_bytes;
use modbus::{
    check_setter_response, decode_req, is_broadcast, Error, ExceptionCode, Function, ReadCoilsRequest,
    ReadCoilsResponse, ReadDscrInRequest, ReadDscrInResponse, ReadHldRegRequest, ReadHldRegResponse,
    ReadInRegRequest, ReadInRegResponse, ReadStep, RequestData, Response, Role, RtuFrame, TcpFrame,
    TransactionIds, WriteMultiRegRequest, WriteMultiRegResponse, WriteSingleCoilRequest, WriteSingleRegRequest,
};

fn is_invalid_value<T: std::fmt::Debug>(r: Result<T, Error>) -> bool {
    matches!(r, Err(Error::InvalidValue))
}

#[test]
fn rtu_round_trip_reproduces_unit_and_pdu() {
    let long: Vec<u8> = (0..253).map(|i| i as u8).collect();
    for (unit, pdu) in [(0u8, vec![0x07u8]), (17, vec![0x03, 0x00, 0x6B, 0x00, 0x03]), (247, long)] {
        let bytes = RtuFrame::new(unit, &pdu).encode().unwrap();
        assert_eq!(bytes.len(), pdu.len() + 3);
        let frame = RtuFrame::decode(&bytes).unwrap();
        assert_eq!(frame.get_address(), unit);
        assert_eq!(frame.get_pdu(), pdu);
    }
}

#[test]
fn rtu_encode_rejects_pdu_sizes_outside_range() {
    assert!(is_invalid_value(RtuFrame::new(1, &[]).encode()));
    assert!(is_invalid_value(RtuFrame::new(1, &[0u8; 254]).encode()));
}

#[test]
fn rtu_crc_scenario() {
    let bytes = RtuFrame::new(2, &[0x07]).encode().unwrap();
    assert_eq!(bytes, vec![0x02, 0x07, 0x41, 0x12]);
    let mut corrupted = bytes.clone();
    corrupted[3] = 0x00;
    assert!(matches!(RtuFrame::decode(&corrupted), Err(Error::InvalidData)));
    assert!(matches!(RtuFrame::decode(&bytes[..3]), Err(Error::InvalidDataLength)));
}

#[test]
fn rtu_crc_covers_address_and_pdu() {
    let a = RtuFrame::new(1, &[0x03, 0x00, 0x00, 0x00, 0x0A]).encode().unwrap();
    assert_eq!(a, vec![0x01, 0x03, 0x00, 0x00, 0x00, 0x0A, 0xC5, 0xCD]);
}

#[test]
fn tcp_round_trip_reproduces_header_and_pdu() {
    let mut ids = TransactionIds::starting_at(0xFFFF);
    let pdu = vec![0x06, 0x00, 0x01, 0x00, 0x03];
    let first = TcpFrame::new(&mut ids, 9, &pdu);
    let second = TcpFrame::new(&mut ids, 9, &pdu);
    assert_eq!(first.get_transaction_id(), 0xFFFF);
    assert_eq!(second.get_transaction_id(), 0x0000);
    let decoded = TcpFrame::decode(&first.encode().unwrap()).unwrap();
    assert_eq!(decoded.get_transaction_id(), 0xFFFF);
    assert_eq!(decoded.get_unit_id(), 9);
    assert_eq!(decoded.get_pdu(), pdu);
}

#[test]
fn tcp_mbap_scenario() {
    let mut ids = TransactionIds::starting_at(0x1501);
    let bytes = TcpFrame::new(&mut ids, 0xFF, &[0x03, 0x00, 0x04, 0x00, 0x01]).encode().unwrap();
    assert_eq!(bytes, vec![0x15, 0x01, 0x00, 0x00, 0x00, 0x06, 0xFF, 0x03, 0x00, 0x04, 0x00, 0x01]);
}

#[test]
fn tcp_decode_is_incremental() {
    let full = vec![0x15, 0x01, 0x00, 0x00, 0x00, 0x06, 0xFF, 0x03, 0x00, 0x04, 0x00, 0x01];
    for n in 0..full.len() {
        assert!(matches!(TcpFrame::decode(&full[..n]), Err(Error::TooShortData)));
    }
    let mut longer = full.clone();
    longer.push(0);
    assert!(matches!(TcpFrame::decode(&longer), Err(Error::InvalidDataLength)));
    let mut other_protocol = full.clone();
    other_protocol[3] = 1;
    assert!(matches!(TcpFrame::decode(&other_protocol), Err(Error::InvalidData)));
    let mut ids = TransactionIds::new();
    assert!(is_invalid_value(TcpFrame::new(&mut ids, 1, &[]).encode()));
}

#[test]
fn bit_read_requests_reject_quantities() {
    for q in [0u16, 2001, 0xFFFF] {
        assert!(is_invalid_value(ReadCoilsRequest::new(0, q).encode()));
        assert!(is_invalid_value(ReadDscrInRequest::new(0, q).encode()));
    }
    assert_eq!(ReadCoilsRequest::new(0, 1).encode().unwrap(), vec![0x01, 0x00, 0x00, 0x00, 0x01]);
    assert_eq!(ReadDscrInRequest::new(0, 2000).encode().unwrap(), vec![0x02, 0x00, 0x00, 0x07, 0xD0]);
}

#[test]
fn register_read_requests_reject_quantities() {
    for q in [0u16, 126] {
        assert!(is_invalid_value(ReadHldRegRequest::new(0, q).encode()));
        assert!(is_invalid_value(ReadInRegRequest::new(0, q).encode()));
    }
    assert_eq!(ReadHldRegRequest::new(0x006B, 125).encode().unwrap(), vec![0x03, 0x00, 0x6B, 0x00, 0x7D]);
}

#[test]
fn write_multiple_registers_quantity_rules() {
    assert!(is_invalid_value(WriteMultiRegRequest::new(1, &[]).encode()));
    assert!(is_invalid_value(WriteMultiRegRequest::new(1, &[0u16; 124]).encode()));
    assert_eq!(WriteMultiRegRequest::new(1, &[0u16; 123]).encode().unwrap().len(), 6 + 246);
    let wrong_count = [0x10, 0x00, 0x01, 0x00, 0x02, 0x03, 0x00, 0x0A, 0x01, 0x02];
    assert!(matches!(WriteMultiRegRequest::decode(&wrong_count), Err(Error::InvalidDataLength)));
    let zero_quantity = [0x10, 0x00, 0x01, 0x00, 0x00, 0x00];
    assert!(matches!(WriteMultiRegRequest::decode(&zero_quantity), Err(Error::InvalidData)));
    let missing_value = [0x10, 0x00, 0x01, 0x00, 0x02, 0x04, 0x00, 0x0A];
    assert!(matches!(WriteMultiRegRequest::decode(&missing_value), Err(Error::InvalidDataLength)));
    assert!(is_invalid_value(WriteMultiRegResponse::new(1, 0).encode()));
    assert!(matches!(WriteMultiRegResponse::decode(&[0x10, 0x00, 0x01, 0x00, 0x7C]), Err(Error::InvalidData)));
}

#[test]
fn write_multiple_registers_scenario() {
    let req = WriteMultiRegRequest::new(0xDEAD, &[0xFADE, 0xFACE, 0x0000, 0x0001]);
    let pdu = req.encode().unwrap();
    assert_eq!(pdu, vec![0x10, 0xDE, 0xAD, 0x00, 0x04, 0x08, 0xFA, 0xDE, 0xFA, 0xCE, 0x00, 0x00, 0x00, 0x01]);
    assert_eq!(WriteMultiRegRequest::decode(&pdu).unwrap(), req);
    let mut wrong = pdu.clone();
    wrong[0] = 0x11;
    assert!(matches!(WriteMultiRegRequest::decode(&wrong), Err(Error::InvalidData)));
}

#[test]
fn exception_responses_are_reported() {
    let codes = [
        (0x01u8, ExceptionCode::IllegalFunction),
        (0x02, ExceptionCode::IllegalDataAddress),
        (0x03, ExceptionCode::IllegalDataValue),
        (0x04, ExceptionCode::ServerDeviceFailure),
        (0x05, ExceptionCode::Acknowledge),
        (0x06, ExceptionCode::ServerDeviceBusy),
        (0x08, ExceptionCode::MemoryParityError),
        (0x0A, ExceptionCode::GatewayPathUnavailable),
        (0x0B, ExceptionCode::GatewayTargetDeviceFailedToRespond),
    ];
    for (byte, code) in codes {
        assert!(matches!(ReadCoilsResponse::decode_response(&[0x81, byte]), Err(Error::ExceptionResponse(c)) if c == code));
        assert!(matches!(ReadDscrInResponse::decode_response(&[0x82, byte]), Err(Error::ExceptionResponse(c)) if c == code));
        assert!(matches!(ReadHldRegResponse::decode_response(&[0x83, byte]), Err(Error::ExceptionResponse(c)) if c == code));
        assert!(matches!(ReadInRegResponse::decode_response(&[0x84, byte]), Err(Error::ExceptionResponse(c)) if c == code));
        assert!(matches!(WriteSingleCoilRequest::decode_response(&[0x85, byte]), Err(Error::ExceptionResponse(c)) if c == code));
        assert!(matches!(WriteSingleRegRequest::decode_response(&[0x86, byte]), Err(Error::ExceptionResponse(c)) if c == code));
        assert!(matches!(WriteMultiRegResponse::decode_response(&[0x90, byte]), Err(Error::ExceptionResponse(c)) if c == code));
        assert_eq!(code.code(), byte);
    }
    assert!(matches!(ReadCoilsResponse::decode_response(&[0x81, 0x07]), Err(Error::InvalidDataLength)));
    assert!(matches!(ReadCoilsResponse::decode_response(&[0x82, 0x01]), Err(Error::InvalidDataLength)));
    assert!(matches!(ExceptionCode::try_from_code(0x09), Err(Error::InvalidData)));
}

#[test]
fn write_single_coil_rejects_other_values() {
    for value in [0x0001u16, 0x00FF, 0xFFFF, 0xFF01, 0x8000] {
        let pdu = [0x05, 0x01, 0x23, (value >> 8) as u8, value as u8];
        assert!(matches!(WriteSingleCoilRequest::decode(&pdu), Err(Error::InvalidData)));
    }
    assert!(matches!(WriteSingleCoilRequest::decode(&[0x05, 0x01, 0x23, 0x00]), Err(Error::InvalidDataLength)));
    assert_eq!(WriteSingleCoilRequest::new(0xDEAD, false).encode().unwrap(), vec![0x05, 0xDE, 0xAD, 0x00, 0x00]);
}

#[test]
fn coils_request_round_trip_scenario() {
    let req = ReadCoilsRequest::new(0x1234, 0x00CD);
    let pdu = req.encode().unwrap();
    assert_eq!(pdu, vec![0x01, 0x12, 0x34, 0x00, 0xCD]);
    assert_eq!(ReadCoilsRequest::decode(&pdu).unwrap(), req);
}

#[test]
fn coils_response_scenario_pads_to_whole_bytes() {
    let coils = [
        true, false, true, true, false, false, true, true, true, true, false, true, false, true, true, false, true,
        false, true,
    ];
    let pdu = ReadCoilsResponse::new(&coils).encode().unwrap();
    assert_eq!(pdu, vec![0x01, 0x03, 0xCD, 0x6B, 0x05]);
    let decoded = ReadCoilsResponse::decode(&pdu).unwrap();
    assert_eq!(decoded.get_coils().len(), 24);
    assert_eq!(&decoded.get_coils()[..19], &coils[..]);
    assert!(decoded.get_coils()[19..].iter().all(|b| !b));
}

#[test]
fn bit_response_size_limits() {
    assert_eq!(ReadDscrInResponse::new(&[true; 2008]).encode().unwrap().len(), 253);
    assert!(is_invalid_value(ReadDscrInResponse::new(&[true; 2009]).encode()));
    assert!(matches!(ReadCoilsResponse::decode(&[0x01, 0x02, 0xFF]), Err(Error::InvalidDataLength)));
    assert!(matches!(ReadCoilsResponse::decode(&[0x02, 0x01, 0xFF]), Err(Error::InvalidData)));
    assert!(matches!(ReadCoilsResponse::decode(&[0x01, 0x00]), Err(Error::InvalidDataLength)));
}

#[test]
fn register_responses() {
    let rsp = ReadHldRegResponse::new(&[0x022B, 0x0000, 0x0064]);
    let pdu = rsp.encode().unwrap();
    assert_eq!(pdu, vec![0x03, 0x06, 0x02, 0x2B, 0x00, 0x00, 0x00, 0x64]);
    assert_eq!(ReadHldRegResponse::decode(&pdu).unwrap(), rsp);
    assert!(is_invalid_value(ReadHldRegResponse::new(&[]).encode()));
    assert!(is_invalid_value(ReadInRegResponse::new(&[0u16; 126]).encode()));
    assert!(matches!(ReadInRegResponse::decode(&[0x04, 0x03, 0x00, 0x01, 0x02]), Err(Error::InvalidData)));
    assert!(matches!(ReadInRegResponse::decode(&[0x04, 0x04, 0x00, 0x01]), Err(Error::InvalidDataLength)));
}

#[test]
fn request_dispatcher_selects_decoder() {
    assert!(matches!(decode_req(&[0x01, 0x00, 0x13, 0x00, 0x13]), Ok(RequestData::ReadCoils(r)) if r.get_quantity() == 0x13));
    assert!(matches!(decode_req(&[0x02, 0x00, 0xC4, 0x00, 0x16]), Ok(RequestData::ReadDscrIn(r)) if r.get_address() == 0xC4));
    assert!(matches!(decode_req(&[0x03, 0x00, 0x6B, 0x00, 0x03]), Ok(RequestData::ReadHldReg(r)) if r.get_address() == 0x6B));
    assert!(matches!(decode_req(&[0x04, 0x00, 0x08, 0x00, 0x01]), Ok(RequestData::ReadInReg(r)) if r.get_quantity() == 1));
    assert!(matches!(decode_req(&[0x05, 0x00, 0xAC, 0xFF, 0x00]), Ok(RequestData::WriteSingleCoil(r)) if r.get_value()));
    assert!(matches!(decode_req(&[0x06, 0x00, 0x01, 0x00, 0x03]), Ok(RequestData::WriteSingleReg(r)) if r.get_value() == 3));
    assert!(matches!(decode_req(&[0x10, 0x00, 0x01, 0x00, 0x01, 0x02, 0x00, 0x0A]), Ok(RequestData::WriteMultiReg(r)) if r.get_values() == [0x000A]));
    assert!(matches!(decode_req(&[0x07, 0x00]), Err(Error::InvalidData)));
    assert!(matches!(decode_req(&[0x01]), Err(Error::InvalidDataLength)));
    assert!(matches!(decode_req(&[0x05, 0x00, 0xAC, 0x12, 0x34]), Err(Error::InvalidData)));
}

#[test]
fn setter_echo_is_checked() {
    let req = WriteSingleRegRequest::new(0x0001, 0x0003);
    assert!(check_setter_response(&req, &[0x06, 0x00, 0x01, 0x00, 0x03]).is_ok());
    assert!(matches!(check_setter_response(&req, &[0x06, 0x00, 0x01, 0x00, 0x04]), Err(Error::InvalidData)));
    assert!(matches!(
        check_setter_response(&req, &[0x86, 0x02]),
        Err(Error::ExceptionResponse(ExceptionCode::IllegalDataAddress))
    ));
    let multi = WriteMultiRegRequest::new(0x0001, &[0x000A, 0x0102]);
    assert!(check_setter_response(&multi, &[0x10, 0x00, 0x01, 0x00, 0x02]).is_ok());
    assert!(matches!(check_setter_response(&multi, &[0x10, 0x00, 0x01, 0x00, 0x01]), Err(Error::InvalidData)));
    let coil = WriteSingleCoilRequest::new(0x00AC, true);
    assert!(check_setter_response(&coil, &[0x05, 0x00, 0xAC, 0xFF, 0x00]).is_ok());
    assert!(matches!(check_setter_response(&coil, &[0x05, 0x00, 0xAC, 0x00, 0x00]), Err(Error::InvalidData)));
}

#[test]
fn roles_and_broadcast() {
    assert!(matches!(Role::slave(0), Err(Error::InvalidValue)));
    assert!(matches!(Role::slave(248), Err(Error::InvalidValue)));
    assert_eq!(Role::slave(1).unwrap(), Role::Slave(1));
    assert_eq!(Role::slave(247).unwrap().slave_unit_id().unwrap(), 247);
    assert!(matches!(Role::Master.slave_unit_id(), Err(Error::InvalidValue)));
    assert!(is_broadcast(0));
    assert!(!is_broadcast(1));
}

#[test]
fn rtu_read_decisions() {
    assert!(matches!(on_silence(&[], 2, true), ReadStep::Continue));
    assert!(matches!(on_silence(&[], 2, false), ReadStep::Failed(Error::NoResponse)));
    assert!(matches!(on_silence(&[0x02, 0x07, 0x41, 0x12], 2, false), ReadStep::Pdu(p) if p == vec![0x07]));
    assert!(matches!(on_silence(&[0x02, 0x07, 0x41, 0x12], 3, true), ReadStep::Continue));
    assert!(matches!(on_silence(&[0x02, 0x07, 0x41, 0x12], 3, false), ReadStep::Failed(Error::InvalidData)));
    assert!(matches!(on_silence(&[0x02, 0x07, 0x41, 0x00], 2, true), ReadStep::Failed(Error::InvalidData)));
    assert_eq!(gap_remaining(100_000, 30_000), 70_000);
    assert_eq!(gap_remaining(100_000, 100_000), 0);
    assert_eq!(gap_remaining(100_000, 250_000), 0);
}

#[test]
fn tcp_read_decisions() {
    let full = [0x15, 0x01, 0x00, 0x00, 0x00, 0x06, 0xFF, 0x03, 0x00, 0x04, 0x00, 0x01];
    assert!(matches!(on_bytes(&full[..9], 0xFF), ReadStep::Continue));
    assert!(matches!(on_bytes(&full, 0xFF), ReadStep::Pdu(p) if p == full[7..].to_vec()));
    assert!(matches!(on_bytes(&full, 0x01), ReadStep::Failed(Error::InvalidData)));
    let mut bad = full;
    bad[2] = 0x01;
    assert!(matches!(on_bytes(&bad, 0xFF), ReadStep::Failed(Error::InvalidData)));
}

#[test]
fn descriptions() {
    assert_eq!(Error::InvalidValue.description(), "Invalid value");
    assert_eq!(
        Error::ExceptionResponse(ExceptionCode::ServerDeviceBusy).description(),
        "Exception response: [exc] Server device busy"
    );
    assert_eq!(Error::IoError("timed out".to_string()).description(), "IO error: timed out");
    assert_eq!(Error::SerialError("no device".to_string()).description(), "Serial error: no device");
}
