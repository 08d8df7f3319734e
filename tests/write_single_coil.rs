use modbus::{Error, Function, WriteSingleCoilRequest as Message};

#[test]
fn write_single_coil_test_encode_request() {
    let req = Message::new(0xdead, true);
    let pdu = req.encode().unwrap();
    let expected_pdu = vec![0x05, 0xde, 0xad, 0xff, 0x00];

    assert_eq!(pdu, expected_pdu);
}

#[test]
fn write_single_coil_test_encode_response() {
    let rsp = Message::new(0xffff, false);
    let pdu = rsp.encode().unwrap();
    let expected_pdu = vec![0x05, 0xff, 0xff, 0x00, 0x00];

    assert_eq!(pdu, expected_pdu);
}

#[test]
fn write_single_coil_test_decode_request() {
    let pdu = vec![0x05, 0x00, 0x00, 0xff, 0x00];
    let req = Message::decode(&pdu).unwrap();
    let expected_req = Message::new(0x0000, true);

    assert_eq!(req, expected_req);
}

#[test]
fn write_single_coil_test_decode_invalid_request() {
    let pdu = vec![0x05, 0x01, 0x23, 0x00, 0x01];
    let err = Message::decode(&pdu).err().unwrap();
    match err {
        Error::InvalidData => {}
        _ => panic!("Expected InvalidData, but got {:?}", err),
    }
}

#[test]
fn write_single_coil_test_decode_response() {
    let pdu = vec![0x05, 0x01, 0x23, 0xff, 0x00];
    let rsp = Message::decode(&pdu).unwrap();
    let expected_rsp = Message::new(0x0123, true);

    assert_eq!(rsp, expected_rsp);
}
