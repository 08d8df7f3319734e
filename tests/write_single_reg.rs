use modbus::{Error, Function, WriteSingleRegRequest as Message};

#[test]
fn write_single_reg_test_encode_request() {
    let req = Message::new(0xdead, 0xfade);
    let pdu = req.encode().unwrap();
    let expected_pdu = vec![0x06, 0xde, 0xad, 0xfa, 0xde];

    assert_eq!(pdu, expected_pdu);
}

#[test]
fn write_single_reg_test_encode_response() {
    let rsp = Message::new(0xffff, 0x0102);
    let pdu = rsp.encode().unwrap();
    let expected_pdu = vec![0x06, 0xff, 0xff, 0x01, 0x02];

    assert_eq!(pdu, expected_pdu);
}

#[test]
fn write_single_reg_test_decode_request() {
    let pdu = vec![0x06, 0x00, 0x00, 0xff, 0x00];
    let req = Message::decode(&pdu).unwrap();
    let expected_req = Message::new(0x0000, 0xff00);

    assert_eq!(req, expected_req);
}

#[test]
fn write_single_reg_test_decode_invalid_request() {
    let pdu = vec![0x05, 0x01, 0x23, 0x00, 0x01];
    let err = Message::decode(&pdu).err().unwrap();
    match err {
        Error::InvalidData => {}
        _ => panic!("Expected InvalidData, but got {:?}", err),
    }
}

#[test]
fn write_single_reg_test_decode_response() {
    let pdu = vec![0x06, 0x01, 0x23, 0x87, 0x65];
    let rsp = Message::decode(&pdu).unwrap();
    let expected_rsp = Message::new(0x0123, 0x8765);

    assert_eq!(rsp, expected_rsp);
}
