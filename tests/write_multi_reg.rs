use modbus::{Error, Function, WriteMultiRegRequest as Request, WriteMultiRegResponse as Response};

#[test]
fn write_multi_reg_test_encode_request() {
    let req = Request::new(0xdead, &vec![0xfade, 0xface, 0x0000, 0x0001]);
    let pdu = req.encode().unwrap();
    let expected_pdu = vec![0x10, 0xde, 0xad, 0x00, 0x04, 0x08, 0xfa, 0xde, 0xfa, 0xce, 0x00, 0x00, 0x00, 0x01];

    assert_eq!(pdu, expected_pdu);
}

#[test]
fn write_multi_reg_test_encode_response() {
    let rsp = Response::new(0xffff, 0x0072);
    let pdu = rsp.encode().unwrap();
    let expected_pdu = vec![0x10, 0xff, 0xff, 0x00, 0x72];

    assert_eq!(pdu, expected_pdu);
}

#[test]
fn write_multi_reg_test_decode_request() {
    let pdu = vec![0x10, 0x00, 0x00, 0x00, 0x02, 0x04, 0x01, 0x02, 0xfe, 0xfd];
    let req = Request::decode(&pdu).unwrap();
    let expected_req = Request::new(0x0000, &vec![0x0102, 0xfefd]);

    assert_eq!(req, expected_req);
}

#[test]
fn write_multi_reg_test_decode_invalid_request() {
    let pdu = vec![0x11, 0x01, 0x23, 0x00, 0x01, 0x02, 0x11, 0x12];
    let err = Request::decode(&pdu).err().unwrap();
    match err {
        Error::InvalidData => {}
        _ => panic!("Expected InvalidData, but got {:?}", err),
    }
}

#[test]
fn write_multi_reg_test_decode_response() {
    let pdu = vec![0x10, 0x01, 0x23, 0x00, 0x65];
    let rsp = Response::decode(&pdu).unwrap();
    let expected_rsp = Response::new(0x0123, 0x0065);

    assert_eq!(rsp, expected_rsp);
}
