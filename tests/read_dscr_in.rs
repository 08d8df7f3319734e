use modbus::{Function, ReadDscrInRequest as Request, ReadDscrInResponse as Response};

#[test]
fn encode_req() {
    let req = Request::new(0x1234, 0x7D0);
    let pdu = req.encode().unwrap();
    let expected_pdu = vec![0x02, 0x12, 0x34, 0x07, 0xD0];

    assert_eq!(pdu, expected_pdu);
}

#[test]
fn decode_req() {
    let pdu = vec![0x02, 0xab, 0xcd, 0x01, 0x23];
    let req = Request::decode(&pdu).unwrap();
    let expected_req = Request::new(0xabcd, 0x0123);

    assert_eq!(req, expected_req);
}

#[test]
fn encode_rsp() {
    let rsp = Response::new(&[
        false, false, true, true, false, true, false, true, true, true, false, true, true, false, true, true, true,
        false, true, false, true, true,
    ]);
    let pdu = rsp.encode().unwrap();
    let expected_pdu = vec![0x02, 0x03, 0xAC, 0xDB, 0x35];

    assert_eq!(pdu, expected_pdu);
}

#[test]
fn decode_rsp() {
    let pdu = vec![0x02, 0x03, 0xAC, 0xDB, 0x35];
    let rsp = Response::decode(&pdu).unwrap();
    let expected_rsp = Response::new(&[
        false, false, true, true, false, true, false, true, true, true, false, true, true, false, true, true, true,
        false, true, false, true, true, false, false,
    ]);

    assert_eq!(rsp, expected_rsp);
}
