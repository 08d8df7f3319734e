use modbus::{Error, Function, ReadCoilsRequest as Request, ReadCoilsResponse as Response};

#[test]
fn test_encode_read_coils_request() {
    let pdu = Request::new(0x1234, 0x00cd).encode().unwrap();
    let expected_pdu = vec![0x01, 0x12, 0x34, 0x00, 0xcd];
    assert_eq!(pdu, expected_pdu);
}

#[test]
fn test_encode_read_zero_coils_request() {
    let result = Request::new(0x1234, 0).encode().err().unwrap();
    match result {
        Error::InvalidValue => {}
        _ => panic!("Expected InvalidValue, but got {:?}", result),
    }
}

#[test]
fn test_encode_read_coils_response() {
    let pdu = Response::new(&[
        true, false, true, true, false, false, true, true, true, true, false, true, false, true, true, false, true,
        false, true,
    ])
    .encode()
    .unwrap();
    let expected_pdu = vec![0x01, 0x03, 0xCD, 0x6B, 0x05];
    assert_eq!(pdu, expected_pdu);
}

#[test]
fn test_encode_read_zero_coils_response() {
    let result = Response::new(&[]).encode().err().unwrap();
    match result {
        Error::InvalidValue => {}
        _ => panic!("Expected InvalidValue, but got {:?}", result),
    }
}

#[test]
fn test_decode_read_coils_request() {
    let pdu = [0x01, 0x12, 0x34, 0xab, 0xcd];
    let result = Request::decode(&pdu).unwrap();
    assert_eq!(result.get_address(), 0x1234);
    assert_eq!(result.get_quantity(), 0xabcd);
}

#[test]
fn test_decode_read_coils_response() {
    let pdu = [0x01, 0x03, 0xCD, 0x6B, 0x05];
    let result = Response::decode(&pdu).unwrap();
    for (i, expected_value) in [
        true, false, true, true, false, false, true, true, true, true, false, true, false, true, true, false, true,
        false, true,
    ]
    .iter()
    .enumerate()
    {
        assert_eq!(result.get_coils()[i], *expected_value);
    }
}
