use modbus::{TcpFrame as Frame, TransactionIds};

#[test]
fn test_encode() {
    let mut ids = TransactionIds::starting_at(0x1501);
    let frame = Frame::new(&mut ids, 0xFF, &[0x03, 0x00, 0x04, 0x00, 0x01]);
    let frame = frame.encode().unwrap();
    let expected_frame = vec![0x15, 0x01, 0x00, 0x00, 0x00, 0x06, 0xFF, 0x03, 0x00, 0x04, 0x00, 0x01];
    assert_eq!(frame, expected_frame);
}

#[test]
fn test_decode() {
    let frame_data = vec![0x15, 0x01, 0x00, 0x00, 0x00, 0x06, 0xFF, 0x03, 0x00, 0x04, 0x00, 0x01];
    let frame = Frame::decode(&frame_data).unwrap();

    assert_eq!(frame.get_transaction_id(), 0x1501);
    assert_eq!(frame.get_unit_id(), 0xFF);
    assert_eq!(frame.get_pdu(), frame_data[7..].to_vec());
}
