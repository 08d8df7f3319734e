use modbus::{Error, RtuFrame as Frame};

#[test]
fn frame_test_encode() {
    let frame = Frame::new(2, &[0x07]).encode().unwrap();
    let expected_frame = vec![0x02, 0x07, 0x41, 0x12];
    assert_eq!(frame, expected_frame);
}

#[test]
fn frame_test_decode() {
    let frame_data = vec![0x02, 0x07, 0x41, 0x12];
    let frame = Frame::decode(&frame_data).unwrap();

    assert_eq!(frame.get_address(), 2);
    assert_eq!(frame.get_pdu(), frame_data[1..=1].to_vec());
}

#[test]
fn test_decode_invalid_crc() {
    let frame_data = [0x02, 0x07, 0x41, 0x00];
    let err = Frame::decode(&frame_data).err().unwrap();

    match err {
        Error::InvalidData => {}
        _ => panic!("Expected InvalidData, but got {:?}", err),
    }
}
