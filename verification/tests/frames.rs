//! Tests of the frame builder and the wire image of a frame.

use rawcan::{CanError, CanFrame, IdFlags, CAN_FRAME_WIRE_SIZE};

#[test]
fn rtr_frame_empty_payload() {
    let frame = CanFrame::init(0x123, &[], IdFlags::rtr()).unwrap();
    assert_eq!(frame.can_id, 0xC000_0123);
    assert_eq!(frame.can_dlc, 0);
    assert_eq!(frame.data, vec![0u8; 8]);
}

#[test]
fn data_frame_single_byte() {
    let frame = CanFrame::init(0x7FF, &[0xAB], IdFlags::empty()).unwrap();
    assert_eq!(frame.can_id, 0x8000_07FF);
    assert_eq!(frame.can_dlc, 1);
    assert_eq!(frame.data[0], 0xAB);
    assert_eq!(&frame.data[1..], &[0u8; 7]);
}

#[test]
fn max_payload() {
    let payload: [u8; 8] = [0, 1, 2, 3, 4, 5, 6, 7];
    let frame = CanFrame::init(0x1, &payload, IdFlags::empty()).unwrap();
    assert_eq!(frame.can_id, 0x8000_0001);
    assert_eq!(frame.can_dlc, 8);
    assert_eq!(frame.data, payload.to_vec());
}

#[test]
fn payload_too_long_is_refused() {
    let payload = [0u8; 9];
    let r = CanFrame::init(0x123, &payload, IdFlags::empty());
    assert_eq!(r, Err(CanError::PayloadTooLong));
}

#[test]
fn wire_image_layout() {
    // Identifier word little-endian at offset 0, length code at offset 4,
    // three reserved zero bytes, payload buffer at offset 8: 16 bytes.
    let frame = CanFrame::init(0x7FF, &[0xAB], IdFlags::empty()).unwrap();
    let bytes = frame.wire_bytes();
    assert_eq!(bytes.len(), CAN_FRAME_WIRE_SIZE);
    assert_eq!(&bytes[0..4], &[0xFF, 0x07, 0x00, 0x80]);
    assert_eq!(bytes[4], 1);
    assert_eq!(&bytes[5..8], &[0, 0, 0]);
    assert_eq!(bytes[8], 0xAB);
    assert_eq!(&bytes[9..], &[0u8; 7]);
}

#[test]
fn wire_image_of_empty_rtr_frame() {
    let frame = CanFrame::init(0x123, &[], IdFlags::rtr()).unwrap();
    let bytes = frame.wire_bytes();
    assert_eq!(bytes.len(), 16);
    assert_eq!(&bytes[0..4], &[0x23, 0x01, 0x00, 0xC0]);
    assert_eq!(&bytes[4..], &[0u8; 12]);
}
