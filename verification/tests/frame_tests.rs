use i3_ipc::frame::{decode_frame, encode_frame, parse_header, Frame, FrameError, HEADER_LEN};

fn frame_of(buf: &[u8]) -> Frame {
    match decode_frame(&buf.to_vec()) {
        Ok(f) => f,
        Err(_) => panic!("expected a decodable frame"),
    }
}

#[test]
fn round_trip_small_payload() {
    let payload = b"workspace 8".to_vec();
    let bytes = encode_frame(0, &payload);
    assert_eq!(bytes.len(), HEADER_LEN + payload.len());
    let frame = frame_of(&bytes);
    assert_eq!(frame.kind, 0);
    assert_eq!(frame.payload, payload);
    assert!(frame.magic_ok);
}

#[test]
fn round_trip_empty_payload() {
    let payload: Vec<u8> = Vec::new();
    let bytes = encode_frame(2, &payload);
    assert_eq!(bytes.len(), HEADER_LEN);
    let frame = frame_of(&bytes);
    assert_eq!(frame.kind, 2);
    assert!(frame.payload.is_empty());
    assert!(frame.magic_ok);
}

#[test]
fn round_trip_binary_payload_with_nulls() {
    let payload = vec![0u8, 255, 0, 7, 0];
    let bytes = encode_frame(1, &payload);
    let frame = frame_of(&bytes);
    assert_eq!(frame.kind, 1);
    assert_eq!(frame.payload, payload);
}

#[test]
fn round_trip_large_kind_value() {
    // An event frame's discriminator has its high bit set; the codec
    // carries any 32-bit value through unchanged.
    let payload = b"{}".to_vec();
    let bytes = encode_frame(0x8000_0000, &payload);
    let frame = frame_of(&bytes);
    assert_eq!(frame.kind, 0x8000_0000);
    assert_eq!(frame.payload, payload);
}

#[test]
fn length_field_is_little_endian_payload_length() {
    let payload = vec![9u8; 300];
    let bytes = encode_frame(1, &payload);
    assert_eq!(&bytes[0..6], b"i3-ipc");
    // 300 = 0x012c, little-endian.
    assert_eq!(&bytes[6..10], &[0x2c, 0x01, 0x00, 0x00]);
    assert_eq!(&bytes[10..14], &[0x01, 0x00, 0x00, 0x00]);
    let frame = frame_of(&bytes);
    assert_eq!(frame.payload.len(), 300);
}

#[test]
fn header_fields() {
    let bytes = encode_frame(2, &b"[]".to_vec());
    let header = parse_header(&bytes);
    assert!(header.magic_ok);
    assert_eq!(header.payload_len, 2);
    assert_eq!(header.kind, 2);
}

#[test]
fn malformed_magic_tag_still_decodes() {
    // A reply stream opening with "x3-ipx" instead of the real tag still
    // yields a parsed frame; the anomaly is visible in `magic_ok`.
    let payload = b"[]".to_vec();
    let mut bytes = encode_frame(1, &payload);
    bytes[0] = b'x';
    bytes[5] = b'x';
    assert_eq!(&bytes[0..6], b"x3-ipx");
    let frame = frame_of(&bytes);
    assert!(!frame.magic_ok);
    assert_eq!(frame.kind, 1);
    assert_eq!(frame.payload, payload);
}

#[test]
fn truncated_header_is_an_error() {
    let r = decode_frame(&b"i3-ipc".to_vec());
    assert!(matches!(r, Err(FrameError::Truncated)));
}

#[test]
fn truncated_payload_is_an_error() {
    let mut bytes = encode_frame(0, &b"abcdef".to_vec());
    bytes.truncate(bytes.len() - 1);
    let r = decode_frame(&bytes);
    assert!(matches!(r, Err(FrameError::Truncated)));
}

#[test]
fn trailing_bytes_are_an_error() {
    let mut bytes = encode_frame(0, &b"abc".to_vec());
    bytes.push(0);
    let r = decode_frame(&bytes);
    assert!(matches!(r, Err(FrameError::TrailingBytes)));
}
