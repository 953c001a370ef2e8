use sremp::error::CoreError;
use sremp::net::frame::{Frame, MAX_FRAME_PAYLOAD_SIZE, MAX_FRAME_SIZE};
use sremp::net::version_header::VersionHeader;
use sremp::PROTOCOL_DIRECT_NAME;

#[test]
fn protocol_name_is_sremp_direct() {
    assert_eq!(&PROTOCOL_DIRECT_NAME, b"SREMP_DIRECT");
    assert_eq!(VersionHeader::BYTE_LENGTH, 14);
    assert_eq!(MAX_FRAME_SIZE, 65535);
    assert_eq!(MAX_FRAME_PAYLOAD_SIZE, 65535 - 14);
}

#[test]
fn frame_round_trip_small_payload() {
    let frame = Frame::from_payload(b"hello").unwrap();
    assert_eq!(frame.len(), 19);
    let wire = frame.encode();
    assert_eq!(wire.len(), 2 + 14 + 5);
    assert_eq!(&wire[0..2], &[0u8, 19u8]);
    assert_eq!(&wire[2..14], b"SREMP_DIRECT");
    assert_eq!(&wire[14..16], &[0u8, 1u8]);
    assert_eq!(&wire[16..], b"hello");
    let back = Frame::decode(&wire).unwrap();
    assert_eq!(back.data(), b"hello");
    assert_eq!(back, frame);
}

#[test]
fn frame_round_trip_empty_payload() {
    let frame = Frame::from_payload(b"").unwrap();
    assert_eq!(frame.len(), 14);
    let wire = frame.encode();
    assert_eq!(wire, b"\x00\x0eSREMP_DIRECT\x00\x01".to_vec());
    let back = Frame::decode(&wire).unwrap();
    assert_eq!(back.data(), b"");
    assert_eq!(back.version(), &VersionHeader::current());
}

#[test]
fn frame_round_trip_largest_payload() {
    let payload: Vec<u8> = (0..MAX_FRAME_PAYLOAD_SIZE).map(|i| (i % 251) as u8).collect();
    let frame = Frame::from_payload(&payload).unwrap();
    assert_eq!(frame.len(), 65535);
    let wire = frame.encode();
    assert_eq!(&wire[0..2], &[0xffu8, 0xffu8]);
    assert_eq!(wire.len(), 2 + 65535);
    let back = Frame::decode(&wire).unwrap();
    assert_eq!(back.data(), payload.as_slice());
}

#[test]
fn frame_length_prefix_is_big_endian() {
    let payload = vec![7u8; 300 - 14];
    let wire = Frame::from_payload(&payload).unwrap().encode();
    assert_eq!(&wire[0..2], &[1u8, 44u8]);
}

#[test]
fn frame_rejects_oversized_payload() {
    let payload = vec![0u8; MAX_FRAME_PAYLOAD_SIZE + 1];
    assert_eq!(
        Frame::from_payload(&payload),
        Err(CoreError::FrameTooLarge(MAX_FRAME_PAYLOAD_SIZE + 1))
    );
    assert_eq!(
        Frame::from_parts(VersionHeader::current(), payload),
        Err(CoreError::FrameTooLarge(MAX_FRAME_PAYLOAD_SIZE + 1))
    );
}

#[test]
fn frame_rejects_bad_protocol_name() {
    let frame = Frame::from_payload(b"x").unwrap();
    let mut wire = frame.encode();
    wire[2] = b'X';
    let mut name = *b"SREMP_DIRECT";
    name[0] = b'X';
    assert_eq!(Frame::decode(&wire), Err(CoreError::BadProtocolName(name)));
    let mut raw = [0u8; 14];
    raw[..12].copy_from_slice(&name);
    assert_eq!(VersionHeader::from_raw(&raw), Err(CoreError::BadProtocolName(name)));
}

#[test]
fn frame_rejects_name_that_differs_in_last_byte() {
    let mut raw = *b"SREMP_DIRECT\x00\x01";
    raw[11] = b't';
    assert_eq!(
        VersionHeader::from_raw(&raw),
        Err(CoreError::BadProtocolName(*b"SREMP_DIRECt"))
    );
}

#[test]
fn frame_decode_rejects_truncated_buffers() {
    assert_eq!(Frame::decode(&[]), Err(CoreError::FrameIncomplete(0)));
    assert_eq!(Frame::decode(&[0]), Err(CoreError::FrameIncomplete(1)));
    let wire = Frame::from_payload(b"hello").unwrap().encode();
    assert_eq!(Frame::decode(&wire[..10]), Err(CoreError::FrameIncomplete(10)));
    assert_eq!(Frame::decode(&wire[..20]), Err(CoreError::FrameIncomplete(20)));
    let mut longer = wire.clone();
    longer.push(0);
    assert_eq!(Frame::decode(&longer), Err(CoreError::FrameIncomplete(22)));
}

#[test]
fn frame_decode_rejects_length_below_header() {
    let mut wire = Frame::from_payload(b"hello").unwrap().encode();
    wire[1] = 13;
    assert_eq!(Frame::decode(&wire), Err(CoreError::FrameTooShort(13)));
    assert_eq!(Frame::payload_length(13), Err(CoreError::FrameTooShort(13)));
    assert_eq!(Frame::payload_length(0), Err(CoreError::FrameTooShort(0)));
}

#[test]
fn frame_payload_length_subtracts_header() {
    assert_eq!(Frame::payload_length(14), Ok(0));
    assert_eq!(Frame::payload_length(19), Ok(5));
    assert_eq!(Frame::payload_length(65535), Ok(65521));
}

#[test]
fn frame_clone_is_equal() {
    let frame = Frame::from_payload(b"abc").unwrap();
    assert_eq!(frame.clone(), frame);
}

#[test]
fn version_header_bytes_and_back() {
    let header = VersionHeader::current();
    assert_eq!(header.major(), 0);
    assert_eq!(header.minor(), 1);
    assert_eq!(header.name(), *b"SREMP_DIRECT");
    assert_eq!(&header.as_bytes(), b"SREMP_DIRECT\x00\x01");
    let other = VersionHeader::from_raw(b"SREMP_DIRECT\x02\x09").unwrap();
    assert_eq!(other.major(), 2);
    assert_eq!(other.minor(), 9);
    assert_eq!(&other.as_bytes(), b"SREMP_DIRECT\x02\x09");
    assert_eq!(other.to_text(), "SREMP_DIRECT v2.9");
    assert_eq!(header.to_text(), "SREMP_DIRECT v0.1");
}

#[test]
fn frame_length_prefix_counts_header_and_payload() {
    assert_eq!(Frame::from_payload(b"").unwrap().length_prefix(), [0, 14]);
    assert_eq!(Frame::from_payload(b"hello").unwrap().length_prefix(), [0, 19]);
    let payload = vec![0u8; 1000];
    let frame = Frame::from_payload(&payload).unwrap();
    assert_eq!(frame.length_prefix(), [3, 246]);
    assert_eq!(&frame.encode()[..2], &frame.length_prefix());
}

#[test]
fn frame_read_in_steps_equals_decode() {
    let wire = Frame::from_payload(b"stepwise").unwrap().encode();
    let total = u16::from_be_bytes([wire[0], wire[1]]);
    let payload_len = Frame::payload_length(total).unwrap();
    let mut raw = [0u8; 14];
    raw.copy_from_slice(&wire[2..16]);
    let version = VersionHeader::from_raw(&raw).unwrap();
    let frame = Frame::from_parts(version, wire[16..16 + payload_len].to_vec()).unwrap();
    assert_eq!(Ok(frame), Frame::decode(&wire));
}
