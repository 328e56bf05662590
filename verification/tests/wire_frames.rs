use keyz::errors::KeyzError;
use keyz::wire::decode_frame;
use keyz::wire::encode_frame;
use keyz::wire::u32_from_be_bytes;
use keyz::wire::u32_to_be_bytes;

#[test]
fn length_prefix_is_big_endian() {
    assert_eq!(u32_to_be_bytes(0x01020304), vec![1, 2, 3, 4]);
    assert_eq!(u32_to_be_bytes(0), vec![0, 0, 0, 0]);
    assert_eq!(u32_to_be_bytes(u32::MAX), vec![255, 255, 255, 255]);
    assert_eq!(u32_from_be_bytes(&vec![1, 2, 3, 4]), 0x01020304);
    assert_eq!(u32_from_be_bytes(&vec![0, 0, 0, 100]), 100);
}

#[test]
fn frame_shape_for_small_payload() {
    let payload = b"hello".to_vec();
    let frame = encode_frame(&payload);
    assert_eq!(frame, vec![0, 0, 0, 5, 104, 101, 108, 108, 111]);
}

#[test]
fn round_trip_empty_payload() {
    let payload: Vec<u8> = Vec::new();
    let frame = encode_frame(&payload);
    assert_eq!(frame, vec![0, 0, 0, 0]);
    assert_eq!(decode_frame(&frame), Ok(payload));
}

#[test]
fn round_trip_small_payload() {
    let payload = b"SET test 1".to_vec();
    let frame = encode_frame(&payload);
    assert_eq!(decode_frame(&frame), Ok(payload));
}

#[test]
fn round_trip_ignores_bytes_after_the_frame() {
    let payload = b"ok".to_vec();
    let mut data = encode_frame(&payload);
    data.extend_from_slice(&[9, 9, 9, 9]);
    assert_eq!(decode_frame(&data), Ok(payload));
}

#[test]
fn short_header_is_truncated_header() {
    assert_eq!(decode_frame(&vec![]), Err(KeyzError::TruncatedHeader));
    assert_eq!(decode_frame(&vec![0, 0, 0]), Err(KeyzError::TruncatedHeader));
}

#[test]
fn peer_closing_mid_payload_is_truncated_payload() {
    // A header announcing 100 bytes followed by only 10 before the stream
    // ends must not yield a silently short string.
    let mut data = vec![0, 0, 0, 100];
    data.extend_from_slice(&[1, 2, 3, 4, 5, 6, 7, 8, 9, 10]);
    assert_eq!(decode_frame(&data), Err(KeyzError::TruncatedPayload));
}

#[test]
fn exact_payload_length_is_not_truncated() {
    let mut data = vec![0, 0, 0, 2];
    data.extend_from_slice(&[42, 43]);
    assert_eq!(decode_frame(&data), Ok(vec![42, 43]));
}
