use hank_sync::wire::{decode_frame, decode_length, encode_frame, FrameError};

#[test]
fn frame_prefixes_big_endian_length() {
    let framed = encode_frame(b"{\"cmd\":\"status\"}").unwrap();
    assert_eq!(&framed[..4], &[0, 0, 0, 16]);
    assert_eq!(&framed[4..], b"{\"cmd\":\"status\"}");
}

#[test]
fn frame_of_empty_message_is_four_zero_bytes() {
    assert_eq!(encode_frame(b"").unwrap(), vec![0, 0, 0, 0]);
}

#[test]
fn length_prefix_reads_all_four_bytes() {
    assert_eq!(decode_length(&[0x01, 0x02, 0x03, 0x04]), Ok(0x0102_0304));
    assert_eq!(decode_length(&[0xff, 0xff, 0xff, 0xff]), Ok(u32::MAX));
    assert_eq!(decode_length(&[0, 0, 1]), Err(FrameError::ShortHeader));
}

#[test]
fn decode_reads_back_what_encode_wrote_and_leaves_the_rest() {
    let mut buf = encode_frame(b"hello").unwrap();
    buf.extend_from_slice(b"raw payload");
    let (msg, used) = decode_frame(&buf).unwrap();
    assert_eq!(msg, b"hello".to_vec());
    assert_eq!(used, 9);
    assert_eq!(&buf[used..], b"raw payload");
}

#[test]
fn decode_reports_short_frames() {
    assert_eq!(decode_frame(&[0, 0]), Err(FrameError::ShortHeader));
    assert_eq!(decode_frame(&[0, 0, 0, 5, b'a', b'b']), Err(FrameError::ShortBody));
}

#[test]
fn long_frame_round_trip() {
    let payload: Vec<u8> = (0..70_000u32).map(|i| (i % 251) as u8).collect();
    let framed = encode_frame(&payload).unwrap();
    assert_eq!(&framed[..4], &[0, 1, 0x11, 0x70]);
    let (msg, used) = decode_frame(&framed).unwrap();
    assert_eq!(msg, payload);
    assert_eq!(used, framed.len());
}
