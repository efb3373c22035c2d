use vscope_serial::crc::crc8;
use vscope_serial::error::SerialError;
use vscope_serial::frame::{build_frame, decode_frame, DecodeStep, FrameDecoder, SYNC_BYTE};

#[test]
fn build_frame_structure() {
    let payload = vec![0x01, 0x02, 0x03];
    let frame = build_frame(&payload).unwrap();

    assert_eq!(frame[0], SYNC_BYTE);
    assert_eq!(frame[1], 0x04);
    assert_eq!(&frame[2..5], &payload);
    assert_eq!(frame[5], crc8(&payload));
}

#[test]
fn build_frame_min_payload() {
    let payload = vec![0x42];
    let frame = build_frame(&payload).unwrap();

    assert_eq!(frame.len(), 1 + 1 + 1 + 1);
    assert_eq!(frame[0], SYNC_BYTE);
    assert_eq!(frame[1], 2);
}

#[test]
fn build_frame_larger_payload() {
    let payload = vec![0xAA; 252];
    let frame = build_frame(&payload).unwrap();

    assert_eq!(frame.len(), 1 + 1 + 252 + 1);
    let len_field = frame[1];
    assert_eq!(len_field, 253);
}

#[test]
fn build_frame_too_large() {
    let payload = vec![0xAA; 253];
    assert!(build_frame(&payload).is_err());
}

#[test]
fn build_frame_empty_payload_rejected() {
    assert!(matches!(build_frame(&[]), Err(SerialError::PayloadTooLarge)));
    assert!(matches!(build_frame(&vec![0u8; 253]), Err(SerialError::PayloadTooLarge)));
}

#[test]
fn build_frame_exact_bytes() {
    assert_eq!(build_frame(&[0x01]).unwrap(), vec![0xC8, 0x02, 0x01, 0xD5]);
    assert_eq!(
        build_frame(&[0x01, 0x02, 0x03]).unwrap(),
        vec![0xC8, 0x04, 0x01, 0x02, 0x03, 0x3F]
    );
}

#[test]
fn round_trip_every_length() {
    for len in 1..=252usize {
        let payload: Vec<u8> = (0..len).map(|i| (i * 7 + len) as u8).collect();
        let frame = build_frame(&payload).unwrap();
        assert_eq!(decode_frame(&frame).unwrap(), payload);
    }
}

#[test]
fn resync_skips_leading_garbage() {
    let payload = vec![0x10, 0x20, 0x30];
    let mut stream = vec![0x00, 0xFF, 0x13, 0x37];
    stream.extend(build_frame(&payload).unwrap());
    assert_eq!(decode_frame(&stream).unwrap(), payload);
}

#[test]
fn resync_after_bad_length_byte() {
    let payload = vec![0x05];
    let mut stream = vec![SYNC_BYTE, 0x00, SYNC_BYTE, 0xFF];
    stream.extend(build_frame(&payload).unwrap());
    assert_eq!(decode_frame(&stream).unwrap(), payload);
}

#[test]
fn corrupted_integrity_byte_is_mismatch() {
    let mut frame = build_frame(&[0x01, 0x02, 0x03]).unwrap();
    let last = frame.len() - 1;
    frame[last] ^= 0xFF;
    assert!(matches!(decode_frame(&frame), Err(SerialError::CrcMismatch)));
}

#[test]
fn truncated_frame_times_out() {
    let frame = build_frame(&[0x01, 0x02, 0x03]).unwrap();
    assert!(matches!(decode_frame(&frame[..4]), Err(SerialError::Timeout)));
    assert!(matches!(decode_frame(&[]), Err(SerialError::Timeout)));
    assert!(matches!(decode_frame(&[0x00; 64]), Err(SerialError::Timeout)));
}

#[test]
fn decoder_reports_frame_on_last_byte() {
    let frame = build_frame(&[0x42, 0x43]).unwrap();
    let mut decoder = FrameDecoder::new();
    for &b in &frame[..frame.len() - 1] {
        assert!(matches!(decoder.feed(b), DecodeStep::Pending));
    }
    match decoder.feed(frame[frame.len() - 1]) {
        DecodeStep::Frame(p) => assert_eq!(p, vec![0x42, 0x43]),
        other => panic!("unexpected {:?}", other),
    }
    // the decoder is hunting again and decodes the next frame
    let next = build_frame(&[0x07]).unwrap();
    let mut last = DecodeStep::Pending;
    for &b in &next {
        last = decoder.feed(b);
    }
    assert!(matches!(last, DecodeStep::Frame(ref p) if p == &vec![0x07]));
}
