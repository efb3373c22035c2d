use vscope_serial::error::SerialError;
use vscope_serial::frame::build_frame;
use vscope_serial::reader::{FrameReader, FRAME_READ_TIMEOUT_MS};

#[test]
fn deadline_uses_port_timeout() {
    let reader = FrameReader::start(1000, 250);
    assert_eq!(reader.deadline_ms(), 1250);
    assert!(reader.check_deadline(1249).is_ok());
    assert!(matches!(reader.check_deadline(1250), Err(SerialError::Timeout)));
}

#[test]
fn zero_timeout_falls_back_to_default() {
    let reader = FrameReader::start(5, 0);
    assert_eq!(reader.deadline_ms(), 5 + FRAME_READ_TIMEOUT_MS);
    assert_eq!(FRAME_READ_TIMEOUT_MS, 100);
}

#[test]
fn deadline_saturates_at_clock_end() {
    let reader = FrameReader::start(u64::MAX - 10, 100);
    assert_eq!(reader.deadline_ms(), u64::MAX);
}

#[test]
fn silent_source_ends_at_deadline() {
    let mut reader = FrameReader::start(0, 50);
    let mut now = 0u64;
    let outcome = loop {
        if let Err(e) = reader.check_deadline(now) {
            break Err(e);
        }
        if let Some(result) = reader.on_byte(0x55) {
            break result;
        }
        now += 1;
    };
    assert!(matches!(outcome, Err(SerialError::Timeout)));
    assert_eq!(now, 50);
}

#[test]
fn reader_returns_payload_and_mismatch() {
    let frame = build_frame(&[0x09, 0x08]).unwrap();
    let mut reader = FrameReader::start(0, 100);
    let mut result = None;
    for &b in &frame {
        result = reader.on_byte(b);
    }
    assert_eq!(result.unwrap().unwrap(), vec![0x09, 0x08]);

    let mut bad = frame.clone();
    let last = bad.len() - 1;
    bad[last] = bad[last].wrapping_add(1);
    let mut reader = FrameReader::start(0, 100);
    let mut result = None;
    for &b in &bad {
        result = reader.on_byte(b);
    }
    assert!(matches!(result, Some(Err(SerialError::CrcMismatch))));
}
