use vscope_serial::error::{IoErrorKind, PortErrorKind, SerialError};

#[test]
fn port_kinds_classify() {
    let text = || "COM9".to_string();
    assert!(matches!(
        SerialError::from_port_kind(PortErrorKind::NoDevice, text()),
        SerialError::PortNotFound { path } if path == "COM9"
    ));
    assert!(matches!(
        SerialError::from_port_kind(PortErrorKind::Io(IoErrorKind::PermissionDenied), text()),
        SerialError::PortBusy { path } if path == "COM9"
    ));
    assert!(matches!(
        SerialError::from_port_kind(PortErrorKind::Io(IoErrorKind::TimedOut), text()),
        SerialError::Timeout
    ));
    assert!(matches!(
        SerialError::from_port_kind(PortErrorKind::InvalidInput, text()),
        SerialError::InvalidConfig { message } if message == "COM9"
    ));
    assert!(matches!(
        SerialError::from_port_kind(PortErrorKind::Unknown, text()),
        SerialError::IoError { message } if message == "COM9"
    ));
    assert!(matches!(
        SerialError::from_port_kind(PortErrorKind::Io(IoErrorKind::Other), text()),
        SerialError::IoError { .. }
    ));
}

#[test]
fn io_kinds_classify() {
    assert!(matches!(
        SerialError::from_io_kind(IoErrorKind::TimedOut, "t".to_string()),
        SerialError::Timeout
    ));
    assert!(matches!(
        SerialError::from_io_kind(IoErrorKind::Other, "broken".to_string()),
        SerialError::IoError { message } if message == "broken"
    ));
}
