use rustmann::{FailureKind, RiemannClientError};

#[test]
fn describe_protocol_error() {
    let e = RiemannClientError::RiemannError("boom".to_string());
    assert_eq!(e.describe(), "Riemann error: boom");
    assert_eq!(e.kind(), None);
}

#[test]
fn describe_io_error() {
    let e = RiemannClientError::IoError(FailureKind::Unsupported, "Unsupported.".to_string());
    assert_eq!(e.describe(), "IO error: Unsupported.");
    assert_eq!(e.kind(), Some(FailureKind::Unsupported));
}

#[test]
fn fatal_kinds() {
    assert!(FailureKind::Io.is_fatal());
    assert!(FailureKind::Codec.is_fatal());
    assert!(!FailureKind::Timeout.is_fatal());
    assert!(!FailureKind::Unsupported.is_fatal());
    assert!(!FailureKind::InvalidInput.is_fatal());
}
