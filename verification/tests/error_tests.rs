use transport_bridge::errors::{classify_error, HostError, IoErrorKind};

#[test]
fn timeout_is_classified_distinctly() {
    assert_eq!(classify_error(IoErrorKind::TimedOut), HostError::SocketTimeout);
}

#[test]
fn other_errors_become_generic_os_errors() {
    assert_eq!(
        classify_error(IoErrorKind::Other),
        HostError::OsError(IoErrorKind::Other)
    );
    assert_ne!(classify_error(IoErrorKind::Other), HostError::SocketTimeout);
}
