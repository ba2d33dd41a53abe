use explora::filesystem::{ExplorerError, ExplorerErrorCode, ExplorerErrorDto, IoErrorKind};

#[test]
fn maps_filesystem_errors_to_stable_ipc_codes() {
    let cases = [
        (IoErrorKind::NotFound, ExplorerErrorCode::NotFound),
        (IoErrorKind::PermissionDenied, ExplorerErrorCode::PermissionDenied),
        (IoErrorKind::NotADirectory, ExplorerErrorCode::NotDirectory),
    ];
    for (kind, expected) in cases {
        let error = ExplorerError::Io { message: "fixture error".to_owned(), kind };
        assert_eq!(ExplorerErrorDto::from(error).code, expected);
    }
}

#[test]
fn other_io_failures_are_unexpected() {
    let error = ExplorerError::Io { message: "busy".to_owned(), kind: IoErrorKind::Other };
    let dto = ExplorerErrorDto::from(error);
    assert_eq!(dto.code, ExplorerErrorCode::Unexpected);
    assert_eq!(dto.message, "busy");
}

#[test]
fn every_variant_keeps_its_code_and_message() {
    let cases = vec![
        (ExplorerError::InvalidReference, ExplorerErrorCode::InvalidReference, "This filesystem reference is no longer valid."),
        (ExplorerError::Cancelled, ExplorerErrorCode::Cancelled, "The request was cancelled."),
        (ExplorerError::StateUnavailable, ExplorerErrorCode::Unexpected, "Explora's filesystem state is unavailable."),
        (ExplorerError::ChannelClosed, ExplorerErrorCode::Unexpected, "The response channel closed unexpectedly."),
        (ExplorerError::Offline("off".to_owned()), ExplorerErrorCode::Offline, "off"),
        (ExplorerError::AuthenticationFailed("auth".to_owned()), ExplorerErrorCode::AuthenticationFailed, "auth"),
        (ExplorerError::HostKeyFailure("key".to_owned()), ExplorerErrorCode::HostKeyFailure, "key"),
        (ExplorerError::Unsupported("no".to_owned()), ExplorerErrorCode::Unsupported, "no"),
        (ExplorerError::InvalidConfiguration("cfg".to_owned()), ExplorerErrorCode::InvalidConfiguration, "cfg"),
        (ExplorerError::Unexpected("boom".to_owned()), ExplorerErrorCode::Unexpected, "boom"),
        (ExplorerError::TimedOut("slow".to_owned()), ExplorerErrorCode::TimedOut, "slow"),
    ];
    for (error, code, message) in cases {
        assert_eq!(error.code(), code);
        assert_eq!(error.message(), message);
        let dto = ExplorerErrorDto::from(error);
        assert_eq!(dto.code, code);
        assert_eq!(dto.message, message);
    }
}

#[test]
fn io_errors_name_the_action_and_the_path() {
    let error = ExplorerError::io("read", "/tmp/a", "denied", IoErrorKind::PermissionDenied);
    assert_eq!(error.message(), "Explora could not read /tmp/a: denied");
    assert_eq!(error.code(), ExplorerErrorCode::PermissionDenied);
}
