use deno_http::error::{should_ignore_error, Cause, EngineError, HttpError, IoErrorKind};

#[test]
fn not_connected_is_ignored() {
    let e = EngineError { sources: vec![Cause::Io(IoErrorKind::NotConnected)] };
    assert!(should_ignore_error(&e));
}

#[test]
fn other_io_errors_are_not_ignored() {
    for kind in [
        IoErrorKind::ConnectionReset,
        IoErrorKind::ConnectionAborted,
        IoErrorKind::BrokenPipe,
        IoErrorKind::UnexpectedEof,
        IoErrorKind::TimedOut,
        IoErrorKind::Other,
    ] {
        let e = EngineError { sources: vec![Cause::Io(kind)] };
        assert!(!should_ignore_error(&e));
    }
}

#[test]
fn errors_without_io_source_are_not_ignored() {
    assert!(!should_ignore_error(&EngineError { sources: vec![] }));
    assert!(!should_ignore_error(&EngineError { sources: vec![Cause::Other, Cause::Other] }));
}

#[test]
fn not_connected_anywhere_in_the_chain_is_ignored() {
    let e = EngineError {
        sources: vec![Cause::Other, Cause::Io(IoErrorKind::BrokenPipe), Cause::Io(IoErrorKind::NotConnected)],
    };
    assert!(should_ignore_error(&e));
}

#[test]
fn errors_have_messages() {
    assert_eq!(HttpError::BadResource.message(), "Bad resource ID");
    assert_eq!(HttpError::NullBuffer.message(), "expected non-null op buffer arg");
    assert_eq!(HttpError::Communication.message(), "internal communication error");
    assert_eq!(HttpError::Cancelled.message(), "operation canceled");
    assert_eq!(HttpError::Transport.message(), "connection error");
    assert_eq!(HttpError::Busy.message(), "resource is busy");
    assert_eq!(HttpError::InvalidHead.message(), "invalid response head");
    assert_eq!(HttpError::HostNotText.message(), "failed to convert header to a str");
}
