use tls_api::{BoxedCause, Cause, Error, IoError, IoErrorKind};

/// A cause with a chain below it, as an implementation's error would have.
struct DecodeFailed {
    offset: usize,
}

// The four views are ghost; their bodies are never run.
impl Cause for DecodeFailed {
    fn message_view(&self) -> tls_api::error::Text {
        unreachable!()
    }

    fn debug_view(&self) -> tls_api::error::Text {
        unreachable!()
    }

    fn chain_view(&self) -> tls_api::error::Chain {
        unreachable!()
    }

    fn io_kind_view(&self) -> Option<IoErrorKind> {
        unreachable!()
    }

    fn message(&self) -> String {
        format!("bad record at offset {}", self.offset)
    }

    fn debug_text(&self) -> String {
        format!("DecodeFailed {{ offset: {} }}", self.offset)
    }

    fn sources(&self) -> Vec<String> {
        vec!["unexpected end of input".to_string(), "connection reset".to_string()]
    }

    fn io_kind(&self) -> Option<IoErrorKind> {
        None
    }
}

fn is_send<T: Send>() {}

fn is_sync<T: Sync>() {}

#[test]
fn new_keeps_what_the_cause_reports() {
    let err = Error::new(DecodeFailed { offset: 7 });
    assert_eq!(err.message(), "bad record at offset 7");
    assert_eq!(err.debug_text(), "DecodeFailed { offset: 7 }");
    assert_eq!(err.sources(), vec!["unexpected end of input".to_string(), "connection reset".to_string()]);
}

#[test]
fn source_is_the_nearest_cause() {
    let err = Error::new(DecodeFailed { offset: 1 });
    assert_eq!(err.source(), Some("unexpected end of input".to_string()));
}

#[test]
fn source_of_a_plain_message_is_none() {
    let err = Error::new_other("handshake refused");
    assert_eq!(err.source(), None);
    assert_eq!(err.sources(), Vec::<String>::new());
}

#[test]
fn new_other_carries_the_message() {
    let err = Error::new_other("handshake refused");
    assert_eq!(err.message(), "handshake refused");
}

#[test]
fn new_other_is_an_io_error_of_kind_other() {
    let err = Error::new_other("boom");
    assert_eq!(err.message(), "boom");
    assert_eq!(err.source(), None);
    assert_eq!(err.io_kind(), Some(IoErrorKind::Other));
    assert_eq!(err.into_inner().io_kind(), Some(IoErrorKind::Other));
}

#[test]
fn new_other_shows_a_developer_the_kind_and_the_quoted_message() {
    let err = Error::new_other("handshake refused");
    assert_eq!(err.debug_text(), "Custom { kind: Other, error: \"handshake refused\" }");
    let err = Error::new_other("two\nlines \"quoted\"");
    assert_eq!(
        err.debug_text(),
        "Custom { kind: Other, error: \"two\\nlines \\\"quoted\\\"\" }"
    );
}

#[test]
fn an_error_of_another_sort_has_no_io_kind() {
    let err = Error::new(DecodeFailed { offset: 7 });
    assert_eq!(err.io_kind(), None);
    let err = Error::new("plain".to_string());
    assert_eq!(err.io_kind(), None);
}

#[test]
fn every_kind_has_its_name() {
    assert_eq!(IoErrorKind::NotFound.name(), "NotFound");
    assert_eq!(IoErrorKind::PermissionDenied.name(), "PermissionDenied");
    assert_eq!(IoErrorKind::ConnectionRefused.name(), "ConnectionRefused");
    assert_eq!(IoErrorKind::ConnectionReset.name(), "ConnectionReset");
    assert_eq!(IoErrorKind::ConnectionAborted.name(), "ConnectionAborted");
    assert_eq!(IoErrorKind::NotConnected.name(), "NotConnected");
    assert_eq!(IoErrorKind::AddrInUse.name(), "AddrInUse");
    assert_eq!(IoErrorKind::AddrNotAvailable.name(), "AddrNotAvailable");
    assert_eq!(IoErrorKind::BrokenPipe.name(), "BrokenPipe");
    assert_eq!(IoErrorKind::AlreadyExists.name(), "AlreadyExists");
    assert_eq!(IoErrorKind::WouldBlock.name(), "WouldBlock");
    assert_eq!(IoErrorKind::InvalidInput.name(), "InvalidInput");
    assert_eq!(IoErrorKind::InvalidData.name(), "InvalidData");
    assert_eq!(IoErrorKind::TimedOut.name(), "TimedOut");
    assert_eq!(IoErrorKind::WriteZero.name(), "WriteZero");
    assert_eq!(IoErrorKind::Interrupted.name(), "Interrupted");
    assert_eq!(IoErrorKind::UnexpectedEof.name(), "UnexpectedEof");
    assert_eq!(IoErrorKind::Other.name(), "Other");
}

#[test]
fn new_other_accepts_an_empty_message() {
    let err = Error::new_other("");
    assert_eq!(err.message(), "");
    assert_eq!(err.source(), None);
}

#[test]
fn a_string_is_a_cause_of_its_own() {
    let err = Error::new("plain".to_string());
    assert_eq!(err.message(), "plain");
    assert_eq!(err.debug_text(), "\"plain\"");
    assert_eq!(err.sources(), Vec::<String>::new());
}

#[test]
fn into_inner_gives_the_cause_back() {
    let err = Error::new(DecodeFailed { offset: 3 });
    let cause: BoxedCause = err.into_inner();
    assert_eq!(cause.message(), "bad record at offset 3");
    assert_eq!(cause.debug_text(), "DecodeFailed { offset: 3 }");
    assert_eq!(cause.sources().len(), 2);
}

#[test]
fn boxed_cause_reports_what_its_cause_reports() {
    let cause = BoxedCause::new(DecodeFailed { offset: 9 });
    assert_eq!(cause.message(), "bad record at offset 9");
    assert_eq!(cause.sources()[1], "connection reset");
}

#[test]
fn io_error_keeps_its_kind_and_its_cause() {
    let io = IoError::new(IoErrorKind::ConnectionReset, DecodeFailed { offset: 2 });
    assert_eq!(io.kind(), IoErrorKind::ConnectionReset);
    assert_eq!(io.io_kind(), Some(IoErrorKind::ConnectionReset));
    assert_eq!(io.message(), "bad record at offset 2");
    assert_eq!(io.debug_text(), "Custom { kind: ConnectionReset, error: DecodeFailed { offset: 2 } }");
    assert_eq!(io.sources().len(), 2);
    let cause = io.into_inner();
    assert_eq!(cause.debug_text(), "DecodeFailed { offset: 2 }");
}

#[test]
fn error_from_io_error_loses_nothing_of_the_report() {
    let io = IoError::new(IoErrorKind::BrokenPipe, DecodeFailed { offset: 4 });
    let err = Error::from(io);
    assert_eq!(err.message(), "bad record at offset 4");
    assert_eq!(err.debug_text(), "Custom { kind: BrokenPipe, error: DecodeFailed { offset: 4 } }");
    assert_eq!(err.io_kind(), Some(IoErrorKind::BrokenPipe));
    assert_eq!(err.source(), Some("unexpected end of input".to_string()));
}

#[test]
fn io_error_from_error_is_of_kind_other() {
    let err = Error::new(IoError::new(IoErrorKind::TimedOut, "too slow".to_string()));
    let io = IoError::from(err);
    assert_eq!(io.kind(), IoErrorKind::Other);
    assert_eq!(io.io_kind(), Some(IoErrorKind::Other));
    assert_eq!(io.message(), "too slow");
    assert_eq!(
        io.debug_text(),
        "Custom { kind: Other, error: Custom { kind: TimedOut, error: \"too slow\" } }"
    );
}

#[test]
fn cause_chain_survives_the_round_trip() {
    let io = IoError::new(IoErrorKind::InvalidData, DecodeFailed { offset: 5 });
    let chain = io.sources();
    let back = IoError::from(Error::from(io));
    assert_eq!(back.sources(), chain);
    assert_eq!(back.message(), "bad record at offset 5");
    assert_eq!(back.kind(), IoErrorKind::Other);
    let again = Error::from(back);
    assert_eq!(again.sources(), chain);
}

#[test]
fn into_conversions_agree_with_from() {
    let err: Error = IoError::new(IoErrorKind::NotFound, "missing".to_string()).into();
    let io: IoError = err.into();
    assert_eq!(io.kind(), IoErrorKind::Other);
    assert_eq!(io.message(), "missing");
}

#[test]
fn errors_can_cross_threads() {
    is_send::<Error>();
    is_sync::<Error>();
    is_send::<IoError>();
    is_sync::<IoError>();
    is_send::<BoxedCause>();
    is_sync::<BoxedCause>();
}
