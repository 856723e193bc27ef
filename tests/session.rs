use tls_echo::{
    classify_read_failure, ConnectionOutcome, EchoAction, EchoSession, FailureReason, Phase,
    ReadFailure,
};

fn established() -> EchoSession {
    let mut s = EchoSession::new();
    assert!(matches!(s.handshake_finished(true), EchoAction::Read));
    assert_eq!(s.phase(), Phase::Reading);
    s
}

fn written(a: EchoAction) -> Vec<u8> {
    match a {
        EchoAction::Write(v) => v,
        other => panic!("expected a write, got {:?}", other),
    }
}

#[test]
fn delimiter_consumed_exactly_once() {
    let mut s = established();
    let out = written(s.on_data(b"abcde\nhehe\n\0"));
    assert_eq!(out, b"abcde\nhehe\n\0".to_vec());
    assert_eq!(s.phase(), Phase::Writing);
    assert_eq!(s.write_finished(true), ConnectionOutcome::Completed);
    assert_eq!(s.outcome(), Some(ConnectionOutcome::Completed));
}

#[test]
fn round_trip_over_several_reads() {
    let mut s = established();
    assert!(matches!(s.on_data(b"hel"), EchoAction::Read));
    assert!(matches!(s.on_data(b""), EchoAction::Read));
    assert!(matches!(s.on_data(b"lo wor"), EchoAction::Read));
    let out = written(s.on_data(b"ld\0"));
    assert_eq!(out, b"hello world\0".to_vec());
}

#[test]
fn round_trip_of_bare_sentinel() {
    let mut s = established();
    assert_eq!(written(s.on_data(&[0])), vec![0u8]);
}

#[test]
fn bytes_after_sentinel_are_not_echoed() {
    let mut s = established();
    let out = written(s.on_data(b"ab\0cd\0ef"));
    assert_eq!(out, b"ab\0".to_vec());
}

#[test]
fn all_byte_values_but_sentinel_round_trip() {
    let mut s = established();
    let mut payload: Vec<u8> = (1u8..=255).collect();
    payload.push(0);
    assert_eq!(written(s.on_data(&payload)), payload);
}

#[test]
fn departure_before_any_byte_is_graceful() {
    let mut s = established();
    assert!(matches!(s.on_end(), EchoAction::Close(ConnectionOutcome::GracefullyClosed)));
    assert_eq!(s.phase(), Phase::Closed);

    let mut s = established();
    let a = s.on_read_failure(ReadFailure::ConnectionReset);
    assert!(matches!(a, EchoAction::Close(ConnectionOutcome::GracefullyClosed)));
    assert_eq!(s.outcome(), Some(ConnectionOutcome::GracefullyClosed));

    let mut s = established();
    let a = s.on_read_failure(ReadFailure::UnexpectedEof);
    assert!(matches!(a, EchoAction::Close(ConnectionOutcome::GracefullyClosed)));
}

#[test]
fn reset_after_partial_frame_fails() {
    let mut s = established();
    assert!(matches!(s.on_data(b"abc"), EchoAction::Read));
    let a = s.on_read_failure(ReadFailure::ConnectionReset);
    assert!(matches!(a, EchoAction::Close(ConnectionOutcome::Failed(FailureReason::ResetMidFrame))));
}

#[test]
fn other_read_failure_fails() {
    let mut s = established();
    let a = s.on_read_failure(ReadFailure::Other);
    assert!(matches!(a, EchoAction::Close(ConnectionOutcome::Failed(FailureReason::Read))));
}

#[test]
fn clean_end_after_partial_frame_echoes_it() {
    let mut s = established();
    assert!(matches!(s.on_data(b"xyz"), EchoAction::Read));
    assert_eq!(written(s.on_end()), b"xyz".to_vec());
}

#[test]
fn failed_handshake_closes() {
    let mut s = EchoSession::new();
    assert_eq!(s.phase(), Phase::Handshaking);
    let a = s.handshake_finished(false);
    assert!(matches!(a, EchoAction::Close(ConnectionOutcome::Failed(FailureReason::Handshake))));
    assert_eq!(s.phase(), Phase::Closed);
}

#[test]
fn failed_write_fails() {
    let mut s = established();
    written(s.on_data(b"q\0"));
    assert_eq!(s.write_finished(false), ConnectionOutcome::Failed(FailureReason::Write));
}

#[test]
fn read_failures_are_classified() {
    assert_eq!(classify_read_failure(ReadFailure::ConnectionReset, 0), ConnectionOutcome::GracefullyClosed);
    assert_eq!(
        classify_read_failure(ReadFailure::ConnectionReset, 4),
        ConnectionOutcome::Failed(FailureReason::ResetMidFrame)
    );
    assert_eq!(classify_read_failure(ReadFailure::Other, 0), ConnectionOutcome::Failed(FailureReason::Read));
    assert!(ConnectionOutcome::GracefullyClosed.is_benign());
    assert!(ConnectionOutcome::Completed.is_benign());
    assert!(!ConnectionOutcome::Failed(FailureReason::Write).is_benign());
}
