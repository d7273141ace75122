use grpc_quic::call::{
    deadline_exceeded, grpc_request_headers, request_uri, AfterFailure, AttemptFailure, AttemptStart, CallAttempts,
};
use grpc_quic::error::ClientError;

#[test]
fn call_attempts_back_off_before_each_retry() {
    let mut call = CallAttempts::new(3);
    assert!(matches!(call.begin(), AttemptStart::Attempt { backoff_index: None }));
    assert!(matches!(call.fail(AttemptFailure::Connect("a".to_string())), AfterFailure::InvalidateAndRetry));
    assert!(matches!(call.begin(), AttemptStart::Attempt { backoff_index: Some(0) }));
    assert!(matches!(call.fail(AttemptFailure::Send("b".to_string())), AfterFailure::InvalidateAndRetry));
    assert!(matches!(call.begin(), AttemptStart::Attempt { backoff_index: Some(1) }));
    let last = "transport error: connection refused";
    assert!(matches!(call.fail(AttemptFailure::Connect(last.to_string())), AfterFailure::InvalidateAndRetry));
    match call.begin() {
        AttemptStart::GiveUp(ClientError::RetriesExhausted { attempts, last_error }) => {
            assert_eq!(attempts, 3);
            assert_eq!(last_error, last);
        }
        _ => panic!("expected RetriesExhausted with the last attempt's error"),
    }
}

#[test]
fn call_attempts_with_no_attempt_report_exhaustion() {
    let mut call = CallAttempts::new(0);
    match call.begin() {
        AttemptStart::GiveUp(ClientError::RetriesExhausted { attempts, last_error }) => {
            assert_eq!(attempts, 0);
            assert_eq!(last_error, "no error captured");
        }
        _ => panic!("expected RetriesExhausted"),
    }
}

#[test]
fn call_attempts_do_not_retry_response_failures() {
    let mut call = CallAttempts::new(5);
    assert!(matches!(call.begin(), AttemptStart::Attempt { backoff_index: None }));
    match call.fail(AttemptFailure::Response(ClientError::Closed)) {
        AfterFailure::Fail(ClientError::Closed) => {}
        _ => panic!("a response failure ends the call"),
    }
    match call.fail(AttemptFailure::BuildRequest("bad uri".to_string())) {
        AfterFailure::Fail(ClientError::RequestBuild(m)) => assert_eq!(m, "bad uri"),
        _ => panic!("a request that cannot be built ends the call"),
    }
}

#[test]
fn deadline_error_text() {
    match deadline_exceeded() {
        ClientError::RequestBuild(m) => assert_eq!(m, "DeadlineExceeded"),
        _ => panic!("expected RequestBuild"),
    }
}

#[test]
fn request_uri_uses_authority_or_server_name() {
    assert_eq!(
        request_uri(Some("example.com:443".to_string()), "ignored", "/svc/Method"),
        "https://example.com:443/svc/Method"
    );
    assert_eq!(request_uri(None, "localhost", "/helloworld.Greeter/SayHello"), "https://localhost/helloworld.Greeter/SayHello");
}

#[test]
fn requests_carry_the_grpc_headers() {
    assert_eq!(grpc_request_headers(), vec![("content-type", "application/grpc"), ("te", "trailers")]);
}

#[test]
fn the_grpc_headers_replace_the_calls_own() {
    assert!(!grpc_quic::call::keeps_header("content-type"));
    assert!(!grpc_quic::call::keeps_header("te"));
    assert!(grpc_quic::call::keeps_header("grpc-timeout"));
    assert!(grpc_quic::call::keeps_header("authorization"));
    assert!(grpc_quic::call::keeps_header("content-length"));
}
