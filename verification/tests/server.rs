use std::sync::Arc;
use std::time::Duration;

use grpc_quic::error::{ServerError, TransportError};
use grpc_quic::server::{
    serve_action, ConnectionAction, ConnectionEvent, ConnectionRequests, QuicServer, ServeAction, ServeEvent,
    SERVICE_FAILURE_STATUS,
};
use grpc_quic::tls::TlsConfig;

fn server_tls() -> TlsConfig {
    let cert = rcgen::generate_simple_self_signed(vec!["localhost".to_string()]).unwrap();
    let cert_der = rustls::pki_types::CertificateDer::from(cert.cert.der().to_vec());
    let key_der = rustls::pki_types::PrivateKeyDer::Pkcs8(rustls::pki_types::PrivatePkcs8KeyDer::from(
        cert.key_pair.serialize_der(),
    ));
    let provider = Arc::new(rustls::crypto::ring::default_provider());
    let config = rustls::ServerConfig::builder_with_provider(provider)
        .with_protocol_versions(&[&rustls::version::TLS13])
        .unwrap()
        .with_no_client_auth()
        .with_single_cert(vec![cert_der], key_der)
        .unwrap();
    TlsConfig::server(config)
}

#[test]
fn server_builder_defaults() {
    let server = QuicServer::builder().build();
    assert!(server.tls.is_none());
    assert_eq!(server.max_concurrent_streams, 256);
    assert_eq!(server.graceful_timeout, Duration::from_secs(30));
}

#[test]
fn server_builder_settings() {
    let server = QuicServer::builder()
        .max_concurrent_streams(8)
        .graceful_timeout(Duration::from_millis(1500))
        .tls(server_tls())
        .build();
    assert_eq!(server.max_concurrent_streams, 8);
    assert_eq!(server.graceful_timeout, Duration::from_millis(1500));
    assert!(server.tls_for_serving().unwrap().server_config().is_ok());
}

#[test]
fn serving_requires_tls() {
    let server = QuicServer::builder().build();
    match server.tls_for_serving() {
        Err(ServerError::Transport(TransportError::Tls(m))) => assert_eq!(m, "TLS config is required"),
        _ => panic!("expected a TLS error"),
    }
}

#[test]
fn accept_loop_decisions() {
    assert!(matches!(serve_action(ServeEvent::Shutdown), ServeAction::RejectNewAndStop));
    assert!(matches!(serve_action(ServeEvent::EndpointClosed), ServeAction::Stop));
    assert!(matches!(serve_action(ServeEvent::AcceptFailed), ServeAction::Skip));
    assert!(matches!(serve_action(ServeEvent::Accepted), ServeAction::ServeConnection));
    match serve_action(ServeEvent::DrainTimedOut) {
        ServeAction::CloseEndpoint { error_code, reason } => {
            assert_eq!(error_code, 0);
            assert_eq!(reason, "shutdown timeout");
        }
        _ => panic!("a drain that timed out closes the endpoint"),
    }
}

#[test]
fn request_loop_decisions() {
    let mut requests = ConnectionRequests::new(4);
    assert!(matches!(requests.step(ConnectionEvent::Cancelled), ConnectionAction::ShutdownAndStop));
    assert!(matches!(requests.step(ConnectionEvent::NoMoreRequests), ConnectionAction::Stop));
    assert!(matches!(requests.step(ConnectionEvent::AcceptFailed), ConnectionAction::Stop));
    assert!(matches!(requests.step(ConnectionEvent::ResolveFailed), ConnectionAction::Skip));
    assert!(matches!(requests.step(ConnectionEvent::Request), ConnectionAction::HandleRequest));
}

#[test]
fn a_connection_runs_at_most_its_limit_of_handlers() {
    let mut requests = ConnectionRequests::new(2);
    assert!(matches!(requests.step(ConnectionEvent::Request), ConnectionAction::HandleRequest));
    assert!(matches!(requests.step(ConnectionEvent::Request), ConnectionAction::HandleRequest));
    assert!(matches!(requests.step(ConnectionEvent::Request), ConnectionAction::DropOverloaded));
    assert!(matches!(requests.step(ConnectionEvent::HandlerFinished), ConnectionAction::Skip));
    assert!(matches!(requests.step(ConnectionEvent::Request), ConnectionAction::HandleRequest));
    assert!(matches!(requests.step(ConnectionEvent::Request), ConnectionAction::DropOverloaded));
    let mut none = ConnectionRequests::new(0);
    assert!(matches!(none.step(ConnectionEvent::Request), ConnectionAction::DropOverloaded));
    assert!(matches!(none.step(ConnectionEvent::HandlerFinished), ConnectionAction::Skip));
    assert!(matches!(none.step(ConnectionEvent::Request), ConnectionAction::DropOverloaded));
}

#[test]
fn a_failed_service_is_answered_with_500() {
    assert_eq!(SERVICE_FAILURE_STATUS, 500);
}
