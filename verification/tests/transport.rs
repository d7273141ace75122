use grpc_quic::error::TransportError;
use grpc_quic::transport::{accepted_stream, endpoint_client_config, endpoint_server_config, quic_config};

#[test]
fn accepted_stream_is_none_once_the_connection_is_closed() {
    assert!(accepted_stream::<u8>(Err(quinn::ConnectionError::LocallyClosed)).is_none());
    assert!(accepted_stream::<u8>(Err(quinn::ConnectionError::TimedOut)).is_none());
    assert!(accepted_stream::<u8>(Err(quinn::ConnectionError::Reset)).is_none());
    assert!(accepted_stream::<u8>(Err(quinn::ConnectionError::VersionMismatch)).is_none());
    assert!(matches!(accepted_stream::<u8>(Ok(5)), Some(Ok(5))));
}

fn server_tls() -> grpc_quic::tls::TlsConfig {
    let cert = rcgen::generate_simple_self_signed(vec!["localhost".to_string()]).unwrap();
    grpc_quic::tls::TlsConfig::server_from_pem(cert.cert.pem().as_bytes(), cert.key_pair.serialize_pem().as_bytes())
        .unwrap()
}

fn client_tls(versions: &[&'static rustls::SupportedProtocolVersion]) -> grpc_quic::tls::TlsConfig {
    let provider = std::sync::Arc::new(rustls::crypto::ring::default_provider());
    let config = rustls::ClientConfig::builder_with_provider(provider)
        .with_protocol_versions(versions)
        .unwrap()
        .with_root_certificates(rustls::RootCertStore::empty())
        .with_no_client_auth();
    grpc_quic::tls::TlsConfig::client(config)
}

fn tls_text<C>(r: Result<C, TransportError>) -> String {
    match r {
        Err(TransportError::Tls(m)) => m,
        Err(e) => panic!("expected a TLS error, got {e:?}"),
        Ok(_) => panic!("expected an error"),
    }
}

#[test]
fn endpoints_need_the_matching_side() {
    assert!(endpoint_server_config(&server_tls()).is_ok());
    assert_eq!(tls_text(endpoint_client_config(&server_tls())), "expected client config");
    assert!(endpoint_client_config(&client_tls(&[&rustls::version::TLS13])).is_ok());
    assert_eq!(
        tls_text(endpoint_server_config(&client_tls(&[&rustls::version::TLS13]))),
        "expected server config"
    );
}

#[test]
fn a_configuration_without_tls13_does_not_suit_quic() {
    let mut provider = rustls::crypto::ring::default_provider();
    provider.cipher_suites.retain(|s| s.version() == &rustls::version::TLS12);
    let config = rustls::ClientConfig::builder_with_provider(std::sync::Arc::new(provider))
        .with_protocol_versions(&[&rustls::version::TLS12])
        .unwrap()
        .with_root_certificates(rustls::RootCertStore::empty())
        .with_no_client_auth();
    let m = tls_text(endpoint_client_config(&grpc_quic::tls::TlsConfig::client(config)));
    assert_eq!(m, "no initial cipher suite found");
    assert_eq!(tls_text(quic_config::<()>(Err("no initial cipher suite".to_string()))), "no initial cipher suite");
    assert_eq!(quic_config::<u8>(Ok(3)).unwrap(), 3);
}

#[test]
fn ring_configurations_suit_quic() {
    assert!(endpoint_client_config(&grpc_quic::tls::TlsConfig::client_default()).is_ok());
    assert!(endpoint_server_config(&server_tls()).is_ok());
}

#[test]
fn a_provider_without_the_initial_suite_is_refused_with_its_text() {
    let mut provider = rustls::crypto::ring::default_provider();
    provider.cipher_suites.retain(|s| s.suite() != rustls::CipherSuite::TLS13_AES_128_GCM_SHA256);
    let config = rustls::ClientConfig::builder_with_provider(std::sync::Arc::new(provider))
        .with_protocol_versions(&[&rustls::version::TLS13])
        .unwrap()
        .with_root_certificates(rustls::RootCertStore::empty())
        .with_no_client_auth();
    let m = tls_text(endpoint_client_config(&grpc_quic::tls::TlsConfig::client(config)));
    assert_eq!(m, "no initial cipher suite found");
}
