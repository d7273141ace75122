use grpc_quic::channel::{choose_remote, first_resolved, RemoteChoice, DEFAULT_CONCURRENCY_LIMIT};
use grpc_quic::error::ClientError;

/// An IPv4 socket address as its octets and port.
type SocketAddr = ([u8; 4], u16);

#[test]
fn a_socket_address_is_used_as_it_is() {
    let addr: SocketAddr = ([127, 0, 0, 1], 50051);
    match choose_remote("127.0.0.1:50051", Some(addr), true) {
        RemoteChoice::Address(a) => assert_eq!(a, addr),
        _ => panic!("expected the parsed address"),
    }
}

#[test]
fn a_service_name_goes_to_the_resolver() {
    assert!(matches!(choose_remote::<SocketAddr>("my-service", None, true), RemoteChoice::Resolve));
    match choose_remote::<SocketAddr>("my-service", None, false) {
        RemoteChoice::Fail(ClientError::RequestBuild(m)) => {
            assert_eq!(m, "invalid address and no resolver configured: my-service")
        }
        _ => panic!("expected a RequestBuild error"),
    }
}

#[test]
fn the_first_resolved_address_is_used() {
    let a: SocketAddr = ([10, 0, 0, 1], 1);
    let b: SocketAddr = ([10, 0, 0, 2], 2);
    assert_eq!(first_resolved("svc", vec![a, b]).unwrap(), a);
    match first_resolved::<SocketAddr>("svc", vec![]) {
        Err(ClientError::RequestBuild(m)) => assert_eq!(m, "resolver returned no addresses for: svc"),
        _ => panic!("expected a RequestBuild error"),
    }
}

#[test]
fn default_concurrency_limit() {
    assert_eq!(DEFAULT_CONCURRENCY_LIMIT, 256);
}
