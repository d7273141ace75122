use grpc_quic::discovery::StaticResolver;

/// An IPv4 socket address as its octets and port.
type Addr = ([u8; 4], u16);

#[test]
fn static_resolver_finds_known_service() {
    let addr: Addr = ([127, 0, 0, 1], 50051);
    let resolver = StaticResolver::new(vec![("svc-a".to_string(), addr)]);
    let result = resolver.resolve("svc-a");
    assert_eq!(result, vec![addr]);
}

#[test]
fn static_resolver_returns_empty_for_unknown() {
    let resolver = StaticResolver::<Addr>::default();
    assert!(resolver.resolve("unknown").is_empty());
}

#[test]
fn static_resolver_keeps_list_order_and_duplicates() {
    let a: Addr = ([10, 0, 0, 1], 1);
    let b: Addr = ([10, 0, 0, 2], 2);
    let c: Addr = ([10, 0, 0, 3], 3);
    let resolver = StaticResolver::new(vec![
        ("svc".to_string(), b),
        ("other".to_string(), c),
        ("svc".to_string(), a),
        ("svc".to_string(), b),
    ]);
    assert_eq!(resolver.resolve("svc"), vec![b, a, b]);
    assert_eq!(resolver.resolve("other"), vec![c]);
    assert!(resolver.resolve("sv").is_empty());
    assert!(resolver.resolve("svc ").is_empty());
}

#[test]
fn static_resolver_names_are_exact_text() {
    let resolver = StaticResolver::new(vec![("café".to_string(), 7u32), ("cafe".to_string(), 8u32)]);
    assert_eq!(resolver.resolve("café"), vec![7]);
    assert_eq!(resolver.resolve("cafe"), vec![8]);
    assert!(resolver.resolve("").is_empty());
}
