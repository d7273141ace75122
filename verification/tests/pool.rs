use std::sync::Arc;

use grpc_quic::pool::{ConnectionTable, Lookup, PoolEntry};

type Table = ConnectionTable<u64, PoolEntry<()>, u32>;

#[test]
fn first_caller_connects_and_later_callers_wait() {
    let mut table: Table = ConnectionTable::new();
    assert!(matches!(table.lookup(1, 10), Lookup::Connect));
    assert!(matches!(table.lookup(1, 11), Lookup::Wait));
    assert!(matches!(table.lookup(2, 20), Lookup::Connect));
    assert!(matches!(table.lookup(1, 12), Lookup::Wait));
    assert_eq!(table.complete(&1, None), vec![10, 11, 12]);
    assert_eq!(table.complete(&2, None), vec![20]);
}

#[test]
fn failed_connection_leaves_no_slot() {
    let mut table: Table = ConnectionTable::new();
    assert!(matches!(table.lookup(7, 1), Lookup::Connect));
    assert_eq!(table.complete(&7, None), vec![1]);
    assert!(table.complete(&7, None).is_empty());
    assert!(matches!(table.lookup(7, 2), Lookup::Connect));
}

#[test]
fn invalidate_keeps_connecting_slots() {
    let mut table: Table = ConnectionTable::new();
    assert!(matches!(table.lookup(3, 1), Lookup::Connect));
    table.invalidate(&3);
    table.invalidate(&4);
    assert!(matches!(table.lookup(3, 2), Lookup::Wait));
    assert_eq!(table.complete(&3, None), vec![1, 2]);
}

#[test]
fn an_open_established_connection_is_reused() {
    let mut table: ConnectionTable<u64, String, u32> = ConnectionTable::new();
    assert!(matches!(table.lookup_given(9, 1, true), Lookup::Connect));
    assert!(matches!(table.lookup_given(9, 2, true), Lookup::Wait));
    assert_eq!(table.complete(&9, Some(Arc::new("conn-a".to_string()))), vec![1, 2]);
    assert_eq!(table.ready(&9).as_deref().map(String::as_str), Some("conn-a"));
    match table.lookup_given(9, 3, true) {
        Lookup::Reuse(e) => assert_eq!(e.as_str(), "conn-a"),
        _ => panic!("an open connection is reused"),
    }
    assert!(table.ready(&10).is_none());
    assert!(table.complete(&9, None).is_empty());
    assert!(table.ready(&9).is_none());
}

#[test]
fn a_closed_established_connection_is_replaced() {
    let mut table: ConnectionTable<u64, String, u32> = ConnectionTable::new();
    assert!(matches!(table.lookup_given(4, 1, true), Lookup::Connect));
    table.complete(&4, Some(Arc::new("old".to_string())));
    assert!(matches!(table.lookup_given(4, 2, false), Lookup::Connect));
    assert!(table.ready(&4).is_none());
    assert!(matches!(table.lookup_given(4, 3, true), Lookup::Wait));
    assert_eq!(table.complete(&4, Some(Arc::new("new".to_string()))), vec![2, 3]);
    assert_eq!(table.ready(&4).as_deref().map(String::as_str), Some("new"));
}

#[test]
fn invalidate_drops_only_closed_ready_slots() {
    let mut table: ConnectionTable<u64, String, u32> = ConnectionTable::new();
    assert!(matches!(table.lookup_given(5, 1, true), Lookup::Connect));
    table.complete(&5, Some(Arc::new("c".to_string())));
    table.invalidate_given(&5, false);
    assert!(table.ready(&5).is_some());
    table.invalidate_given(&5, true);
    assert!(table.ready(&5).is_none());
    assert!(matches!(table.lookup_given(5, 2, true), Lookup::Connect));
    table.invalidate_given(&5, true);
    assert!(matches!(table.lookup_given(5, 3, true), Lookup::Wait));
}

#[test]
fn every_waiter_is_told_the_same_outcome() {
    let entry = Arc::new("conn".to_string());
    let told = grpc_quic::pool::hand_out(vec![1u32, 2, 3], &Ok(entry.clone()));
    assert_eq!(told.len(), 3);
    for (i, (w, outcome)) in told.into_iter().enumerate() {
        assert_eq!(w, i as u32 + 1);
        assert!(Arc::ptr_eq(&outcome.unwrap(), &entry));
    }
    let failed = grpc_quic::pool::hand_out::<String, u32>(vec![7, 8], &Err("connection refused".to_string()));
    let texts: Vec<(u32, String)> = failed.into_iter().map(|(w, o)| (w, o.unwrap_err())).collect();
    assert_eq!(texts, vec![(7, "connection refused".to_string()), (8, "connection refused".to_string())]);
    assert!(grpc_quic::pool::hand_out::<String, u32>(vec![], &Err("x".to_string())).is_empty());
}
