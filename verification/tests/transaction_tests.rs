use broker_coordination::outcome::{MessageExt, ResponseCode};
use broker_coordination::route::BrokerData;
use broker_coordination::topology::TopologyStore;
use broker_coordination::transaction::{
    CheckBackCoordinator, CheckDirective, TimeoutDisposition, TransactionResolution, TxnState,
};

fn store_with_master() -> TopologyStore {
    let mut store = TopologyStore::new();
    store.upsert_group(BrokerData::new(
        "cluster-a".to_string(),
        "G".to_string(),
        vec![(0u64, "10.0.0.1:9000".to_string())],
        None,
    ));
    store
}

fn half_message() -> MessageExt {
    MessageExt { topic: "orders".to_string(), transaction_id: 7, body: vec![1, 2, 3] }
}

#[test]
fn begin_check_sends_to_the_resolved_address_and_records_the_entry() {
    let store = store_with_master();
    let mut c = CheckBackCoordinator::new(3);
    match c.begin_check(7, 0, None, &store, "G", 100) {
        CheckDirective::Send { address } => assert_eq!(address, "10.0.0.1:9000"),
        other => panic!("expected a send directive, got {:?}", other),
    }
    // A second cycle while the check is outstanding sends nothing.
    match c.begin_check(7, 0, None, &store, "G", 200) {
        CheckDirective::AlreadyPending => {}
        other => panic!("expected already-pending, got {:?}", other),
    }
}

#[test]
fn reply_resolves_exactly_once_and_a_later_timeout_is_a_no_op() {
    let store = store_with_master();
    let mut c = CheckBackCoordinator::new(3);
    assert!(matches!(c.begin_check(7, 0, None, &store, "G", 100), CheckDirective::Send { .. }));
    match c.on_reply(7, TransactionResolution::Commit, Some(half_message())) {
        Some((state, outcome)) => {
            assert_eq!(state, TxnState::Committed);
            assert_eq!(outcome.response_code, ResponseCode::Success);
            assert!(outcome.response_remark.is_none());
            assert_eq!(outcome.prepare_message.unwrap().topic, "orders");
        }
        None => panic!("the first reply must resolve the pending check"),
    }
    assert!(matches!(c.on_timeout(7, None), TimeoutDisposition::AlreadyHandled));
}

#[test]
fn timeout_resolves_exactly_once_and_a_later_reply_is_ignored() {
    let store = store_with_master();
    let mut c = CheckBackCoordinator::new(3);
    assert!(matches!(c.begin_check(7, 0, None, &store, "G", 100), CheckDirective::Send { .. }));
    match c.on_timeout(7, None) {
        TimeoutDisposition::Requeued { attempts } => assert_eq!(attempts, 1),
        other => panic!("expected a requeue, got {:?}", other),
    }
    assert!(c.on_reply(7, TransactionResolution::Commit, None).is_none());
}

#[test]
fn duplicate_replies_are_dropped_silently() {
    let store = store_with_master();
    let mut c = CheckBackCoordinator::new(3);
    assert!(matches!(c.begin_check(7, 0, None, &store, "G", 100), CheckDirective::Send { .. }));
    assert!(c.on_reply(7, TransactionResolution::Rollback, None).is_some());
    assert!(c.on_reply(7, TransactionResolution::Rollback, None).is_none());
}

#[test]
fn rollback_reply_rolls_the_transaction_back() {
    let store = store_with_master();
    let mut c = CheckBackCoordinator::new(3);
    assert!(matches!(c.begin_check(9, 0, None, &store, "G", 100), CheckDirective::Send { .. }));
    let (state, _) = c.on_reply(9, TransactionResolution::Rollback, None).unwrap();
    assert_eq!(state, TxnState::RolledBack);
}

#[test]
fn two_silent_check_cycles_discard_the_half_message() {
    // attempts = 2, max_attempts = 2: the message is checked twice with no
    // reply, then discarded with a non-success outcome that still carries
    // the original payload.
    let store = store_with_master();
    let mut c = CheckBackCoordinator::new(2);
    assert!(matches!(c.begin_check(7, 0, None, &store, "G", 100), CheckDirective::Send { .. }));
    let attempts = match c.on_timeout(7, None) {
        TimeoutDisposition::Requeued { attempts } => attempts,
        other => panic!("expected a requeue, got {:?}", other),
    };
    assert_eq!(attempts, 1);
    assert!(matches!(c.begin_check(7, attempts, None, &store, "G", 200), CheckDirective::Send { .. }));
    match c.on_timeout(7, Some(half_message())) {
        TimeoutDisposition::Discarded { outcome } => {
            assert_eq!(outcome.response_code, ResponseCode::SystemError);
            let remark = outcome.response_remark.expect("a remark must explain the discard");
            assert!(!remark.is_empty());
            let payload = outcome.prepare_message.expect("the payload must be retrievable");
            assert_eq!(payload.topic, "orders");
            assert_eq!(payload.transaction_id, 7);
            assert_eq!(payload.body, vec![1, 2, 3]);
        }
        other => panic!("expected a discard, got {:?}", other),
    }
    // No pending entry remains afterward.
    assert!(c.on_reply(7, TransactionResolution::Commit, None).is_none());
    assert!(matches!(c.on_timeout(7, None), TimeoutDisposition::AlreadyHandled));
}

#[test]
fn unresolvable_addresses_count_as_failed_attempts_without_traffic() {
    let store = TopologyStore::new();
    let mut c = CheckBackCoordinator::new(2);
    match c.begin_check(7, 0, None, &store, "G", 100) {
        CheckDirective::Retry { attempts } => assert_eq!(attempts, 1),
        other => panic!("expected a retry, got {:?}", other),
    }
    match c.begin_check(7, 1, Some(half_message()), &store, "G", 200) {
        CheckDirective::Discard { outcome } => {
            assert_eq!(outcome.response_code, ResponseCode::SystemError);
            assert!(!outcome.response_remark.unwrap().is_empty());
            assert_eq!(outcome.prepare_message.unwrap().body, vec![1, 2, 3]);
        }
        other => panic!("expected a discard, got {:?}", other),
    }
}

#[test]
fn resolving_without_any_reply_always_ends_in_a_discard() {
    let store = store_with_master();
    let mut c = CheckBackCoordinator::new(3);
    let outcome = c.resolve_without_reply(7, &store, "G", 100);
    assert_eq!(outcome.response_code, ResponseCode::SystemError);
    assert!(!outcome.response_remark.unwrap().is_empty());
    assert!(outcome.prepare_message.is_none());
    // Nothing stays pending: a late reply finds no entry.
    assert!(c.on_reply(7, TransactionResolution::Commit, None).is_none());
    // The same holds when no address ever resolves.
    let empty = TopologyStore::new();
    let mut c2 = CheckBackCoordinator::new(2);
    let outcome = c2.resolve_without_reply(9, &empty, "G", 100);
    assert_eq!(outcome.response_code, ResponseCode::SystemError);
    assert!(matches!(c2.on_timeout(9, None), TimeoutDisposition::AlreadyHandled));
}

#[test]
fn max_attempts_is_kept() {
    let c = CheckBackCoordinator::new(5);
    assert_eq!(c.max_attempts(), 5);
}
