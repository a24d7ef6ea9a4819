use broker_coordination::route::{BrokerData, QueueData};
use broker_coordination::topology::TopologyStore;

fn group(name: &str, addrs: Vec<(u64, String)>) -> BrokerData {
    BrokerData::new("cluster-a".to_string(), name.to_string(), addrs, None)
}

#[test]
fn master_is_preferred_and_stable() {
    let mut store = TopologyStore::new();
    store.upsert_group(group(
        "G",
        vec![
            (0u64, "10.0.0.1:9000".to_string()),
            (3u64, "10.0.0.2:9000".to_string()),
            (7u64, "10.0.0.3:9000".to_string()),
        ],
    ));
    for _ in 0..50 {
        assert_eq!(store.select_address("G"), Some("10.0.0.1:9000".to_string()));
    }
}

#[test]
fn no_master_draws_only_known_addresses() {
    let mut store = TopologyStore::new();
    store.upsert_group(group(
        "G",
        vec![(2u64, "10.0.0.4:9000".to_string()), (3u64, "10.0.0.5:9000".to_string())],
    ));
    let mut saw_first = false;
    let mut saw_second = false;
    for _ in 0..300 {
        let a = store.select_address("G").expect("a replica must be chosen");
        if a == "10.0.0.4:9000" {
            saw_first = true;
        } else if a == "10.0.0.5:9000" {
            saw_second = true;
        } else {
            panic!("foreign address returned: {}", a);
        }
    }
    assert!(saw_first && saw_second);
}

#[test]
fn unknown_or_emptied_group_yields_nothing() {
    let mut store = TopologyStore::new();
    assert_eq!(store.select_address("absent"), None);
    store.upsert_group(group("empty", vec![]));
    assert_eq!(store.select_address("empty"), None);
}

#[test]
fn remove_replica_requires_exact_match_and_is_idempotent() {
    let mut store = TopologyStore::new();
    store.upsert_group(group("G", vec![(0u64, "10.0.0.1:9000".to_string())]));
    // Wrong address on record: no-op.
    store.remove_replica("G", 0, "10.9.9.9:9000");
    assert_eq!(store.select_address("G"), Some("10.0.0.1:9000".to_string()));
    // Wrong id: no-op.
    store.remove_replica("G", 5, "10.0.0.1:9000");
    assert_eq!(store.select_address("G"), Some("10.0.0.1:9000".to_string()));
    // Exact match removes; a second identical call leaves the same end state.
    store.remove_replica("G", 0, "10.0.0.1:9000");
    assert_eq!(store.select_address("G"), None);
    store.remove_replica("G", 0, "10.0.0.1:9000");
    assert_eq!(store.select_address("G"), None);
}

#[test]
fn remove_replica_on_unknown_group_is_a_no_op() {
    let mut store = TopologyStore::new();
    store.remove_replica("ghost", 0, "10.0.0.1:9000");
    assert_eq!(store.select_address("ghost"), None);
}

#[test]
fn failover_scenario() {
    let mut store = TopologyStore::new();
    store.upsert_group(group(
        "G",
        vec![(0u64, "10.0.0.1:9000".to_string()), (3u64, "10.0.0.2:9000".to_string())],
    ));
    for _ in 0..20 {
        assert_eq!(store.select_address("G"), Some("10.0.0.1:9000".to_string()));
    }
    store.remove_replica("G", 0, "10.0.0.1:9000");
    for _ in 0..20 {
        assert_eq!(store.select_address("G"), Some("10.0.0.2:9000".to_string()));
    }
}

#[test]
fn groups_are_listed_in_broker_name_order() {
    let mut store = TopologyStore::new();
    store.upsert_group(group("gamma", vec![(0u64, "10.0.0.3:9000".to_string())]));
    store.upsert_group(group("alpha", vec![(0u64, "10.0.0.1:9000".to_string())]));
    store.upsert_group(group("beta", vec![(0u64, "10.0.0.2:9000".to_string())]));
    let names: Vec<String> =
        store.list_groups_sorted().iter().map(|g| g.broker_name().clone()).collect();
    assert_eq!(names, vec!["alpha".to_string(), "beta".to_string(), "gamma".to_string()]);
}

#[test]
fn upsert_replaces_the_group_with_the_same_name() {
    let mut store = TopologyStore::new();
    store.upsert_group(group("G", vec![(0u64, "10.0.0.1:9000".to_string())]));
    store.upsert_group(group("G", vec![(0u64, "10.0.0.9:9000".to_string())]));
    assert_eq!(store.list_groups_sorted().len(), 1);
    assert_eq!(store.select_address("G"), Some("10.0.0.9:9000".to_string()));
}

#[test]
fn broker_data_accessors_round_trip() {
    let mut g = BrokerData::new(
        "cluster-a".to_string(),
        "G".to_string(),
        vec![(0u64, "10.0.0.1:9000".to_string())],
        Some("zone-1".to_string()),
    );
    assert_eq!(g.cluster(), "cluster-a");
    assert_eq!(g.broker_name(), "G");
    assert_eq!(g.zone_name(), &Some("zone-1".to_string()));
    assert!(!g.enable_acting_master());
    assert_eq!(g.broker_addrs(), &vec![(0u64, "10.0.0.1:9000".to_string())]);

    g.set_cluster("cluster-b".to_string());
    g.set_broker_name("H".to_string());
    g.set_zone_name(None);
    g.set_enable_acting_master(true);
    g.set_broker_addrs(vec![(2u64, "10.0.0.2:9000".to_string())]);
    assert_eq!(g.cluster(), "cluster-b");
    assert_eq!(g.broker_name(), "H");
    assert_eq!(g.zone_name(), &None);
    assert!(g.enable_acting_master());
    g.broker_addrs_mut().push((4u64, "10.0.0.4:9000".to_string()));
    assert_eq!(g.broker_addrs().len(), 2);
}

#[test]
fn broker_data_remove_by_addr_checks_both_id_and_address() {
    let mut g = BrokerData::new(
        "cluster-a".to_string(),
        "G".to_string(),
        vec![(0u64, "10.0.0.1:9000".to_string()), (2u64, "10.0.0.2:9000".to_string())],
        None,
    );
    // Address registered under a different id: nothing is removed.
    g.remove_broker_by_addr(0, "10.0.0.2:9000");
    assert_eq!(g.broker_addrs().len(), 2);
    g.remove_broker_by_addr(2, "10.0.0.2:9000");
    assert_eq!(g.broker_addrs(), &vec![(0u64, "10.0.0.1:9000".to_string())]);
}

#[test]
fn select_broker_addr_on_a_group() {
    let g = BrokerData::new(
        "cluster-a".to_string(),
        "G".to_string(),
        vec![(1u64, "10.0.0.2:9000".to_string())],
        None,
    );
    assert_eq!(g.select_broker_addr(), Some("10.0.0.2:9000".to_string()));
    let empty = BrokerData::new("cluster-a".to_string(), "G".to_string(), vec![], None);
    assert_eq!(empty.select_broker_addr(), None);
}

#[test]
fn queue_data_round_trip() {
    let q = QueueData::new("G".to_string(), 8, 8, 6, 0);
    assert_eq!(q.broker_name(), "G");
    assert_eq!(q.read_queue_nums(), 8);
    assert_eq!(q.write_queue_nums(), 8);
    assert_eq!(q.perm(), 6);
    assert_eq!(q.topic_sys_flag(), 0);
}
