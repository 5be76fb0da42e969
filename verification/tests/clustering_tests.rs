use fastdatabroker::clustering::broker::ClusterBroker;
use fastdatabroker::clustering::replication::{ClusterRebalancer, LeaderElector, ReplicationManager};
use fastdatabroker::clustering::{BrokerConfig, BrokerMetadata, BrokerStatus, ClusterState, StreamPartitionConfig};

fn broker(i: u32, status: BrokerStatus) -> BrokerMetadata {
    BrokerMetadata { broker_id: i, host: format!("10.0.1.{}", i), port: 6000, status, last_heartbeat: 0 }
}

fn stream_config(id: &str, retention_hours: u32) -> StreamPartitionConfig {
    StreamPartitionConfig {
        stream_id: id.to_string(),
        num_partitions: 4,
        replication_factor: 3,
        min_insync_replicas: 2,
        retention_hours,
    }
}

fn four_brokers() -> ClusterState {
    let mut state = ClusterState::new();
    for i in 1..=4 {
        state.register_broker(broker(i, BrokerStatus::Up));
    }
    state
}

#[test]
fn test_cluster_creation() {
    let config = BrokerConfig {
        broker_id: 1,
        listen_address: "127.0.0.1".to_string(),
        listen_port: 6000,
        metadata_servers: vec!["127.0.0.1:2181".to_string()],
        bootstrap_servers: vec!["127.0.0.1:6000".to_string()],
    };

    let mut broker = ClusterBroker::new(config);
    assert!(broker.initialize_cluster().is_ok());
}

#[test]
fn test_partition_assignment() {
    let mut state = four_brokers();

    let stream = state.create_stream(stream_config("test", 24)).unwrap();
    assert_eq!(stream.num_partitions, 4);
    assert_eq!(stream.partitions.len(), 4);

    // Check each partition has replicas
    for partition in &stream.partitions {
        assert_eq!(partition.replica_broker_ids.len(), 3);
    }
}

#[test]
fn test_consistent_hashing() {
    let mut state = four_brokers();
    state.create_stream(stream_config("orders", 72)).unwrap();

    // Same key should always go to same partition
    let p1 = state.determine_partition("orders", "ORD-123").unwrap();
    let p2 = state.determine_partition("orders", "ORD-123").unwrap();
    assert_eq!(p1, p2);

    // Different keys can go to different partitions
    let p3 = state.determine_partition("orders", "ORD-456").unwrap();
    // Not necessarily different, but valid partition
    assert!(p3 <= 3);
}

#[test]
fn test_leader_election() {
    let mut state = ClusterState::new();
    for i in 1..=4 {
        let status = if i == 1 { BrokerStatus::Down } else { BrokerStatus::Up };
        state.register_broker(broker(i, status));
    }
    state.create_stream(stream_config("test", 24)).unwrap();

    let elector = LeaderElector::new();

    // Elect new leader when first one is down
    let new_leader = elector.elect_new_leader(&mut state, "test", 0).unwrap();
    assert!(new_leader > 1); // Should elect one of the alive brokers
    assert_eq!(state.get_partition_leader("test", 0), Some(new_leader));
}

#[test]
fn stream_creation_errors() {
    let mut state = ClusterState::new();
    // No broker registered.
    assert!(state.create_stream(stream_config("s", 1)).is_err());
    let mut state = four_brokers();
    assert!(state.create_stream(stream_config("s", 1)).is_ok());
    assert!(state.determine_partition("missing", "k").is_err());
    assert!(state.get_stream("s").is_some());
}

#[test]
fn replicated_offset_is_committed() {
    let mut state = four_brokers();
    state.create_stream(stream_config("s", 1)).unwrap();
    let mut manager = ReplicationManager::new();
    let log = manager.replicate_message(&state, "s", 0, 42).unwrap();
    assert_eq!(log.message_offset, 42);
    assert!(manager.is_committed("s", 0, 42, 3));
    assert!(!manager.is_committed("s", 0, 43, 1));
    assert!(manager.replicate_message(&state, "s", 99, 1).is_err());
}

#[test]
fn rebalance_keeps_leaders_up() {
    let mut state = four_brokers();
    state.create_stream(stream_config("s", 1)).unwrap();
    state.register_broker(broker(1, BrokerStatus::Down));
    let rebalancer = ClusterRebalancer::new();
    assert!(rebalancer.rebalance(&mut state, "s").is_ok());
    let stream = state.get_stream("s").unwrap();
    for p in &stream.partitions {
        assert_ne!(p.leader_broker_id, 1);
    }
    assert!(rebalancer.rebalance(&mut state, "missing").is_err());
}

#[test]
fn send_and_topology() {
    let config = BrokerConfig {
        broker_id: 1,
        listen_address: "127.0.0.1".to_string(),
        listen_port: 6000,
        metadata_servers: vec![],
        bootstrap_servers: vec![],
    };
    let mut cb = ClusterBroker::new(config);
    cb.initialize_cluster().unwrap();
    // A single broker leads every partition.
    cb.state_mut().create_stream(stream_config("events", 1)).unwrap();
    let sent = cb.send_message("events", "key-1", b"payload".to_vec()).unwrap();
    assert!(sent.partition <= 3);
    assert_eq!(sent.stream, "events");
    let topology = cb.get_topology("events").unwrap();
    assert_eq!(topology.partitions.len(), 4);
    assert!(cb.get_topology("nope").is_err());
}
