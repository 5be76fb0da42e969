use fastdatabroker::connection_pool::{ConnectionPool, PoolConfig};
use fastdatabroker::distribution::multi_region::{MultiRegionRouter, Region, RegionAffinity, RegionConfig};
use fastdatabroker::logging::atomic_logger::{AtomicLogger, RateLimitCounter};
use fastdatabroker::logging::ring_buffer::{LogSeverity, RingBuffer, RingBufferEntry};
use fastdatabroker::models::Envelope;
use fastdatabroker::priority_queue::Priority;

#[test]
fn test_pool_creation_and_reuse() {
    let config = PoolConfig { max_size: 10, min_idle: 2, idle_timeout_ms: 300_000, acquire_timeout_ms: 5_000 };

    let factory = || "connection".to_string();

    let mut pool = ConnectionPool::new(config, factory);

    // Acquire a connection
    let conn1 = pool.acquire().expect("Failed to acquire connection");
    assert_eq!(conn1.connection, "connection");

    // Stats should show 1 in use
    let stats = pool.stats();
    assert_eq!(stats.total_created, 1);
    assert_eq!(stats.in_use_count, 1);

    // Release it
    pool.release(conn1);

    // Stats should show it's available now
    let stats = pool.stats();
    assert_eq!(stats.total_created, 1);
    assert_eq!(stats.available_count, 1);

    // Acquire again - should reuse
    let conn2 = pool.acquire().expect("Failed to acquire connection");
    assert_eq!(conn2.connection, "connection");
    assert_eq!(conn2.id, 0);

    let stats = pool.stats();
    assert_eq!(stats.total_created, 1); // Still 1, reused
}

#[test]
fn test_pool_max_size_enforcement() {
    let config = PoolConfig { max_size: 3, min_idle: 1, idle_timeout_ms: 300_000, acquire_timeout_ms: 5_000 };

    let factory = || "connection".to_string();
    let mut pool = ConnectionPool::new(config, factory);

    // Acquire up to max_size
    let conn1 = pool.acquire().expect("Should acquire conn 1");
    let conn2 = pool.acquire().expect("Should acquire conn 2");
    let conn3 = pool.acquire().expect("Should acquire conn 3");

    let stats = pool.stats();
    assert_eq!(stats.total_created, 3);
    assert_eq!(stats.in_use_count, 3);

    // Try to acquire one more - should fail since all are in use
    let conn4 = pool.acquire();
    assert!(conn4.is_none());

    // Release one
    pool.release(conn1);

    // Now should be able to acquire
    let conn5 = pool.acquire();
    assert!(conn5.is_some());

    pool.release(conn2);
    pool.release(conn3);
    pool.release(conn5.unwrap());
}

#[test]
fn test_pool_reset_functionality() {
    let config = PoolConfig { max_size: 10, min_idle: 2, idle_timeout_ms: 300_000, acquire_timeout_ms: 5_000 };

    let factory = || "connection".to_string();
    let mut pool = ConnectionPool::new(config, factory);

    // Create some connections
    let conn1 = pool.acquire().expect("Failed to acquire");
    let conn2 = pool.acquire().expect("Failed to acquire");
    pool.release(conn1);
    pool.release(conn2);

    let stats_before = pool.stats();
    assert_eq!(stats_before.total_created, 2);
    assert_eq!(stats_before.available_count, 2);

    // Reset pool
    pool.reset();

    let stats_after = pool.stats();
    assert_eq!(stats_after.total_created, 0);
    assert_eq!(stats_after.available_count, 0);
    assert_eq!(stats_after.in_use_count, 0);
}

#[test]
fn pool_drops_stale_connections() {
    let config = PoolConfig { max_size: 10, min_idle: 2, idle_timeout_ms: 100, acquire_timeout_ms: 5_000 };
    let mut pool = ConnectionPool::new(config, || 1u8);
    let c = pool.acquire_at(0).unwrap();
    pool.release_at(c, 0);
    pool.cleanup_at(1_000);
    assert_eq!(pool.stats().available_count, 0);
}

#[test]
fn pool_limits_open_connections_not_lifetime_creations() {
    let config = PoolConfig { max_size: 2, min_idle: 1, idle_timeout_ms: 300_000, acquire_timeout_ms: 5_000 };
    let mut pool = ConnectionPool::new(config, || 7u8);
    let a = pool.acquire_at(0).unwrap();
    let b = pool.acquire_at(0).unwrap();
    assert!(pool.acquire_at(0).is_none());
    pool.release_at(a, 1);
    pool.release_at(b, 1);
    // One idle connection is kept (max_size / 2), the other was dropped.
    assert_eq!(pool.stats().available_count, 1);
    let c = pool.acquire_at(2).unwrap();
    assert_eq!(c.id, 0);
    // One connection is open, so a new one may be made.
    let d = pool.acquire_at(2).unwrap();
    assert_eq!(d.id, 2);
    assert_eq!(d.connection, 7);
    assert!(pool.acquire_at(2).is_none());
    let s = pool.stats();
    assert_eq!((s.total_created, s.in_use_count, s.available_count), (3, 2, 0));
}

#[test]
fn test_region_latency() {
    let us_east = Region::US_EAST;
    let us_west = Region::US_WEST;

    assert_eq!(us_east.latency_to(&us_east), 0);
    assert_eq!(us_east.latency_to(&us_west), 50);
    assert_eq!(us_west.latency_to(&us_east), 50);
}

#[test]
fn test_region_display() {
    assert_eq!(Region::US_EAST.to_string(), "us-east");
    assert_eq!(Region::EU_WEST.to_string(), "eu-west");
    assert_eq!(Region::Custom("my-region".to_string()).to_string(), "my-region");
}

#[test]
fn test_region_config() {
    let config = RegionConfig::new(Region::US_EAST, "localhost:6379".to_string(), 1000);
    assert_eq!(config.region, Region::US_EAST);
    assert!(!config.is_primary);
}

#[test]
fn test_multi_region_router_register() {
    let mut router = MultiRegionRouter::new();
    let config = RegionConfig::new(Region::US_EAST, "localhost:6379".to_string(), 1000);
    assert!(router.register_region(config).is_ok());

    let regions = router.get_regions();
    assert_eq!(regions.len(), 1);
}

#[test]
fn test_multi_region_router_affinity_primary() {
    let mut router = MultiRegionRouter::new();
    let mut config = RegionConfig::new(Region::US_EAST, "localhost:6379".to_string(), 1000);
    config.is_primary = true;
    router.register_region(config).unwrap();

    router.set_affinity(RegionAffinity::Primary);
    let targets = router.get_target_regions(None).unwrap();
    assert_eq!(targets, vec![Region::US_EAST]);
}

#[test]
fn test_multi_region_router_affinity_all() {
    let mut router = MultiRegionRouter::new();
    router.register_region(RegionConfig::new(Region::US_EAST, "ep1".to_string(), 1000)).unwrap();
    router.register_region(RegionConfig::new(Region::EU_WEST, "ep2".to_string(), 1000)).unwrap();

    router.set_affinity(RegionAffinity::All);
    let targets = router.get_target_regions(None).unwrap();
    assert_eq!(targets.len(), 2);
}

#[test]
fn router_without_regions_refuses() {
    let mut router = MultiRegionRouter::new();
    assert!(router.get_target_regions(None).is_err());
}

#[test]
fn test_atomic_logger_basic() {
    let mut logger = AtomicLogger::new();

    logger.info();
    logger.warn();
    logger.error();

    let stats = logger.stats();
    assert_eq!(stats.total_events, 3);
    assert_eq!(stats.infos, 1);
    assert_eq!(stats.warnings, 1);
    assert_eq!(stats.errors, 1);
}

#[test]
fn test_rate_limit_counter() {
    let mut counter = RateLimitCounter::new();

    for _ in 0..100 {
        counter.record_violation();
    }

    let stats = counter.stats();
    assert_eq!(stats.total_violations, 100);
}

#[test]
fn rate_limit_counter_tracks_peak_per_second() {
    let mut counter = RateLimitCounter::starting_at(10);
    counter.record_violation_at(10);
    counter.record_violation_at(10);
    counter.record_violation_at(11);
    let stats = counter.stats();
    assert_eq!(stats.total_violations, 3);
    assert_eq!(stats.peak_violations_per_sec, 2);
    assert_eq!(stats.current_second_violations, 0);
}

fn entry(i: usize) -> RingBufferEntry {
    RingBufferEntry {
        timestamp_millis: 1_700_000_000_000,
        severity: LogSeverity::Info,
        message: format!("Message {}", i),
        context: None,
    }
}

#[test]
fn test_ring_buffer_basic() {
    let mut ring: RingBuffer<5> = RingBuffer::new();

    for i in 0..3 {
        ring.push(entry(i));
    }

    assert_eq!(ring.len(), 3);
}

#[test]
fn test_ring_buffer_wraparound() {
    let mut ring: RingBuffer<3> = RingBuffer::new();

    // Add 5 entries to a buffer of size 3
    for i in 0..5 {
        ring.push(entry(i));
    }

    // Should only have last 3
    assert_eq!(ring.len(), 3);

    let recent = ring.read_recent(3);
    assert_eq!(recent.len(), 3);
    // Most recent should be Message 4
    assert!(recent[0].message.contains("4"));
}

#[test]
fn test_ring_buffer_read_all() {
    let mut ring: RingBuffer<4> = RingBuffer::new();

    for i in 0..4 {
        ring.push(entry(i));
    }

    let all = ring.read_all();
    assert_eq!(all.len(), 4);
    // Check order (oldest to newest)
    assert!(all[0].message.contains("0"));
    assert!(all[3].message.contains("3"));
}

#[test]
fn fixed_test_envelope_creation() {
    let env = Envelope::new(
        "producer-1".to_string(),
        vec!["recipient-1".to_string()],
        "Test Message".to_string(),
        b"Hello, World!".to_vec(),
    );

    assert_eq!(env.sender_id, "producer-1");
    assert_eq!(env.priority, 100);
    assert_eq!(env.content, b"Hello, World!");
}

#[test]
fn mod_test_envelope_creation() {
    let env = Envelope::new(
        "producer-1".to_string(),
        vec!["recipient-1".to_string()],
        "Test Message".to_string(),
        b"Hello, World!".to_vec(),
    );

    assert_eq!(env.sender_id, "producer-1");
    assert_eq!(env.priority, 100);
    assert_eq!(env.content, b"Hello, World!");
}

#[test]
fn envelope_builders() {
    let env = Envelope::new("p".to_string(), vec![], "s".to_string(), vec![1]).with_priority(7).with_ttl(30);
    assert_eq!(env.priority, 7);
    assert_eq!(env.ttl_seconds, Some(30));
    assert_eq!(env.id.to_string().len(), 36);
}

#[test]
fn test_priority_ordering() {
    let p_low = Priority::low();
    let p_high = Priority::high();
    assert!(p_high > p_low);
}

#[test]
fn test_custom_priority() {
    let p = Priority::custom(50).unwrap();
    assert_eq!(p.get_level(), 50);

    let invalid = Priority::custom(101);
    assert!(invalid.is_err());
}

#[test]
fn region_health_and_replication_topology() {
    let mut router = MultiRegionRouter::new();
    router
        .register_region(RegionConfig::new(Region::US_EAST, "ep1".to_string(), 1000).with_replication(3, 2))
        .unwrap();
    router.register_region(RegionConfig::new(Region::EU_WEST, "ep2".to_string(), 1000)).unwrap();

    let health = router.check_region_health_at(&Region::US_EAST, 42).unwrap();
    assert!(health.is_healthy);
    assert_eq!(health.endpoint, "ep1");
    assert_eq!(health.last_checked, 42);
    assert!(router.check_region_health(&Region::CANADA).is_err());

    router.set_affinity(RegionAffinity::All);
    let topology = router.get_replication_topology(&Region::US_EAST).unwrap();
    assert_eq!(topology.primary, Region::US_EAST);
    assert_eq!(topology.replicas, vec![Region::EU_WEST]);
    assert_eq!(topology.replication_factor, 3);
    assert_eq!(topology.min_acks, 2);
    assert!(router.get_replication_topology(&Region::CANADA).is_err());
}
