use fastdatabroker::caching::LruCache;
use fastdatabroker::connection_pool::{ConnectionPool, PoolConfig};
use fastdatabroker::priority_queue::{AsyncPriorityQueue, Priority};
use std::time::Duration;

#[test]
fn test_lru_cache_ttl_expiration() {
    let mut cache = LruCache::new(10, 100);
    let start: u64 = 1_700_000_000_000_000_000;

    cache.insert_at("key1".to_string(), "value1", start);
    assert_eq!(cache.get_at("key1", start), Some("value1"));

    // 150 ms later (times are nanoseconds).
    let later = start + Duration::from_millis(150).as_nanos() as u64;
    assert_eq!(cache.get_at("key1", later), None);
}

#[test]
fn test_cache_cleanup_expired() {
    let mut cache = LruCache::new(10, 50);
    let start: u64 = 1_700_000_000_000_000_000;

    cache.insert_at("key1".to_string(), "value1", start);
    cache.insert_at("key2".to_string(), "value2", start);

    // 100 ms later (times are nanoseconds).
    let later = start + Duration::from_millis(100).as_nanos() as u64;
    let removed = cache.cleanup_expired_at(later);
    assert_eq!(removed, 2);
    assert_eq!(cache.stats().size, 0);
}

#[test]
fn test_pool_cleanup_idle_timeout() {
    let config = PoolConfig { max_size: 10, min_idle: 2, idle_timeout_ms: 100, acquire_timeout_ms: 5_000 };

    let factory = || "connection".to_string();
    let mut pool = ConnectionPool::new(config, factory);

    let start: u64 = 1_700_000_000_000;

    // Acquire and release a connection
    let conn = pool.acquire_at(start).expect("Failed to acquire");
    pool.release_at(conn, start);

    let stats_before = pool.stats();
    assert_eq!(stats_before.available_count, 1);

    // 150 ms later, cleanup should remove idle connections
    pool.cleanup_at(start + 150);

    let stats_after = pool.stats();
    // After cleanup, idle connection should be removed
    assert_eq!(stats_after.available_count, 0);
}

#[test]
fn test_guid_generation() {
    let mut queue = AsyncPriorityQueue::new(1, "/tmp/test_priority_queue");
    let guid1 = queue.push_with_priority(b"test".to_vec(), Priority::high()).unwrap();
    let guid2 = queue.push_with_priority(b"test".to_vec(), Priority::high()).unwrap();

    // GUIDs should be different
    assert_ne!(guid1, guid2);

    // GUIDs should be valid UUIDs
    assert!(uuid::Uuid::parse_str(&guid1).is_ok());
    assert!(uuid::Uuid::parse_str(&guid2).is_ok());

    queue.close();
}

#[test]
fn test_remove_by_guid() {
    let mut queue = AsyncPriorityQueue::new(1, "/tmp/test_priority_queue_remove");

    let guid1 = queue.push_with_priority(b"item1".to_vec(), Priority::high()).unwrap();
    let _guid2 = queue.push_with_priority(b"item2".to_vec(), Priority::low()).unwrap();

    assert_eq!(queue.len(), 2);

    // Remove first item
    let removed = queue.remove_by_guid(&guid1);
    assert!(removed);
    assert_eq!(queue.len(), 1);

    // Try to remove non-existent item
    let removed_again = queue.remove_by_guid(&guid1);
    assert!(!removed_again);

    queue.close();
}

#[test]
fn next_item_is_highest_priority_first_in() {
    let mut queue = AsyncPriorityQueue::new(0, "/tmp/unused");
    queue.insert_item("a".to_string(), vec![1], Priority::low(), 1).unwrap();
    queue.insert_item("b".to_string(), vec![2], Priority::high(), 2).unwrap();
    queue.insert_item("c".to_string(), vec![3], Priority::high(), 3).unwrap();
    let (g, data, p) = queue.get_next().unwrap();
    assert_eq!(g, "b");
    assert_eq!(data, vec![2]);
    assert_eq!(p, Priority::high());
    assert_eq!(queue.get_next().unwrap().0, "c");
    assert!(queue.update_priority("a", Priority::critical()));
    assert_eq!(queue.get_priority("a"), Some(Priority::critical()));
    assert_eq!(queue.get_next().unwrap().0, "a");
    assert!(queue.get_next().is_none());
}
