use fastdatabroker::batch_processor::{BatchConfig, BatchProcessor};
use fastdatabroker::caching::LruCache;
use fastdatabroker::object_pool::ObjectPool;

#[test]
fn test_batch_processor_add() {
    let mut processor = BatchProcessor::new(BatchConfig::default());

    processor.add(1);
    processor.add(2);
    processor.add(3);

    let batch = processor.get_batch();
    assert_eq!(batch.len(), 3);
    assert_eq!(batch, vec![1, 2, 3]);
}

#[test]
fn test_batch_processor_max_size() {
    let config = BatchConfig { max_batch_size: 5, batch_timeout_ms: 1000, adaptive: false };
    let mut processor = BatchProcessor::new(config);

    for i in 0..10 {
        processor.add(i);
    }

    let batch1 = processor.get_batch();
    assert_eq!(batch1.len(), 5);

    let batch2 = processor.get_batch();
    assert_eq!(batch2.len(), 5);
}

#[test]
fn test_batch_processor_statistics() {
    let mut processor = BatchProcessor::new(BatchConfig::default());

    for i in 0..10 {
        processor.add(i);
    }

    let _ = processor.get_batch();
    let stats = processor.stats();

    assert_eq!(stats.processed_batches, 1);
}

#[test]
fn test_batch_has_pending() {
    let mut processor = BatchProcessor::new(BatchConfig::default());

    assert!(!processor.has_pending());

    processor.add(1);
    assert!(processor.has_pending());

    let _ = processor.get_batch();
    assert!(!processor.has_pending());
}

#[test]
fn batches_keep_arrival_order() {
    let config = BatchConfig { max_batch_size: 2, batch_timeout_ms: 1000, adaptive: false };
    let mut processor = BatchProcessor::new_at(config, 0);
    processor.add_batch(vec![10, 20, 30]);
    assert_eq!(processor.get_batch_at(5), vec![10, 20]);
    assert_eq!(processor.get_batch_at(6), vec![30]);
    assert!(processor.get_batch_at(7).is_empty());
    assert_eq!(processor.stats().pending_items, 0);
}

#[test]
fn test_lru_cache_get_set() {
    let mut cache = LruCache::new(10, 60_000);

    cache.insert("key1".to_string(), "value1");
    assert_eq!(cache.get("key1"), Some("value1"));

    let stats = cache.stats();
    assert_eq!(stats.hits, 1);
    assert_eq!(stats.misses, 0);
}

#[test]
fn test_lru_cache_capacity_eviction() {
    let mut cache = LruCache::new(3, 60_000);

    cache.insert("key1".to_string(), 1);
    cache.insert("key2".to_string(), 2);
    cache.insert("key3".to_string(), 3);

    // Access key1 to mark it as recently used
    let _ = cache.get("key1");

    // Add new entry, should evict least recently used (key2)
    cache.insert("key4".to_string(), 4);

    assert_eq!(cache.get("key4"), Some(4));
    // One of the first keys must have been evicted when capacity was exceeded.
    let mut remaining = 0;
    for k in ["key1", "key2", "key3"].iter() {
        if cache.get(k).is_some() {
            remaining += 1;
        }
    }
    assert!(remaining <= 2);

    let stats = cache.stats();
    assert_eq!(stats.evictions, 1);
}

#[test]
fn test_cache_hit_rate() {
    let mut cache = LruCache::new(10, 60_000);

    cache.insert("key".to_string(), "value");
    let _ = cache.get("key");
    let _ = cache.get("key");
    let _ = cache.get("missing");

    let stats = cache.stats();
    assert_eq!(stats.hits, 2);
    assert_eq!(stats.misses, 1);
    // hit_rate is 2/3 ≈ 0.667, multiply by 100 to get 66.7%
    let hit_rate = stats.hits as f64 / (stats.hits + stats.misses) as f64;
    assert_eq!((hit_rate * 100.0).round() as u32, 67); // ~66.7%
}

#[test]
fn cache_read_after_write_and_expiry() {
    let mut cache = LruCache::new(2, 100);
    cache.insert_at("a".to_string(), 1, 0);
    assert_eq!(cache.get_at("a", 50), Some(1));
    // Entries live for the ttl (in milliseconds); times are nanoseconds.
    assert_eq!(cache.get_at("a", 200_000_000), None);
    cache.insert_at("b".to_string(), 2, 0);
    cache.insert_at("c".to_string(), 3, 0);
    assert_eq!(cache.cleanup_expired_at(1_000_000_000), 2);
    assert_eq!(cache.stats().size, 0);
    cache.insert("d".to_string(), 4);
    cache.invalidate("d");
    assert_eq!(cache.get("d"), None);
}

#[test]
fn test_object_pool_acquire_release() {
    let mut pool = ObjectPool::new(|| vec![0u8; 1024], 100);

    // Pre-allocate
    pool.pre_allocate(10);
    assert_eq!(pool.stats().available_count, 10);

    // Acquire
    let obj = pool.acquire();
    assert_eq!(pool.stats().available_count, 9);
    assert_eq!(obj.len(), 1024);

    // Release
    pool.release(obj);
    assert_eq!(pool.stats().available_count, 10);
}

#[test]
fn test_object_pool_max_size() {
    let mut pool = ObjectPool::new(|| 42, 5);
    pool.pre_allocate(5);

    // Try to add more than max
    pool.release(100);
    assert_eq!(pool.stats().available_count, 5); // Still 5
}

#[test]
fn object_pool_takes_idle_objects_before_creating() {
    let mut pool = ObjectPool::new(|| 42, 10);
    pool.pre_allocate(2);
    assert_eq!(pool.acquire(), 42);
    assert_eq!(pool.stats().available_count, 1);
    assert_eq!(pool.acquire(), 42);
    assert_eq!(pool.stats().available_count, 0);
    assert_eq!(pool.stats().total_created, 2);
    pool.release(5);
    pool.release(6);
    assert_eq!(pool.acquire(), 6);
    assert_eq!(pool.acquire(), 5);
    assert_eq!(pool.stats().total_created, 2);
}

#[test]
fn object_pool_creates_when_empty() {
    let mut pool = ObjectPool::new(|| 7u32, 0);
    assert_eq!(pool.acquire(), 7);
    assert_eq!(pool.stats().total_created, 1);
    pool.release(9);
    assert_eq!(pool.acquire(), 9);
    assert_eq!(pool.stats().total_created, 1);
    pool.pre_allocate(3);
    pool.clear();
    assert_eq!(pool.stats().available_count, 0);
    assert_eq!(pool.stats().total_created, 4);
}
