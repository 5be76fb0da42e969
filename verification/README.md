# fastdatabroker

A multi-tenant message broker's core, written in Verus: the data
structures, state machines and rules of the broker carry `requires` /
`ensures` contracts that Verus proves.

Layout:

- `src/` — the verified library: configuration and tenant records, caches
  (including the admin API's LRU document cache over `lru::LruCache` and the
  concurrent maps over `dashmap::DashMap`), authentication and tokens,
  clustering (brokers, partitions, replication, leader election,
  rebalancing), multi-region routing, notification channels, logging
  buffers, circuit breaker and retry rules, priority queue and pools. Calls
  into outside crates (clock, UUIDs, random draws, SHA-256, the two
  collections) stand behind small trusted wrappers whose contracts are
  documented where they are declared.
- `tests/` — tests of the library on concrete values.
- `app/` — the command-line server, the HTTP front ends (actix-web), file
  and JSON I/O, background workers, Prometheus metrics and the
  floating-point statistics, all calling into the library.
