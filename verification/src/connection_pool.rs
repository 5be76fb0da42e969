//! Connection pool: reuses idle connections and creates new ones up to a
//! limit. Times are milliseconds since the Unix epoch.
use vstd::prelude::*;
use std::collections::VecDeque;
use vstd::wrapping::u64_specs;
use vstd::wrapping::usize_specs;
use crate::clock;

verus! {

/// Configuration for connection pool behavior.
#[derive(Debug, Clone)]
pub struct PoolConfig {
    /// Maximum concurrent connections
    pub max_size: usize,
    /// Minimum idle connections to maintain
    pub min_idle: usize,
    /// Connection idle timeout, in milliseconds
    pub idle_timeout_ms: u64,
    /// Connection acquisition timeout, in milliseconds
    pub acquire_timeout_ms: u64,
}

impl PoolConfig {
    /// 100 connections at most, 10 idle kept, 300 s idle timeout, 5 s
    /// acquisition timeout.
    pub fn default_config() -> (r: PoolConfig)
        ensures
            r.max_size == 100 && r.min_idle == 10 && r.idle_timeout_ms == 300_000 && r.acquire_timeout_ms == 5_000,
    {
        PoolConfig { max_size: 100, min_idle: 10, idle_timeout_ms: 300_000, acquire_timeout_ms: 5_000 }
    }
}

impl Default for PoolConfig {
    fn default() -> (r: PoolConfig)
        ensures
            r.max_size == 100 && r.min_idle == 10 && r.idle_timeout_ms == 300_000 && r.acquire_timeout_ms == 5_000,
    {
        PoolConfig::default_config()
    }
}

/// Wrapper for a pooled connection.
#[derive(Debug, Clone)]
pub struct PooledConnection<T> {
    /// Connection state
    pub connection: T,
    /// When the connection was last used, in milliseconds
    pub last_used: u64,
    /// Connection ID
    pub id: u64,
}

/// Pool statistics.
#[derive(Debug, Clone)]
pub struct PoolStats {
    pub total_created: u64,
    pub available_count: usize,
    pub in_use_count: usize,
}

/// Abstract state of a pool.
pub struct PoolView<T> {
    pub available: Seq<PooledConnection<T>>,
    pub total_created: u64,
    pub in_use: usize,
    pub max_size: usize,
    pub idle_timeout_ms: u64,
    /// Idle connections to keep, as configured (no operation reads it).
    pub min_idle: usize,
    /// Acquisition timeout, as configured (no operation reads it).
    pub acquire_timeout_ms: u64,
}

/// A pooled connection that has been idle less than the timeout at `now`.
pub open spec fn fresh<T>(c: PooledConnection<T>, now: u64, timeout: u64) -> bool {
    (if now >= c.last_used { now - c.last_used } else { 0 }) < timeout
}

/// Whether a new connection may be created: the connections in use and the
/// idle ones together are fewer than `max_size`, the most that may be open
/// at once.
pub open spec fn may_create(in_use: usize, idle: nat, max_size: usize) -> bool {
    in_use + idle < max_size
}

/// The idle queue once `acquire_at` took its front connection off.
pub open spec fn popped<T>(a: PoolView<T>) -> Seq<PooledConnection<T>> {
    if a.available.len() > 0 { a.available.drop_first() } else { a.available }
}

/// `acquire_at(now)` hands out the front idle connection: it is still fresh.
pub open spec fn reuses<T>(a: PoolView<T>, now: u64) -> bool {
    a.available.len() > 0 && fresh(a.available[0], now, a.idle_timeout_ms)
}

/// `acquire_at(now)` creates a new connection with the factory.
pub open spec fn creates<T>(a: PoolView<T>, now: u64) -> bool {
    !reuses(a, now) && may_create(a.in_use, popped(a).len(), a.max_size)
}

/// At most `max_size / 2` connections are idle: releases queue a connection
/// only below that.
pub open spec fn idle_bounded<T>(a: PoolView<T>) -> bool {
    a.available.len() <= a.max_size / 2
}

/// No more connections are open, in use or idle, than `max_size`.
pub open spec fn pool_ok<T>(a: PoolView<T>) -> bool {
    a.in_use + a.available.len() <= a.max_size
}

/// The connections of `s` still fresh at `now`, in order.
pub open spec fn fresh_only<T>(s: Seq<PooledConnection<T>>, now: u64, timeout: u64) -> Seq<PooledConnection<T>>
    decreases s.len(),
{
    if s.len() == 0 {
        s
    } else {
        let r = fresh_only(s.drop_last(), now, timeout);
        if fresh(s.last(), now, timeout) {
            r.push(s.last())
        } else {
            r
        }
    }
}

/// Connection pool for reusing connections. It never holds more than
/// `max_size / 2` idle connections (a type invariant, shown by `stats`).
pub struct ConnectionPool<T, F> {
    config: PoolConfig,
    available: VecDeque<PooledConnection<T>>,
    total_created: u64,
    in_use: usize,
    factory: F,
}

impl<T, F> ConnectionPool<T, F> {
    /// The idle queue never holds more than `max_size / 2` connections.
    #[verifier::type_invariant]
    closed spec fn idle_within_half(&self) -> bool {
        self.available@.len() <= self.config.max_size / 2
    }
}

impl<T, F: Fn() -> T> ConnectionPool<T, F> {
    /// The abstract state of the pool.
    pub closed spec fn view(&self) -> PoolView<T> {
        PoolView {
            available: self.available@,
            total_created: self.total_created,
            in_use: self.in_use,
            max_size: self.config.max_size,
            idle_timeout_ms: self.config.idle_timeout_ms,
            min_idle: self.config.min_idle,
            acquire_timeout_ms: self.config.acquire_timeout_ms,
        }
    }

    /// Create a new connection pool.
    pub fn new(config: PoolConfig, factory: F) -> (p: Self)
        requires
            call_requires(factory, ()),
        ensures
            p.view().available.len() == 0,
            p.view().total_created == 0,
            p.view().in_use == 0,
            p.view().max_size == config.max_size,
            p.view().idle_timeout_ms == config.idle_timeout_ms,
            p.view().min_idle == config.min_idle,
            p.view().acquire_timeout_ms == config.acquire_timeout_ms,
            idle_bounded(p.view()),
            p.factory_ok(),
            forall|v: T| p.made_by_factory(v) <==> call_ensures(factory, (), v),
    {
        ConnectionPool { config, available: VecDeque::new(), total_created: 0, in_use: 0, factory }
    }

    /// The factory may be called with no arguments.
    pub closed spec fn factory_ok(&self) -> bool {
        call_requires(self.factory, ())
    }

    /// The factory may return `v`.
    pub closed spec fn made_by_factory(&self, v: T) -> bool {
        call_ensures(self.factory, (), v)
    }

    /// Get a connection from the pool (or create one if needed), reading the
    /// clock for the current time.
    pub fn acquire(&mut self) -> (r: Option<PooledConnection<T>>)
        requires
            old(self).factory_ok(),
        ensures
            final(self).factory_ok(),
            final(self).view().max_size == old(self).view().max_size,
            final(self).view().idle_timeout_ms == old(self).view().idle_timeout_ms,
            forall|v: T| final(self).made_by_factory(v) == old(self).made_by_factory(v),
            exists|now: u64| #[trigger] acquired(old(self).view(), final(self).view(), r, now)
                && (creates(old(self).view(), now) ==> (r matches Some(c) && old(self).made_by_factory(c.connection))),
    {
        let now = clock::unix_millis();
        self.acquire_at(now)
    }

    /// Get a connection at time `now`: the oldest idle connection is taken
    /// from the front; when it is still fresh it is handed out, otherwise it
    /// is dropped. Failing that, a new connection is made by the factory when
    /// the connections in use and the idle ones left are fewer than
    /// `max_size`; its ID is the creation count before it. Otherwise `None`.
    pub fn acquire_at(&mut self, now: u64) -> (r: Option<PooledConnection<T>>)
        requires
            old(self).factory_ok(),
        ensures
            final(self).factory_ok(),
            final(self).view().max_size == old(self).view().max_size,
            final(self).view().idle_timeout_ms == old(self).view().idle_timeout_ms,
            forall|v: T| final(self).made_by_factory(v) == old(self).made_by_factory(v),
            acquired(old(self).view(), final(self).view(), r, now),
            creates(old(self).view(), now) ==> (r matches Some(c) && old(self).made_by_factory(c.connection)),
    {
        proof { use_type_invariant(&*self); }
        let mut queue: VecDeque<PooledConnection<T>> = VecDeque::new();
        std::mem::swap(&mut queue, &mut self.available);
        let front = queue.pop_front();
        self.available = queue;
        if let Some(pooled) = front {
            let elapsed = now.saturating_sub(pooled.last_used);
            if elapsed < self.config.idle_timeout_ms {
                self.in_use = self.in_use.wrapping_add(1);
                return Some(pooled);
            }
        }
        let in_use = self.in_use;
        if in_use < self.config.max_size && self.available.len() < self.config.max_size - in_use {
            let conn = (self.factory)();
            let id = self.total_created;
            self.total_created = self.total_created.wrapping_add(1);
            self.in_use = self.in_use.wrapping_add(1);
            return Some(PooledConnection { connection: conn, last_used: now, id });
        }
        None
    }

    /// Return a connection to the pool, reading the clock for the current time.
    pub fn release(&mut self, pooled: PooledConnection<T>)
        ensures
            final(self).factory_ok() == old(self).factory_ok(),
            forall|v: T| final(self).made_by_factory(v) == old(self).made_by_factory(v),
            exists|now: u64| final(self).view() == #[trigger] released(old(self).view(), pooled, now),
    {
        let now = clock::unix_millis();
        self.release_at(pooled, now)
    }

    /// Return a connection at time `now`: it is stamped with `now` and joins
    /// the back of the idle queue when fewer than `max_size / 2` connections
    /// are idle (it is dropped otherwise); the in-use count falls by one
    /// (wrapping).
    pub fn release_at(&mut self, pooled: PooledConnection<T>, now: u64)
        ensures
            final(self).factory_ok() == old(self).factory_ok(),
            forall|v: T| final(self).made_by_factory(v) == old(self).made_by_factory(v),
            final(self).view() == released(old(self).view(), pooled, now),
    {
        proof { use_type_invariant(&*self); }
        let mut pooled = pooled;
        pooled.last_used = now;
        if self.available.len() < self.config.max_size / 2 {
            let mut queue: VecDeque<PooledConnection<T>> = VecDeque::new();
            std::mem::swap(&mut queue, &mut self.available);
            queue.push_back(pooled);
            self.available = queue;
        }
        self.in_use = self.in_use.wrapping_sub(1);
    }

    /// Get pool statistics.
    pub fn stats(&self) -> (r: PoolStats)
        ensures
            r.total_created == self.view().total_created,
            r.available_count == self.view().available.len(),
            r.in_use_count == self.view().in_use,
            idle_bounded(self.view()),
    {
        proof { use_type_invariant(self); }
        PoolStats {
            total_created: self.total_created,
            available_count: self.available.len(),
            in_use_count: self.in_use,
        }
    }

    /// Drop idle connections that timed out, reading the clock.
    pub fn cleanup(&mut self)
        ensures
            final(self).factory_ok() == old(self).factory_ok(),
            forall|v: T| final(self).made_by_factory(v) == old(self).made_by_factory(v),
            exists|now: u64| final(self).view() == (PoolView {
                available: #[trigger] fresh_only(old(self).view().available, now, old(self).view().idle_timeout_ms),
                ..old(self).view()
            }),
    {
        let now = clock::unix_millis();
        self.cleanup_at(now)
    }

    /// Drop the idle connections that are no longer fresh at `now`, keeping
    /// the order of the others.
    pub fn cleanup_at(&mut self, now: u64)
        ensures
            final(self).factory_ok() == old(self).factory_ok(),
            forall|v: T| final(self).made_by_factory(v) == old(self).made_by_factory(v),
            final(self).view() == (PoolView {
                available: fresh_only(old(self).view().available, now, old(self).view().idle_timeout_ms),
                ..old(self).view()
            }),
    {
        proof { use_type_invariant(&*self); }
        let ghost s0 = self.available@;
        let timeout = self.config.idle_timeout_ms;
        let mut queue: VecDeque<PooledConnection<T>> = VecDeque::new();
        std::mem::swap(&mut queue, &mut self.available);
        let mut kept: VecDeque<PooledConnection<T>> = VecDeque::new();
        let n = queue.len();
        let mut i: usize = 0;
        while i < n
            invariant
                i <= n == s0.len(),
                queue@ == s0.skip(i as int),
                kept@ == fresh_only(s0.take(i as int), now, timeout),
            decreases n - i,
        {
            let c = queue.pop_front();
            assert(s0.take(i + 1).drop_last() =~= s0.take(i as int));
            assert(s0.skip(i as int).subrange(1, s0.skip(i as int).len() as int) =~= s0.skip(i + 1));
            match c {
                Some(c) => {
                    if now.saturating_sub(c.last_used) < timeout {
                        kept.push_back(c);
                    }
                },
                None => {},
            }
            i = i + 1;
        }
        assert(s0.take(n as int) =~= s0);
        proof { lemma_fresh_only_len(s0, now, timeout); }
        self.available = kept;
    }

    /// Reset the pool: no idle connection, and both counters zero.
    pub fn reset(&mut self)
        ensures
            final(self).factory_ok() == old(self).factory_ok(),
            forall|v: T| final(self).made_by_factory(v) == old(self).made_by_factory(v),
            final(self).view() == (PoolView { available: Seq::empty(), total_created: 0, in_use: 0, ..old(self).view() }),
    {
        self.available = VecDeque::new();
        self.total_created = 0;
        self.in_use = 0;
    }
}

/// What `acquire_at(now)` does: from `a` the pool goes to `b` handing out `r`.
/// (A created connection is one the factory may return: see `acquire_at`.)
pub open spec fn acquired<T>(a: PoolView<T>, b: PoolView<T>, r: Option<PooledConnection<T>>, now: u64) -> bool {
    if reuses(a, now) {
        &&& r == Some(a.available[0])
        &&& b == (PoolView { available: popped(a), in_use: usize_specs::wrapping_add(a.in_use, 1), ..a })
    } else if creates(a, now) {
        &&& r matches Some(c) && c.id == a.total_created && c.last_used == now
        &&& b == (PoolView {
                available: popped(a),
                total_created: u64_specs::wrapping_add(a.total_created, 1),
                in_use: usize_specs::wrapping_add(a.in_use, 1),
                ..a
            })
    } else {
        &&& r is None
        &&& b == (PoolView { available: popped(a), ..a })
    }
}

/// What `release_at(c, now)` does to the pool `a`.
pub open spec fn released<T>(a: PoolView<T>, c: PooledConnection<T>, now: u64) -> PoolView<T> {
    PoolView {
        available: if a.available.len() < a.max_size / 2 {
            a.available.push(PooledConnection { last_used: now, ..c })
        } else {
            a.available
        },
        in_use: usize_specs::wrapping_sub(a.in_use, 1),
        ..a
    }
}

} // verus!

verus! {

/// Reuse law: a connection released while fewer than `max_size / 2` are idle
/// is the one that the next acquisition hands back, as long as it stays
/// fresh; no new connection is created for it.
pub proof fn law_release_then_acquire_reuses<T>(a: PoolView<T>, c: PooledConnection<T>, t: u64, b: PoolView<T>, r: Option<PooledConnection<T>>, now: u64)
    requires
        a.available.len() == 0,
        a.max_size / 2 > 0,
        t <= now,
        now - t < a.idle_timeout_ms,
        acquired(released(a, c, t), b, r, now),
    ensures
        r == Some(PooledConnection { last_used: t, ..c }),
        b.total_created == a.total_created,
        b.available.len() == 0,
{
    let m = released(a, c, t);
    assert(m.available.len() == 1);
    assert(m.available[0] == PooledConnection { last_used: t, ..c });
    assert(m.available.drop_first().len() == 0);
}

/// Limit law: an acquisition keeps the connections open, in use and idle
/// together, within `max_size`, and leaves the creation count as it was
/// when it hands out nothing.
pub proof fn law_acquire_respects_max_size<T>(a: PoolView<T>, b: PoolView<T>, r: Option<PooledConnection<T>>, now: u64)
    requires
        pool_ok(a),
        acquired(a, b, r, now),
    ensures
        pool_ok(b),
        b.max_size == a.max_size,
        b.in_use <= b.max_size,
        r is None ==> b.in_use == a.in_use && b.total_created == a.total_created,
        r is Some ==> b.in_use == a.in_use + 1,
{
}

/// Availability law: while fewer than `max_size` connections are in use
/// (and the open connections are within `max_size`), an acquisition hands out
/// a connection, reused or new.
pub proof fn law_acquire_succeeds_below_limit<T>(a: PoolView<T>, b: PoolView<T>, r: Option<PooledConnection<T>>, now: u64)
    requires
        pool_ok(a),
        a.in_use < a.max_size,
        acquired(a, b, r, now),
    ensures
        r is Some,
{
}

/// Release law: returning a connection while at least one is out lowers
/// the in-use count by one, keeps the creation count, queues the connection
/// last (stamped `now`) while fewer than `max_size / 2` are idle and drops it
/// otherwise, and keeps the pool within `max_size`.
pub proof fn law_release_lowers_in_use<T>(a: PoolView<T>, c: PooledConnection<T>, now: u64)
    requires
        pool_ok(a),
        a.in_use >= 1,
    ensures
        released(a, c, now).in_use == a.in_use - 1,
        released(a, c, now).total_created == a.total_created,
        released(a, c, now).available.len() == a.available.len() + if a.available.len() < a.max_size / 2 { 1int } else { 0int },
        pool_ok(released(a, c, now)),
{
}

/// Dropping stale idle connections never adds any.
pub proof fn law_cleanup_keeps_within_limit<T>(a: PoolView<T>, now: u64)
    requires
        pool_ok(a),
    ensures
        pool_ok(PoolView { available: fresh_only(a.available, now, a.idle_timeout_ms), ..a }),
{
    lemma_fresh_only_len(a.available, now, a.idle_timeout_ms);
}

proof fn lemma_fresh_only_len<T>(s: Seq<PooledConnection<T>>, now: u64, timeout: u64)
    ensures
        fresh_only(s, now, timeout).len() <= s.len(),
    decreases s.len(),
{
    if s.len() > 0 {
        lemma_fresh_only_len(s.drop_last(), now, timeout);
    }
}

} // verus!
