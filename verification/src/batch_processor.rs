//! Batching of queued items: items wait in arrival order and leave in
//! batches of bounded size. Times are nanoseconds since the epoch.
use vstd::prelude::*;
use vstd::wrapping::u64_specs::wrapping_add;
use std::collections::VecDeque;
use crate::clock;

verus! {

/// Batch configuration.
#[derive(Debug, Clone)]
pub struct BatchConfig {
    /// Maximum items per batch.
    pub max_batch_size: usize,
    /// Longest wait before a partial batch is processed (milliseconds).
    pub batch_timeout_ms: u64,
    /// Whether the batch size adapts to throughput.
    pub adaptive: bool,
}

impl Default for BatchConfig {
    fn default() -> (r: Self)
        ensures
            r.max_batch_size == 64,
            r.batch_timeout_ms == 10,
            r.adaptive,
    {
        BatchConfig { max_batch_size: 64, batch_timeout_ms: 10, adaptive: true }
    }
}

/// Batch statistics.
#[derive(Debug, Clone, Copy)]
pub struct BatchStats {
    /// Number of batches handed out.
    pub processed_batches: u64,
    /// Items waiting.
    pub pending_items: usize,
}

/// The outcome of processing a batch.
#[derive(Debug, Clone, Copy)]
pub struct BatchResult {
    pub items_processed: usize,
    pub successes: usize,
    pub failures: usize,
    pub duration_us: u64,
}

/// The time that has passed from `since` to `now` (none when `now` is
/// earlier).
pub open spec fn elapsed(since: u64, now: u64) -> nat {
    if now >= since { (now - since) as nat } else { 0 }
}

/// Items queued for batch processing, oldest first.
pub struct BatchProcessor<T> {
    pending: VecDeque<T>,
    config: BatchConfig,
    processed_batches: u64,
    last_batch_time: u64,
}

impl<T> BatchProcessor<T> {
    /// The waiting items, oldest first.
    pub closed spec fn spec_pending(&self) -> Seq<T> {
        self.pending@
    }

    /// The configuration.
    pub closed spec fn spec_config(&self) -> BatchConfig {
        self.config
    }

    /// Number of batches handed out.
    pub closed spec fn spec_processed(&self) -> u64 {
        self.processed_batches
    }

    /// When the last batch was handed out (or the processor made).
    pub closed spec fn spec_last_batch_time(&self) -> u64 {
        self.last_batch_time
    }

    /// An empty processor made now; see `new_at`.
    pub fn new(config: BatchConfig) -> (r: Self)
        ensures
            r.spec_pending().len() == 0,
            r.spec_config() == config,
            r.spec_processed() == 0,
    {
        Self::new_at(config, clock::unix_nanos())
    }

    /// An empty processor made at `now`.
    pub fn new_at(config: BatchConfig, now: u64) -> (r: Self)
        ensures
            r.spec_pending().len() == 0,
            r.spec_config() == config,
            r.spec_processed() == 0,
            r.spec_last_batch_time() == now,
    {
        BatchProcessor { pending: VecDeque::new(), config, processed_batches: 0, last_batch_time: now }
    }

    /// Queue an item.
    pub fn add(&mut self, item: T)
        ensures
            final(self).spec_pending() == old(self).spec_pending().push(item),
            final(self).spec_config() == old(self).spec_config(),
            final(self).spec_processed() == old(self).spec_processed(),
            final(self).spec_last_batch_time() == old(self).spec_last_batch_time(),
    {
        self.pending.push_back(item);
    }

    /// Queue items in order.
    pub fn add_batch(&mut self, items: Vec<T>)
        ensures
            final(self).spec_pending() == old(self).spec_pending() + items@,
            final(self).spec_config() == old(self).spec_config(),
            final(self).spec_processed() == old(self).spec_processed(),
            final(self).spec_last_batch_time() == old(self).spec_last_batch_time(),
    {
        let ghost all = items@;
        let total = items.len();
        let mut rest = items;
        let mut rev: Vec<T> = Vec::new();
        while rest.len() > 0
            invariant
                rest@ == all.take(rest@.len() as int),
                rest@.len() + rev@.len() == all.len(),
                forall|m: int| 0 <= m < rev@.len() ==> #[trigger] rev@[m] == all[all.len() - 1 - m],
            decreases rest@.len(),
        {
            let ghost before = rest@;
            let x = rest.pop().unwrap();
            assert(before.drop_last() =~= all.take(rest@.len() as int));
            rev.push(x);
        }
        let ghost p0 = self.pending@;
        let mut done: usize = 0;
        while rev.len() > 0
            invariant
                done + rev@.len() == all.len(),
                all.len() == total,
                forall|m: int| 0 <= m < rev@.len() ==> #[trigger] rev@[m] == all[all.len() - 1 - m],
                self.pending@ == p0 + all.take(done as int),
                self.config == old(self).config,
                self.processed_batches == old(self).processed_batches,
                self.last_batch_time == old(self).last_batch_time,
                p0 == old(self).pending@,
            decreases rev@.len(),
        {
            let x = rev.pop().unwrap();
            self.pending.push_back(x);
            assert(all.take(done + 1) =~= all.take(done as int).push(all[done as int]));
            assert(self.pending@ =~= p0 + all.take(done + 1));
            done = done + 1;
        }
        assert(all.take(all.len() as int) =~= all);
    }

    /// The next batch, handed out now; see `get_batch_at`.
    pub fn get_batch(&mut self) -> (r: Vec<T>)
        ensures
            exists|now: u64| #[trigger] Self::batched(*old(self), *final(self), r@, now),
    {
        let now = clock::unix_nanos();
        self.get_batch_at(now)
    }

    /// What handing out a batch at `now` did: the oldest items, at most the
    /// batch size, leave in order; a non-empty batch is counted and stamps
    /// the batch time.
    pub open spec fn batched(before: BatchProcessor<T>, after: BatchProcessor<T>, batch: Seq<T>, now: u64) -> bool {
        let p = before.spec_pending();
        let n = if p.len() < before.spec_config().max_batch_size { p.len() } else { before.spec_config().max_batch_size as nat };
        &&& batch == p.take(n as int)
        &&& after.spec_pending() == p.skip(n as int)
        &&& after.spec_config() == before.spec_config()
        &&& after.spec_processed() == if n > 0 { wrapping_add(before.spec_processed(), 1) } else { before.spec_processed() }
        &&& after.spec_last_batch_time() == if n > 0 { now } else { before.spec_last_batch_time() }
    }

    /// Hand out the next batch at `now`, as `batched` says.
    pub fn get_batch_at(&mut self, now: u64) -> (r: Vec<T>)
        ensures
            Self::batched(*old(self), *final(self), r@, now),
    {
        let ghost p0 = self.pending@;
        let mut batch: Vec<T> = Vec::new();
        while batch.len() < self.config.max_batch_size
            invariant_except_break
                batch@.len() <= self.config.max_batch_size,
                batch@ + self.pending@ == p0,
                self.config == old(self).config,
                self.processed_batches == old(self).processed_batches,
                self.last_batch_time == old(self).last_batch_time,
                p0 == old(self).pending@,
            ensures
                batch@.len() <= self.config.max_batch_size,
                batch@ + self.pending@ == p0,
                batch@.len() == self.config.max_batch_size || self.pending@.len() == 0,
                self.config == old(self).config,
                self.processed_batches == old(self).processed_batches,
                self.last_batch_time == old(self).last_batch_time,
                p0 == old(self).pending@,
            decreases self.pending@.len(),
        {
            let ghost q0 = self.pending@;
            match self.pending.pop_front() {
                Some(item) => {
                    let ghost b0 = batch@;
                    batch.push(item);
                    assert(batch@ + self.pending@ =~= b0 + q0);
                },
                None => {
                    break;
                },
            }
        }
        proof {
            let n = batch@.len();
            assert(p0.take(n as int) =~= batch@);
            assert(p0.skip(n as int) =~= self.pending@);
        }
        if batch.len() > 0 {
            self.processed_batches = self.processed_batches.wrapping_add(1);
            self.last_batch_time = now;
        }
        batch
    }

    /// Whether items are waiting.
    pub fn has_pending(&self) -> (r: bool)
        ensures
            r == (self.spec_pending().len() > 0),
    {
        self.pending.len() > 0
    }

    /// Whether a batch should be processed now; see `should_process_at`.
    pub fn should_process(&self) -> (r: bool)
        ensures
            self.spec_pending().len() >= self.spec_config().max_batch_size ==> r,
            exists|now: u64| r == (self.spec_pending().len() >= self.spec_config().max_batch_size
                || #[trigger] elapsed(self.spec_last_batch_time(), now) >= self.spec_config().batch_timeout_ms * 1_000_000),
    {
        self.should_process_at(clock::unix_nanos())
    }

    /// Whether a batch should be processed at `now`: a full batch is
    /// waiting, or the timeout has passed since the last batch.
    pub fn should_process_at(&self, now: u64) -> (r: bool)
        ensures
            r == (self.spec_pending().len() >= self.spec_config().max_batch_size
                || elapsed(self.spec_last_batch_time(), now) >= self.spec_config().batch_timeout_ms * 1_000_000),
    {
        if self.pending.len() >= self.config.max_batch_size {
            return true;
        }
        let e: u64 = if now >= self.last_batch_time { now - self.last_batch_time } else { 0 };
        e as u128 >= self.config.batch_timeout_ms as u128 * 1_000_000
    }

    /// The statistics.
    pub fn stats(&self) -> (r: BatchStats)
        ensures
            r.processed_batches == self.spec_processed(),
            r.pending_items == self.spec_pending().len(),
    {
        BatchStats { processed_batches: self.processed_batches, pending_items: self.pending.len() }
    }

    /// Change the batch timeout.
    pub fn update_timeout(&mut self, timeout_ms: u64)
        ensures
            final(self).spec_config() == (BatchConfig { batch_timeout_ms: timeout_ms, ..old(self).spec_config() }),
            final(self).spec_pending() == old(self).spec_pending(),
            final(self).spec_processed() == old(self).spec_processed(),
            final(self).spec_last_batch_time() == old(self).spec_last_batch_time(),
    {
        self.config.batch_timeout_ms = timeout_ms;
    }
}

/// Batching law: nothing is lost or reordered by handing out a batch (the
/// batch followed by what stays pending is what was pending), and a batch
/// never holds more than the batch size.
pub proof fn law_batches_keep_order<T>(before: BatchProcessor<T>, after: BatchProcessor<T>, batch: Seq<T>, now: u64)
    requires
        BatchProcessor::batched(before, after, batch, now),
    ensures
        batch + after.spec_pending() == before.spec_pending(),
        batch.len() <= before.spec_config().max_batch_size,
{
    let p = before.spec_pending();
    let n = if p.len() < before.spec_config().max_batch_size { p.len() } else { before.spec_config().max_batch_size as nat };
    assert(p.take(n as int) + p.skip(n as int) =~= p);
}

} // verus!
