//! Levels and settings of the asynchronous logger.
use vstd::prelude::*;

verus! {

/// Log levels.
#[derive(Debug, Clone, Copy, PartialEq, Eq)]
pub enum LogLevel {
    Trace,
    Debug,
    Info,
    Warn,
    Error,
}

impl LogLevel {
    /// The level's name in capitals.
    pub fn as_str(&self) -> (r: &'static str)
        ensures
            r@ == match self {
                LogLevel::Trace => "TRACE"@,
                LogLevel::Debug => "DEBUG"@,
                LogLevel::Info => "INFO"@,
                LogLevel::Warn => "WARN"@,
                LogLevel::Error => "ERROR"@,
            },
    {
        match self {
            LogLevel::Trace => "TRACE",
            LogLevel::Debug => "DEBUG",
            LogLevel::Info => "INFO",
            LogLevel::Warn => "WARN",
            LogLevel::Error => "ERROR",
        }
    }
}

} // verus!

verus! {

/// Configuration for the asynchronous logger.
#[derive(Debug, Clone)]
pub struct AsyncLoggerConfig {
    /// Channel capacity (buffer size)
    pub channel_capacity: usize,
    /// Batch size for flushing
    pub batch_size: usize,
    /// Flush interval in milliseconds
    pub flush_interval_ms: u64,
}

impl Default for AsyncLoggerConfig {
    fn default() -> (r: Self)
        ensures
            r.channel_capacity == 10000 && r.batch_size == 100 && r.flush_interval_ms == 100,
    {
        AsyncLoggerConfig { channel_capacity: 10000, batch_size: 100, flush_interval_ms: 100 }
    }
}

/// Statistics from the asynchronous logger.
#[derive(Debug, Clone, Copy)]
pub struct AsyncLoggerStats {
    pub entries_logged: u64,
    pub entries_flushed: u64,
    pub pending: u64,
}

impl AsyncLoggerStats {
    /// Statistics for these counts: pending is logged minus flushed.
    pub fn from_counts(entries_logged: u64, entries_flushed: u64) -> (r: Self)
        requires
            entries_flushed <= entries_logged,
        ensures
            r.entries_logged == entries_logged,
            r.entries_flushed == entries_flushed,
            r.pending == entries_logged - entries_flushed,
    {
        AsyncLoggerStats { entries_logged, entries_flushed, pending: entries_logged - entries_flushed }
    }
}

/// Log entry for the asynchronous logger.
#[derive(Clone, Debug)]
pub struct AsyncLogEntry {
    /// Milliseconds since the Unix epoch
    pub timestamp_millis: i64,
    pub level: LogLevel,
    pub target: String,
    pub message: String,
    pub context: Option<String>,
}

/// Batching decisions of the background flush task: entries are buffered
/// and handed over as one batch when the buffer reaches the batch size, at
/// each periodic tick when it is not empty, and once more when the channel
/// closes.
pub struct LogBatcher {
    batch_size: usize,
    buffered: Vec<AsyncLogEntry>,
    flushed: u64,
}

impl LogBatcher {
    /// The buffered entries.
    pub closed spec fn buffered(&self) -> Seq<AsyncLogEntry> {
        self.buffered@
    }

    /// Entries handed over so far.
    pub closed spec fn flushed(&self) -> u64 {
        self.flushed
    }

    /// The configured batch size.
    pub closed spec fn batch_size(&self) -> usize {
        self.batch_size
    }

    /// A batcher with an empty buffer.
    pub fn new(config: &AsyncLoggerConfig) -> (r: Self)
        ensures
            r.buffered().len() == 0,
            r.flushed() == 0,
            r.batch_size() == config.batch_size,
    {
        LogBatcher { batch_size: config.batch_size, buffered: Vec::new(), flushed: 0 }
    }

    /// Hand over the whole buffer and count it as flushed (wrapping).
    fn take_all(&mut self) -> (r: Vec<AsyncLogEntry>)
        ensures
            r@ == old(self).buffered(),
            final(self).buffered().len() == 0,
            final(self).batch_size() == old(self).batch_size(),
            final(self).flushed() == vstd::wrapping::u64_specs::wrapping_add(old(self).flushed(), old(self).buffered().len() as u64),
    {
        let mut b: Vec<AsyncLogEntry> = Vec::new();
        std::mem::swap(&mut b, &mut self.buffered);
        self.flushed = self.flushed.wrapping_add(b.len() as u64);
        b
    }

    /// An entry arrived: it is buffered, and the buffer is handed over when
    /// it holds at least the batch size.
    pub fn on_entry(&mut self, entry: AsyncLogEntry) -> (r: Option<Vec<AsyncLogEntry>>)
        ensures
            final(self).batch_size() == old(self).batch_size(),
            old(self).buffered().len() + 1 >= old(self).batch_size() ==> (r matches Some(b)
                && b@ == old(self).buffered().push(entry) && final(self).buffered().len() == 0
                && final(self).flushed() == vstd::wrapping::u64_specs::wrapping_add(old(self).flushed(), b@.len() as u64)),
            old(self).buffered().len() + 1 < old(self).batch_size() ==> (r is None
                && final(self).buffered() == old(self).buffered().push(entry)
                && final(self).flushed() == old(self).flushed()),
    {
        self.buffered.push(entry);
        if self.buffered.len() >= self.batch_size {
            Some(self.take_all())
        } else {
            None
        }
    }

    /// A periodic tick: a non-empty buffer is handed over.
    pub fn on_tick(&mut self) -> (r: Option<Vec<AsyncLogEntry>>)
        ensures
            final(self).batch_size() == old(self).batch_size(),
            old(self).buffered().len() == 0 ==> r is None && final(self).buffered() == old(self).buffered()
                && final(self).flushed() == old(self).flushed(),
            old(self).buffered().len() > 0 ==> (r matches Some(b) && b@ == old(self).buffered()
                && final(self).buffered().len() == 0
                && final(self).flushed() == vstd::wrapping::u64_specs::wrapping_add(old(self).flushed(), b@.len() as u64)),
    {
        if self.buffered.len() == 0 {
            None
        } else {
            Some(self.take_all())
        }
    }

    /// The channel closed: whatever remains is handed over.
    pub fn on_close(&mut self) -> (r: Option<Vec<AsyncLogEntry>>)
        ensures
            final(self).batch_size() == old(self).batch_size(),
            old(self).buffered().len() == 0 ==> r is None && final(self).buffered() == old(self).buffered()
                && final(self).flushed() == old(self).flushed(),
            old(self).buffered().len() > 0 ==> (r matches Some(b) && b@ == old(self).buffered()
                && final(self).buffered().len() == 0
                && final(self).flushed() == vstd::wrapping::u64_specs::wrapping_add(old(self).flushed(), b@.len() as u64)),
    {
        self.on_tick()
    }

    /// Entries handed over so far.
    pub fn flushed_count(&self) -> (r: u64)
        ensures
            r == self.flushed(),
    {
        self.flushed
    }
}

} // verus!
