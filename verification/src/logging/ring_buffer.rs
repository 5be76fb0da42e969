//! Ring buffer: circular fixed-size store of audit entries that overwrites
//! the oldest entries when full.
use vstd::prelude::*;

verus! {

/// Log severity levels.
#[derive(Clone, Copy, Debug, PartialEq, Eq)]
pub enum LogSeverity {
    Info,
    Warn,
    Error,
    Debug,
}

impl LogSeverity {
    /// The severity's name in lower case.
    pub fn as_str(&self) -> (r: &'static str)
        ensures
            r@ == match self {
                LogSeverity::Info => "info"@,
                LogSeverity::Warn => "warn"@,
                LogSeverity::Error => "error"@,
                LogSeverity::Debug => "debug"@,
            },
    {
        match self {
            LogSeverity::Info => "info",
            LogSeverity::Warn => "warn",
            LogSeverity::Error => "error",
            LogSeverity::Debug => "debug",
        }
    }
}

} // verus!

verus! {

/// Log entry of the ring buffer.
#[derive(Debug)]
pub struct RingBufferEntry {
    /// Milliseconds since the Unix epoch
    pub timestamp_millis: i64,
    pub severity: LogSeverity,
    pub message: String,
    pub context: Option<String>,
}

impl Clone for RingBufferEntry {
    fn clone(&self) -> (r: Self)
        ensures
            r == *self,
    {
        RingBufferEntry {
            timestamp_millis: self.timestamp_millis,
            severity: self.severity,
            message: self.message.clone(),
            context: match &self.context {
                Some(c) => Some(c.clone()),
                None => None,
            },
        }
    }
}

/// The entries held at positions `ps` of `slots`, in that order, skipping
/// empty slots.
pub open spec fn collect_some(slots: Seq<Option<RingBufferEntry>>, ps: Seq<int>) -> Seq<RingBufferEntry>
    decreases ps.len(),
{
    if ps.len() == 0 {
        Seq::empty()
    } else {
        let r = collect_some(slots, ps.drop_last());
        match slots[ps.last()] {
            Some(e) => r.push(e),
            None => r,
        }
    }
}

/// Position read for the `i`-th most recent entry when `total` entries were
/// written into `n` slots.
pub open spec fn recent_position(total: usize, n: usize, i: int) -> int {
    if total >= n {
        ((total - 1 - i) % (n as int))
    } else {
        if total >= 1 + i { total - 1 - i } else { 0 }
    }
}

/// Positions read, oldest first, by `read_all` when `total` entries were
/// written, `len` are held, into `n` slots.
pub open spec fn all_positions(total: usize, len: usize, n: usize) -> Seq<int> {
    let start: int = if total >= n { ((total as int) % (n as int)) } else { 0 };
    Seq::new(len as nat, |i: int| (start + i) % (n as int))
}

/// Circular buffer with `N` slots.
pub struct RingBuffer<const N: usize> {
    buffer: Vec<Option<RingBufferEntry>>,
    write_pos: usize,
    entry_count: usize,
}

impl<const N: usize> RingBuffer<N> {
    /// The slots.
    pub closed spec fn slots(&self) -> Seq<Option<RingBufferEntry>> {
        self.buffer@
    }

    /// Entries written since creation or the last clear (wrapping).
    pub closed spec fn written(&self) -> usize {
        self.write_pos
    }

    /// Entries held: the number written, capped at `N`.
    pub closed spec fn count(&self) -> usize {
        self.entry_count
    }

    /// The buffer has `N` slots and holds no more than `N` entries.
    pub closed spec fn wf(&self) -> bool {
        self.buffer@.len() == N && self.entry_count <= N
    }

    /// An empty buffer with `N` empty slots.
    pub fn new() -> (r: Self)
        requires
            N > 0,
        ensures
            r.wf(),
            r.written() == 0,
            r.count() == 0,
            r.slots() == Seq::new(N as nat, |i: int| None::<RingBufferEntry>),
    {
        let mut buffer: Vec<Option<RingBufferEntry>> = Vec::new();
        let mut i: usize = 0;
        while i < N
            invariant
                i <= N,
                buffer@ == Seq::new(i as nat, |k: int| None::<RingBufferEntry>),
            decreases N - i,
        {
            buffer.push(None);
            assert(buffer@ =~= Seq::new((i + 1) as nat, |k: int| None::<RingBufferEntry>));
            i = i + 1;
        }
        RingBuffer { buffer, write_pos: 0, entry_count: 0 }
    }

    /// Write an entry at position `written % N`, overwriting what was there;
    /// returns the position. The written count grows by one (wrapping) and
    /// the held count by one up to `N`.
    pub fn push(&mut self, entry: RingBufferEntry) -> (pos: usize)
        requires
            old(self).wf(),
            N > 0,
        ensures
            final(self).wf(),
            pos == old(self).written() % N,
            final(self).slots() == old(self).slots().update(pos as int, Some(entry)),
            final(self).written() == vstd::wrapping::usize_specs::wrapping_add(old(self).written(), 1),
            final(self).count() == if old(self).count() < N { (old(self).count() + 1) as usize } else { old(self).count() },
    {
        let pos = self.write_pos % N;
        self.write_pos = self.write_pos.wrapping_add(1);
        if self.entry_count < N {
            self.entry_count = self.entry_count + 1;
        }
        self.buffer.set(pos, Some(entry));
        pos
    }

    /// Number of entries held.
    pub fn len(&self) -> (r: usize)
        ensures
            r == self.count(),
    {
        self.entry_count
    }

    /// Whether no entry is held.
    pub fn is_empty(&self) -> (r: bool)
        ensures
            r == (self.count() == 0),
    {
        self.entry_count == 0
    }

    /// The most recent entries, newest first: the slots of the `min(count,
    /// held)` most recent positions, skipping empty ones.
    pub fn read_recent(&self, count: usize) -> (r: Vec<RingBufferEntry>)
        requires
            self.wf(),
            N > 0,
        ensures
            r@ == collect_some(self.slots(), Seq::new(
                (if count < self.count() { count } else { self.count() }) as nat,
                |i: int| recent_position(self.written(), N, i))),
    {
        let total = self.write_pos;
        let k = if count < self.entry_count { count } else { self.entry_count };
        let ghost ps = Seq::new(k as nat, |i: int| recent_position(total, N, i));
        let mut result: Vec<RingBufferEntry> = Vec::new();
        let mut i: usize = 0;
        while i < k
            invariant
                i <= k <= self.entry_count <= N == self.buffer@.len(),
                total == self.write_pos,
                ps == Seq::new(k as nat, |j: int| recent_position(total, N, j)),
                result@ == collect_some(self.buffer@, ps.take(i as int)),
            decreases k - i,
        {
            let read_pos = if total >= N {
                (total - 1 - i) % N
            } else {
                total.saturating_sub(1 + i)
            };
            assert(read_pos == ps[i as int]);
            assert(ps.take(i + 1).drop_last() =~= ps.take(i as int));
            match &self.buffer[read_pos] {
                Some(entry) => {
                    result.push(entry.clone());
                },
                None => {},
            }
            i = i + 1;
        }
        assert(ps.take(k as int) =~= ps);
        result
    }

    /// All held entries, oldest first: the held count of slots starting at
    /// `written % N` when the buffer has wrapped and at 0 otherwise, skipping
    /// empty ones.
    pub fn read_all(&self) -> (r: Vec<RingBufferEntry>)
        requires
            self.wf(),
            N > 0,
        ensures
            r@ == collect_some(self.slots(), all_positions(self.written(), self.count(), N)),
    {
        let total = self.write_pos;
        let n = self.entry_count;
        let ghost ps = all_positions(total, n, N);
        let mut result: Vec<RingBufferEntry> = Vec::new();
        if n == 0 {
            assert(ps =~= Seq::<int>::empty());
            return result;
        }
        let start = if total >= N { total % N } else { 0 };
        let mut i: usize = 0;
        while i < n
            invariant
                i <= n == self.entry_count <= N == self.buffer@.len(),
                start < N,
                start as int == (if total >= N { ((total as int) % (N as int)) } else { 0 }),
                ps == all_positions(total, n, N),
                result@ == collect_some(self.buffer@, ps.take(i as int)),
            decreases n - i,
        {
            let read_pos = ((start as u128 + i as u128) % (N as u128)) as usize;
            assert(read_pos == ps[i as int]);
            assert(ps.take(i + 1).drop_last() =~= ps.take(i as int));
            match &self.buffer[read_pos] {
                Some(entry) => {
                    result.push(entry.clone());
                },
                None => {},
            }
            i = i + 1;
        }
        assert(ps.take(n as int) =~= ps);
        result
    }

    /// Clear the buffer: nothing written, nothing held (the slots keep their
    /// old contents, which are no longer read).
    pub fn clear(&mut self)
        requires
            old(self).wf(),
        ensures
            final(self).wf(),
            final(self).slots() == old(self).slots(),
            final(self).written() == 0,
            final(self).count() == 0,
    {
        self.write_pos = 0;
        self.entry_count = 0;
    }

    /// Number of slots.
    pub fn capacity(&self) -> (r: usize)
        ensures
            r == N,
    {
        N
    }
}

/// Most-recent law: right after an entry is written, reading the single most
/// recent entry gives that entry back.
pub proof fn law_last_written_is_most_recent(slots: Seq<Option<RingBufferEntry>>, written: usize, n: usize, e: RingBufferEntry)
    requires
        n > 0,
        slots.len() == n,
        written < usize::MAX,
    ensures
        collect_some(slots.update((written % n) as int, Some(e)), Seq::new(1, |i: int| recent_position((written + 1) as usize, n, i)))
            == seq![e],
{
    let s2 = slots.update((written % n) as int, Some(e));
    let ps = Seq::new(1, |i: int| recent_position((written + 1) as usize, n, i));
    assert(ps[0] == (written % n) as int) by {
        if written + 1 >= n {
            assert(((written + 1 - 1 - 0) % (n as int)) == (written as int) % (n as int));
        } else {
            assert((written as int) % (n as int) == written) by (nonlinear_arith)
                requires written < n;
        }
    }
    assert(ps.drop_last() =~= Seq::<int>::empty());
    assert(collect_some(s2, ps.drop_last()) == Seq::<RingBufferEntry>::empty());
    assert(0 <= (written as int) % (n as int) < n);
    assert(s2[ps.last()] == Some(e));
    assert(collect_some(s2, ps) =~= seq![e]);
}

} // verus!

verus! {

/// The slots after the entries `es` are pushed one by one into `slots`
/// starting from a write count of 0: entry `j` goes to slot `j mod n`.
pub open spec fn pushed_slots(slots: Seq<Option<RingBufferEntry>>, es: Seq<RingBufferEntry>, n: nat) -> Seq<Option<RingBufferEntry>>
    decreases es.len(),
{
    if es.len() == 0 {
        slots
    } else {
        pushed_slots(slots, es.drop_last(), n).update((es.len() - 1) % (n as int), Some(es.last()))
    }
}

proof fn lemma_residues_differ(j: int, d: int, n: int)
    requires
        0 <= j,
        0 < d < n,
    ensures
        (j + d) % n != j % n,
{
    vstd::arithmetic::div_mod::lemma_fundamental_div_mod(j, n);
    vstd::arithmetic::div_mod::lemma_fundamental_div_mod(j + d, n);
    let q1 = j / n;
    let q2 = (j + d) / n;
    let r1 = j % n;
    let r2 = (j + d) % n;
    if r1 == r2 {
        assert(d == n * (q2 - q1)) by (nonlinear_arith)
            requires
                j == n * q1 + r1,
                j + d == n * q2 + r2,
                r1 == r2;
        if q2 - q1 <= 0 {
            assert(n * (q2 - q1) <= 0) by (nonlinear_arith)
                requires
                    n > 0,
                    q2 - q1 <= 0;
        } else {
            assert(n * (q2 - q1) >= n) by (nonlinear_arith)
                requires
                    n > 0,
                    q2 - q1 >= 1;
        }
    }
}

/// After `es` are pushed, each of the last `n` entries sits in its slot.
proof fn lemma_pushed_slots(slots: Seq<Option<RingBufferEntry>>, es: Seq<RingBufferEntry>, n: nat, j: int)
    requires
        n > 0,
        slots.len() == n,
        0 <= j < es.len(),
        j >= es.len() - n,
    ensures
        pushed_slots(slots, es, n).len() == n,
        pushed_slots(slots, es, n)[j % (n as int)] == Some(es[j]),
    decreases es.len(),
{
    let k = es.len() as int;
    let prev = pushed_slots(slots, es.drop_last(), n);
    lemma_pushed_len(slots, es.drop_last(), n);
    assert(0 <= (k - 1) % (n as int) < n);
    if j < k - 1 {
        lemma_pushed_slots(slots, es.drop_last(), n, j);
        assert(es.drop_last()[j] == es[j]);
        lemma_residues_differ(j, k - 1 - j, n as int);
        assert(j + (k - 1 - j) == k - 1);
    }
    assert(0 <= j % (n as int) < n);
}

proof fn lemma_pushed_len(slots: Seq<Option<RingBufferEntry>>, es: Seq<RingBufferEntry>, n: nat)
    requires
        n > 0,
        slots.len() == n,
    ensures
        pushed_slots(slots, es, n).len() == n,
    decreases es.len(),
{
    if es.len() > 0 {
        lemma_pushed_len(slots, es.drop_last(), n);
        assert(0 <= (es.len() - 1) % (n as int) < n);
    }
}

proof fn lemma_collect_all_some(slots: Seq<Option<RingBufferEntry>>, ps: Seq<int>, t: Seq<RingBufferEntry>)
    requires
        ps.len() == t.len(),
        forall|i: int| 0 <= i < ps.len() ==> 0 <= #[trigger] ps[i] < slots.len() && slots[ps[i]] == Some(t[i]),
    ensures
        collect_some(slots, ps) == t,
    decreases ps.len(),
{
    if ps.len() > 0 {
        lemma_collect_all_some(slots, ps.drop_last(), t.drop_last());
        assert(ps[ps.len() - 1] == ps.last());
        assert(t =~= t.drop_last().push(t.last()));
    }
}

/// Read-back law: after the entries `es` are pushed into an `n`-slot buffer
/// that starts with nothing written, `read_all` gives back the last `n` of
/// them (all of them when there are fewer), oldest first, whatever the
/// slots held before.
pub proof fn law_read_all_gives_last_entries_oldest_first(slots: Seq<Option<RingBufferEntry>>, es: Seq<RingBufferEntry>, n: usize)
    requires
        n > 0,
        slots.len() == n,
        es.len() < usize::MAX,
    ensures
        ({
            let k = es.len() as int;
            let held: int = if k < n { k } else { n as int };
            collect_some(pushed_slots(slots, es, n as nat), all_positions(k as usize, held as usize, n))
                == es.subrange(k - held, k)
        }),
{
    let k = es.len() as int;
    let held: int = if k < n { k } else { n as int };
    let ps = all_positions(k as usize, held as usize, n);
    let t = es.subrange(k - held, k);
    let s2 = pushed_slots(slots, es, n as nat);
    lemma_pushed_len(slots, es, n as nat);
    assert forall|i: int| 0 <= i < ps.len() implies 0 <= #[trigger] ps[i] < s2.len() && s2[ps[i]] == Some(t[i]) by {
        let j = k - held + i;
        lemma_pushed_slots(slots, es, n as nat, j);
        if k < n {
            vstd::arithmetic::div_mod::lemma_small_mod(i as nat, n as nat);
            vstd::arithmetic::div_mod::lemma_small_mod(j as nat, n as nat);
            assert(ps[i] == (0 + i) % (n as int));
        } else {
            let start = k % (n as int);
            assert(ps[i] == (start + i) % (n as int));
            vstd::arithmetic::div_mod::lemma_small_mod(i as nat, n as nat);
            vstd::arithmetic::div_mod::lemma_add_mod_noop(k, i, n as int);
            vstd::arithmetic::div_mod::lemma_mod_add_multiples_vanish(j, n as int);
            assert(n + j == k + i);
        }
    }
    lemma_collect_all_some(s2, ps, t);
}

} // verus!
