//! Priority queue of byte payloads, each named by a GUID.
//!
//! Items leave the queue highest priority first and, within one priority,
//! earliest timestamp first. Writes that should reach durable storage are
//! recorded as `IoOperation`s in an outbox that the embedding program drains.
use vstd::prelude::*;
use vstd::utf8::*;
use crate::clock;
use vstd::wrapping::u64_specs::wrapping_add;
use crate::text::{bytes_of, owned, str_eq, string_views};

verus! {

/// Priority levels (1-100, higher = more important, customizable).
#[derive(Debug, Clone, Copy, PartialEq, Eq, PartialOrd, Ord, Hash)]
pub struct Priority(pub u8);

impl Priority {
    /// The low priority level, 1.
    pub fn low() -> (r: Priority)
        ensures
            r.0 == 1,
    {
        Priority(1)
    }

    /// The medium priority level, 5.
    pub fn medium() -> (r: Priority)
        ensures
            r.0 == 5,
    {
        Priority(5)
    }

    /// The high priority level, 10.
    pub fn high() -> (r: Priority)
        ensures
            r.0 == 10,
    {
        Priority(10)
    }

    /// The critical priority level, 20.
    pub fn critical() -> (r: Priority)
        ensures
            r.0 == 20,
    {
        Priority(20)
    }

    /// Custom priority level (1-100).
    pub fn custom(level: u8) -> (r: Result<Priority, String>)
        ensures
            (1 <= level <= 100) ==> r == Ok::<Priority, String>(Priority(level)),
            !(1 <= level <= 100) ==> (r matches Err(e) && e@ == "Priority must be 1-100"@),
    {
        if level == 0 || level > 100 {
            return Err(owned("Priority must be 1-100"));
        }
        Ok(Priority(level))
    }

    pub fn get_level(&self) -> (r: u8)
        ensures
            r == self.0,
    {
        self.0
    }
}

/// Queue item with priority and GUID.
#[derive(Clone, Debug)]
pub struct PrioritizedQueueItem {
    pub guid: String,
    pub data: Vec<u8>,
    pub priority: Priority,
    pub timestamp: u64,
}

/// I/O operation for asynchronous persistence.
#[derive(Debug, Clone)]
pub enum IoOperation {
    Insert { key: Vec<u8>, value: Vec<u8> },
    Delete { key: Vec<u8> },
    Flush,
    Shutdown,
}

/// Priority statistics.
#[derive(Debug, Clone)]
pub struct PriorityStats {
    pub total_items: usize,
    pub by_priority_level: std::collections::HashMap<u8, usize>,
}

/// Backward-compatible stats used by legacy integration tests.
#[derive(Debug, Clone)]
pub struct CompatQueueStats {
    pub total_pushed: u64,
    pub total_processed: u64,
    pub total_errors: u64,
    pub total_removed: u64,
    pub active_workers: usize,
    pub total_items: usize,
    pub by_priority_level: std::collections::HashMap<u8, usize>,
}

/// Abstract value of a queue item.
pub struct ItemView {
    pub guid: Seq<char>,
    pub data: Seq<u8>,
    pub priority: u8,
    pub timestamp: u64,
}

impl View for PrioritizedQueueItem {
    type V = ItemView;

    open spec fn view(&self) -> ItemView {
        ItemView { guid: self.guid@, data: self.data@, priority: self.priority.0, timestamp: self.timestamp }
    }
}

/// Abstract value of a persistence operation.
pub enum IoView {
    Insert { key: Seq<u8>, value: Seq<u8> },
    Delete { key: Seq<u8> },
    Flush,
    Shutdown,
}

impl View for IoOperation {
    type V = IoView;

    open spec fn view(&self) -> IoView {
        match self {
            IoOperation::Insert { key, value } => IoView::Insert { key: key@, value: value@ },
            IoOperation::Delete { key } => IoView::Delete { key: key@ },
            IoOperation::Flush => IoView::Flush,
            IoOperation::Shutdown => IoView::Shutdown,
        }
    }
}

/// `a` is served before `b`: higher priority, or the same priority and an
/// earlier timestamp.
pub open spec fn served_before(a: ItemView, b: ItemView) -> bool {
    a.priority > b.priority || (a.priority == b.priority && a.timestamp < b.timestamp)
}

/// Index, among the first `n` items of `s`, of the item served next: the
/// last one found, scanning from the front, that is served before every
/// item ahead of it.
pub open spec fn next_index(s: Seq<ItemView>, n: nat) -> int
    decreases n,
{
    if n <= 1 {
        0
    } else {
        let b = next_index(s, (n - 1) as nat);
        if served_before(s[n - 1], s[b]) {
            n - 1
        } else {
            b
        }
    }
}

/// The storage key of an item: the bytes of `"item:"` followed by its GUID.
pub open spec fn item_key(guid: Seq<char>) -> Seq<u8> {
    encode_utf8("item:"@) + encode_utf8(guid)
}

/// The items of `s` whose GUID differs from `g`, in order.
pub open spec fn without_guid(s: Seq<ItemView>, g: Seq<char>) -> Seq<ItemView>
    decreases s.len(),
{
    if s.len() == 0 {
        s
    } else {
        let r = without_guid(s.drop_last(), g);
        if s.last().guid == g {
            r
        } else {
            r.push(s.last())
        }
    }
}

/// The deletions, in order, of the items of `s` whose GUID is `g`.
pub open spec fn deletions_of(s: Seq<ItemView>, g: Seq<char>) -> Seq<IoView>
    decreases s.len(),
{
    if s.len() == 0 {
        Seq::empty()
    } else {
        let r = deletions_of(s.drop_last(), g);
        if s.last().guid == g {
            r.push(IoView::Delete { key: item_key(g) })
        } else {
            r
        }
    }
}

/// `it` with priority `p` where its GUID is `g`, unchanged otherwise.
pub open spec fn reprioritized(it: ItemView, g: Seq<char>, p: u8) -> ItemView {
    if it.guid == g {
        ItemView { priority: p, ..it }
    } else {
        it
    }
}

/// Number of items in `s` with priority level `l`.
pub open spec fn level_count(s: Seq<ItemView>, l: u8) -> nat
    decreases s.len(),
{
    if s.len() == 0 {
        0
    } else {
        level_count(s.drop_last(), l) + if s.last().priority == l { 1nat } else { 0nat }
    }
}

/// The map from each priority level present in `s` to its number of items.
pub open spec fn level_counts(s: Seq<ItemView>) -> Map<u8, usize> {
    Map::new(|l: u8| level_count(s, l) > 0, |l: u8| level_count(s, l) as usize)
}

/// Abstract state of the queue.
pub struct QueueView {
    pub items: Seq<ItemView>,
    pub pushed: u64,
    pub processed: u64,
    pub removed: u64,
    pub active_workers: usize,
    pub closed: bool,
    pub mode: u8,
    pub storage_path: Seq<char>,
    pub outbox: Seq<IoView>,
}

/// The state after one item joins the queue.
pub open spec fn pushed_one(q: QueueView, item: ItemView) -> QueueView {
    QueueView {
        items: q.items.push(item),
        pushed: wrapping_add(q.pushed, 1),
        outbox: q.outbox.push(IoView::Insert { key: item_key(item.guid), value: item.data }),
        ..q
    }
}

/// Main priority queue.
pub struct AsyncPriorityQueue {
    items: Vec<PrioritizedQueueItem>,
    counter: u64,
    active_workers: usize,
    processed_count: u64,
    total_removed: u64,
    is_closed: bool,
    mode: u8,
    storage_path: String,
    outbox: Vec<IoOperation>,
}

impl View for AsyncPriorityQueue {
    type V = QueueView;

    closed spec fn view(&self) -> QueueView {
        QueueView {
            items: item_views(self.items@),
            pushed: self.counter,
            processed: self.processed_count,
            removed: self.total_removed,
            active_workers: self.active_workers,
            closed: self.is_closed,
            mode: self.mode,
            storage_path: self.storage_path@,
            outbox: io_views(self.outbox@),
        }
    }
}

impl AsyncPriorityQueue {
    /// An empty open queue; `mode` is stored as 0 when it is 0, as 1 otherwise.
    pub fn new(mode: u8, storage_path: &str) -> (q: Self)
        ensures
            q@.items.len() == 0,
            q@.pushed == 0 && q@.processed == 0 && q@.removed == 0,
            q@.active_workers == 0,
            !q@.closed,
            q@.mode == (if mode == 0 { 0u8 } else { 1u8 }),
            q@.storage_path == storage_path@,
            q@.outbox.len() == 0,
    {
        let q = AsyncPriorityQueue {
            items: Vec::new(),
            counter: 0,
            active_workers: 0,
            processed_count: 0,
            total_removed: 0,
            is_closed: false,
            mode: if mode == 0 { 0 } else { 1 },
            storage_path: owned(storage_path),
            outbox: Vec::new(),
        };
        assert(q@.items =~= Seq::<ItemView>::empty());
        assert(q@.outbox =~= Seq::<IoView>::empty());
        q
    }

    /// Backward-compatible single push API.
    pub fn push(&mut self, data: Vec<u8>, priority: Priority) -> (r: Result<String, String>)
        ensures
            old(self)@.closed ==> (r matches Err(e) && e@ == "Queue is closed"@ && final(self)@ == old(self)@),
            !old(self)@.closed ==> (r matches Ok(g) && exists|ts: u64| final(self)@ == pushed_one(old(self)@,
                ItemView { guid: g@, data: data@, priority: priority.0, timestamp: ts })),
    {
        self.push_with_priority(data, priority)
    }

    /// Backward-compatible batch push API.
    pub fn push_batch(&mut self, items: Vec<Vec<u8>>, priority: Priority) -> (r: Result<Vec<String>, String>)
        ensures
            old(self)@.closed ==> (r matches Err(e) && e@ == "Queue is closed"@ && final(self)@ == old(self)@),
            !old(self)@.closed ==> (r matches Ok(gs) && exists|ts: u64| final(self)@ == #[trigger] pushed_batch(old(self)@,
                string_views(gs@), byte_views(items@), priority.0, ts)),
    {
        self.push_batch_with_priority(items, priority)
    }

    /// Backward-compatible total pushed counter.
    pub fn total_pushed(&self) -> (r: u64)
        ensures
            r == self@.pushed,
    {
        self.counter
    }

    /// Whether an item with this GUID is queued.
    pub fn is_guid_active(&self, item_guid: &str) -> (r: bool)
        ensures
            r == exists|i: int| 0 <= i < self@.items.len() && (#[trigger] self@.items[i]).guid == item_guid@,
    {
        let r = self.find_guid(item_guid);
        proof {
            if r is Some {
                let i = r->0 as int;
                assert(self@.items[i].guid == item_guid@);
            }
        }
        r.is_some()
    }

    /// Index of the last queued item with this GUID.
    fn find_guid(&self, g: &str) -> (r: Option<usize>)
        ensures
            r matches Some(i) ==> i < self@.items.len() && self@.items[i as int].guid == g@
                && forall|j: int| i < j < self@.items.len() ==> (#[trigger] self@.items[j]).guid != g@,
            r is None ==> forall|j: int| 0 <= j < self@.items.len() ==> (#[trigger] self@.items[j]).guid != g@,
    {
        let mut i: usize = self.items.len();
        while i > 0
            invariant
                i <= self.items@.len(),
                self@.items.len() == self.items@.len(),
                forall|j: int| i <= j < self.items@.len() ==> (#[trigger] self@.items[j]).guid != g@,
            decreases i,
        {
            i = i - 1;
            assert(self@.items[i as int] == self.items@[i as int]@);
            if str_eq(self.items[i].guid.as_str(), g) {
                return Some(i);
            }
        }
        None
    }

    /// Backward-compatible mode getter.
    pub fn get_mode(&self) -> (r: u8)
        ensures
            r == self@.mode,
    {
        self.mode
    }

    /// Backward-compatible mode setter: 0 stays 0, anything else becomes 1.
    pub fn set_mode(&mut self, mode: u8) -> (r: Result<(), String>)
        ensures
            r is Ok,
            final(self)@ == (QueueView { mode: if mode == 0 { 0u8 } else { 1u8 }, ..old(self)@ }),
    {
        self.mode = if mode == 0 { 0 } else { 1 };
        Ok(())
    }

    /// Push single item with priority, returns its GUID. The GUID is drawn
    /// at random and the timestamp read from the clock.
    pub fn push_with_priority(&mut self, data: Vec<u8>, priority: Priority) -> (r: Result<String, String>)
        ensures
            old(self)@.closed ==> (r matches Err(e) && e@ == "Queue is closed"@ && final(self)@ == old(self)@),
            !old(self)@.closed ==> (r matches Ok(g) && exists|ts: u64| final(self)@ == pushed_one(old(self)@,
                ItemView { guid: g@, data: data@, priority: priority.0, timestamp: ts })),
    {
        if self.is_closed {
            return Err(owned("Queue is closed"));
        }
        let guid = clock::new_uuid_string();
        let timestamp = clock::unix_nanos();
        self.insert_item(guid, data, priority, timestamp)
    }

    /// Queue one item whose GUID and timestamp are given: the item joins the
    /// back of the queue, its insertion joins the outbox and the push counter
    /// grows by one (wrapping).
    pub fn insert_item(&mut self, guid: String, data: Vec<u8>, priority: Priority, timestamp: u64) -> (r: Result<String, String>)
        ensures
            old(self)@.closed ==> (r matches Err(e) && e@ == "Queue is closed"@ && final(self)@ == old(self)@),
            !old(self)@.closed ==> (r matches Ok(g) && g@ == guid@ && final(self)@ == pushed_one(old(self)@,
                ItemView { guid: guid@, data: data@, priority: priority.0, timestamp })),
    {
        if self.is_closed {
            return Err(owned("Queue is closed"));
        }
        let key = item_key_bytes(guid.as_str());
        let value = data.clone();
        assert(value@ =~= data@);
        let ghost before = self@;
        self.outbox.push(IoOperation::Insert { key, value });
        let g2 = guid.clone();
        self.items.push(PrioritizedQueueItem { guid, data, priority, timestamp });
        self.counter = self.counter.wrapping_add(1);
        assert(self@.items =~= before.items.push(ItemView { guid: guid@, data: data@, priority: priority.0, timestamp }));
        assert(self@.outbox =~= before.outbox.push(IoView::Insert { key: item_key(guid@), value: data@ }));
        Ok(g2)
    }
}

impl AsyncPriorityQueue {
    /// Push batch with same priority, returns the list of GUIDs. The GUIDs
    /// are drawn at random; the timestamp is read once from the clock and the
    /// item at position `i` gets that timestamp plus `i`.
    pub fn push_batch_with_priority(&mut self, items: Vec<Vec<u8>>, priority: Priority) -> (r: Result<Vec<String>, String>)
        ensures
            old(self)@.closed ==> (r matches Err(e) && e@ == "Queue is closed"@ && final(self)@ == old(self)@),
            !old(self)@.closed ==> (r matches Ok(gs) && exists|ts: u64| final(self)@ == #[trigger] pushed_batch(old(self)@,
                string_views(gs@), byte_views(items@), priority.0, ts)),
    {
        if self.is_closed {
            return Err(owned("Queue is closed"));
        }
        let n = items.len();
        let mut guids: Vec<String> = Vec::new();
        let mut i: usize = 0;
        while i < n
            invariant
                i <= n == items.len(),
                guids.len() == i,
            decreases n - i,
        {
            guids.push(clock::new_uuid_string());
            i = i + 1;
        }
        let timestamp = clock::unix_nanos();
        self.insert_batch(guids, items, priority, timestamp)
    }

    /// Queue a batch whose GUIDs and base timestamp are given: item `i` gets
    /// GUID `guids[i]` and timestamp `timestamp + i` (wrapping); the items join
    /// the back of the queue in order, their insertions join the outbox in
    /// order, and the push counter grows by the batch size (wrapping).
    pub fn insert_batch(&mut self, guids: Vec<String>, items: Vec<Vec<u8>>, priority: Priority, timestamp: u64) -> (r: Result<Vec<String>, String>)
        requires
            guids.len() == items.len(),
        ensures
            old(self)@.closed ==> (r matches Err(e) && e@ == "Queue is closed"@ && final(self)@ == old(self)@),
            !old(self)@.closed ==> (r matches Ok(gs) && gs@ == guids@ && final(self)@ == pushed_batch(old(self)@,
                string_views(guids@), byte_views(items@), priority.0, timestamp)),
    {
        if self.is_closed {
            return Err(owned("Queue is closed"));
        }
        let ghost q0 = self@;
        let ghost gv = string_views(guids@);
        let ghost dv = byte_views(items@);
        let n = items.len();
        let mut i: usize = 0;
        while i < n
            invariant
                i <= n == items.len() == guids.len(),
                gv == string_views(guids@),
                dv == byte_views(items@),
                self@ == pushed_batch(q0, gv.take(i as int), dv.take(i as int), priority.0, timestamp),
            decreases n - i,
        {
            let guid = guids[i].clone();
            let data = items[i].clone();
            assert(data@ =~= items@[i as int]@);
            let key = item_key_bytes(guid.as_str());
            let value = data.clone();
            assert(value@ =~= data@);
            let ts = timestamp.wrapping_add(i as u64);
            let ghost before = self@;
            self.outbox.push(IoOperation::Insert { key, value });
            self.items.push(PrioritizedQueueItem { guid, data, priority, timestamp: ts });
            self.counter = self.counter.wrapping_add(1);
            proof {
                let it = ItemView { guid: gv[i as int], data: dv[i as int], priority: priority.0, timestamp: wrapping_add(timestamp, i as u64) };
                let a0 = Seq::new(dv.take(i as int).len(), |k: int| ItemView { guid: gv.take(i as int)[k], data: dv.take(i as int)[k], priority: priority.0, timestamp: wrapping_add(timestamp, k as u64) });
                let a1 = Seq::new(dv.take(i + 1).len(), |k: int| ItemView { guid: gv.take(i + 1)[k], data: dv.take(i + 1)[k], priority: priority.0, timestamp: wrapping_add(timestamp, k as u64) });
                assert(self.counter == wrapping_add(q0.pushed, (i + 1) as u64));
                assert(a1 =~= a0.push(it));
                assert(self@.items =~= before.items.push(it));
                assert(self@.outbox =~= before.outbox.push(IoView::Insert { key: item_key(it.guid), value: it.data }));
                assert(a1.map_values(|it: ItemView| IoView::Insert { key: item_key(it.guid), value: it.data })
                    =~= a0.map_values(|it: ItemView| IoView::Insert { key: item_key(it.guid), value: it.data }).push(IoView::Insert { key: item_key(it.guid), value: it.data }));
                assert(self@ == pushed_batch(q0, gv.take(i + 1), dv.take(i + 1), priority.0, timestamp));
            }
            i = i + 1;
        }
        assert(gv.take(n as int) =~= gv);
        assert(dv.take(n as int) =~= dv);
        Ok(guids)
    }
}

impl AsyncPriorityQueue {
    /// Index of the item served next.
    fn next_position(&self) -> (r: usize)
        requires
            self@.items.len() > 0,
        ensures
            r == next_index(self@.items, self@.items.len()),
            r < self@.items.len(),
    {
        let n = self.items.len();
        let mut best: usize = 0;
        let mut i: usize = 1;
        while i < n
            invariant
                1 <= i <= n == self.items@.len() == self@.items.len(),
                best < i,
                best == next_index(self@.items, i as nat),
            decreases n - i,
        {
            let a = &self.items[i];
            let b = &self.items[best];
            assert(self@.items[i as int] == self.items@[i as int]@);
            assert(self@.items[best as int] == self.items@[best as int]@);
            if a.priority.0 > b.priority.0 || (a.priority.0 == b.priority.0 && a.timestamp < b.timestamp) {
                best = i;
            }
            i = i + 1;
        }
        best
    }

    /// Take the item served next: highest priority first, and within one
    /// priority the earliest timestamp (the earliest queued on a tie).
    pub fn get_next(&mut self) -> (r: Option<(String, Vec<u8>, Priority)>)
        ensures
            old(self)@.items.len() == 0 ==> r is None && final(self)@ == old(self)@,
            old(self)@.items.len() > 0 ==> (r matches Some((g, d, p)) && {
                let k = next_index(old(self)@.items, old(self)@.items.len());
                &&& g@ == old(self)@.items[k].guid
                &&& d@ == old(self)@.items[k].data
                &&& p.0 == old(self)@.items[k].priority
                &&& final(self)@ == (QueueView { items: old(self)@.items.remove(k), ..old(self)@ })
            }),
    {
        if self.items.len() == 0 {
            return None;
        }
        let k = self.next_position();
        let ghost before = self@;
        let item = self.items.remove(k);
        assert(self@.items =~= before.items.remove(k as int));
        Some((item.guid, item.data, item.priority))
    }

    /// GUID and priority of the item served next, leaving it queued.
    pub fn peek_next(&self) -> (r: Option<(String, Priority)>)
        ensures
            self@.items.len() == 0 ==> r is None,
            self@.items.len() > 0 ==> (r matches Some((g, p)) && {
                let k = next_index(self@.items, self@.items.len());
                &&& g@ == self@.items[k].guid
                &&& p.0 == self@.items[k].priority
            }),
    {
        if self.items.len() == 0 {
            return None;
        }
        let k = self.next_position();
        assert(self@.items[k as int] == self.items@[k as int]@);
        Some((self.items[k].guid.clone(), self.items[k].priority))
    }

    /// Update the priority of every queued item with this GUID; true when
    /// there was one.
    pub fn update_priority(&mut self, item_guid: &str, new_priority: Priority) -> (r: bool)
        ensures
            r == exists|i: int| 0 <= i < old(self)@.items.len() && (#[trigger] old(self)@.items[i]).guid == item_guid@,
            final(self)@ == (QueueView {
                items: Seq::new(old(self)@.items.len(), |i: int| reprioritized(old(self)@.items[i], item_guid@, new_priority.0)),
                ..old(self)@
            }),
    {
        let ghost q0 = self@;
        let n = self.items.len();
        let mut found = false;
        let mut i: usize = 0;
        assert(q0.items =~= Seq::new(n as nat, |k: int| if k < 0 { reprioritized(q0.items[k], item_guid@, new_priority.0) } else { q0.items[k] }));
        while i < n
            invariant
                i <= n == self.items@.len() == q0.items.len(),
                self@ == (QueueView {
                    items: Seq::new(n as nat, |k: int| if k < i { reprioritized(q0.items[k], item_guid@, new_priority.0) } else { q0.items[k] }),
                    ..q0
                }),
                found == exists|k: int| 0 <= k < i && (#[trigger] q0.items[k]).guid == item_guid@,
            decreases n - i,
        {
            assert(self@.items[i as int] == self.items@[i as int]@);
            if str_eq(self.items[i].guid.as_str(), item_guid) {
                let ghost before = self@;
                let mut it = self.items.remove(i);
                it.priority = new_priority;
                self.items.insert(i, it);
                found = true;
                assert(self@.items =~= before.items.update(i as int, reprioritized(q0.items[i as int], item_guid@, new_priority.0)));
            }
            proof {
                assert(self@.items =~= Seq::new(n as nat, |k: int| if k < i + 1 { reprioritized(q0.items[k], item_guid@, new_priority.0) } else { q0.items[k] }));
                if !found {
                    assert forall|k: int| 0 <= k < i + 1 implies (#[trigger] q0.items[k]).guid != item_guid@ by {
                        if k == i {
                        }
                    }
                }
            }
            i = i + 1;
        }
        assert(self@.items =~= Seq::new(n as nat, |i: int| reprioritized(q0.items[i], item_guid@, new_priority.0)));
        found
    }

    /// Current priority of the item with this GUID (the last queued one with
    /// that GUID).
    pub fn get_priority(&self, item_guid: &str) -> (r: Option<Priority>)
        ensures
            r is None <==> forall|i: int| 0 <= i < self@.items.len() ==> (#[trigger] self@.items[i]).guid != item_guid@,
            r matches Some(p) ==> exists|i: int| 0 <= i < self@.items.len() && (#[trigger] self@.items[i]).guid == item_guid@
                && self@.items[i].priority == p.0
                && forall|j: int| i < j < self@.items.len() ==> (#[trigger] self@.items[j]).guid != item_guid@,
    {
        match self.find_guid(item_guid) {
            Some(i) => {
                assert(self@.items[i as int] == self.items@[i as int]@);
                Some(self.items[i].priority)
            },
            None => None,
        }
    }

    /// Remove every queued item with this GUID before it is served; each
    /// removal queues a deletion, and the removal counter grows by one
    /// (wrapping) when anything was removed.
    pub fn remove_by_guid(&mut self, item_guid: &str) -> (r: bool)
        ensures
            r == exists|i: int| 0 <= i < old(self)@.items.len() && (#[trigger] old(self)@.items[i]).guid == item_guid@,
            final(self)@ == (QueueView {
                items: without_guid(old(self)@.items, item_guid@),
                removed: if r { wrapping_add(old(self)@.removed, 1) } else { old(self)@.removed },
                outbox: old(self)@.outbox + deletions_of(old(self)@.items, item_guid@),
                ..old(self)@
            }),
    {
        let ghost q0 = self@;
        let ghost g = item_guid@;
        let mut found = false;
        let mut i: usize = 0;
        let ghost mut j: int = 0;
        while i < self.items.len()
            invariant
                0 <= i <= j <= q0.items.len(),
                g == item_guid@,
                self@.items.len() == self.items@.len(),
                self.items@.len() - i == q0.items.len() - j,
                self@.items.take(i as int) == without_guid(q0.items.take(j), g),
                self@.items.skip(i as int) == q0.items.skip(j),
                self@.outbox == q0.outbox + deletions_of(q0.items.take(j), g),
                self@.removed == q0.removed,
                self@ == (QueueView { items: self@.items, outbox: self@.outbox, ..q0 }),
                found == exists|k: int| 0 <= k < j && (#[trigger] q0.items[k]).guid == g,
            decreases self.items@.len() - i,
        {
            let ghost before = self@;
            assert(before.items[i as int] == self.items@[i as int]@);
            assert(q0.items[j] == before.items.skip(i as int)[0]);
            assert(q0.items.take(j + 1).drop_last() =~= q0.items.take(j));
            assert(q0.items.take(j + 1).last() == q0.items[j]);
            assert(before.items.skip(i as int).skip(1) =~= before.items.skip(i + 1));
            assert(q0.items.skip(j).skip(1) =~= q0.items.skip(j + 1));
            let gs = self.items[i].guid.as_str();
            assert(gs@ == self.items@[i as int].guid@);
            assert(item_guid@ == g);
            let same = str_eq(gs, item_guid);
            assert(same == (self.items@[i as int].guid@ == g));
            assert(same == (q0.items[j].guid == g));
            if same {
                let key = item_key_bytes(item_guid);
                let ghost raw = self.outbox@;
                self.outbox.push(IoOperation::Delete { key });
                assert(self.outbox@ == raw.push(IoOperation::Delete { key }));
                proof { lemma_io_views_push(raw, IoOperation::Delete { key }); }
                let _removed = self.items.remove(i);
                found = true;
                proof {
                    assert(self@.items =~= before.items.remove(i as int));
                    assert(before.outbox == io_views(raw));
                    assert(self@.outbox == io_views(self.outbox@));
                    assert(self@.outbox == before.outbox.push(IoView::Delete { key: item_key(g) }));
                    assert(self@.items.take(i as int) =~= before.items.take(i as int));
                    assert(self@.items.skip(i as int) =~= q0.items.skip(j + 1));
                }
            } else {
                proof {
                    assert(q0.items[j].guid != g);
                    assert(self@.items.take(i + 1) =~= before.items.take(i as int).push(q0.items[j]));
                    assert(self@.items.skip(i + 1) =~= q0.items.skip(j + 1));
                    assert forall|k: int| 0 <= k < j + 1 && (#[trigger] q0.items[k]).guid == g implies k < j by {}
                }
                i = i + 1;
            }
            proof {
                j = j + 1;
            }
        }
        proof {
            assert(q0.items.skip(j).len() == 0);
            assert(j == q0.items.len());
            assert(q0.items.take(j) =~= q0.items);
            assert(self@.items.take(i as int) =~= self@.items);
        }
        if found {
            self.total_removed = self.total_removed.wrapping_add(1);
        }
        found
    }

    /// Priority statistics: the number of queued items and, for each level
    /// present, how many items carry it.
    pub fn get_priority_stats(&self) -> (r: PriorityStats)
        ensures
            r.total_items == self@.items.len(),
            r.by_priority_level@ == level_counts(self@.items),
    {
        broadcast use vstd::std_specs::hash::group_hash_axioms;
        let mut m: std::collections::HashMap<u8, usize> = std::collections::HashMap::new();
        let n = self.items.len();
        let mut i: usize = 0;
        while i < n
            invariant
                i <= n == self.items@.len() == self@.items.len(),
                m@ == level_counts(self@.items.take(i as int)),
            decreases n - i,
        {
            let l = self.items[i].priority.0;
            assert(self@.items[i as int] == self.items@[i as int]@);
            let ghost s0 = self@.items.take(i as int);
            let ghost s1 = self@.items.take(i + 1);
            assert(s1.drop_last() =~= s0);
            proof {
                lemma_level_count_bounded(s0, l);
            }
            let c: usize = match m.get(&l) {
                Some(v) => *v,
                None => 0,
            };
            assert(c == level_count(s0, l));
            m.insert(l, c + 1);
            assert(m@ =~= level_counts(s1));
            i = i + 1;
        }
        assert(self@.items.take(n as int) =~= self@.items);
        PriorityStats { total_items: n, by_priority_level: m }
    }

    /// Backward-compatible queue stats getter.
    pub fn get_stats(&self) -> (r: CompatQueueStats)
        ensures
            r.total_pushed == self@.pushed,
            r.total_processed == self@.processed,
            r.total_errors == 0,
            r.total_removed == self@.removed,
            r.active_workers == self@.active_workers,
            r.total_items == self@.items.len(),
            r.by_priority_level@ == level_counts(self@.items),
    {
        let priority_stats = self.get_priority_stats();
        CompatQueueStats {
            total_pushed: self.counter,
            total_processed: self.processed_count,
            total_errors: 0,
            total_removed: self.total_removed,
            active_workers: self.active_workers,
            total_items: priority_stats.total_items,
            by_priority_level: priority_stats.by_priority_level,
        }
    }

    /// Number of queued items.
    pub fn len(&self) -> (r: usize)
        ensures
            r == self@.items.len(),
    {
        self.items.len()
    }

    /// Whether no item is queued.
    pub fn is_empty(&self) -> (r: bool)
        ensures
            r == (self@.items.len() == 0),
    {
        self.items.len() == 0
    }

    /// Total items processed.
    pub fn get_processed_count(&self) -> (r: u64)
        ensures
            r == self@.processed,
    {
        self.processed_count
    }

    /// Count one more processed item (wrapping).
    pub fn increment_processed(&mut self)
        ensures
            final(self)@ == (QueueView { processed: wrapping_add(old(self)@.processed, 1), ..old(self)@ }),
    {
        self.processed_count = self.processed_count.wrapping_add(1);
    }

    /// Close the queue: later pushes are refused.
    pub fn close(&mut self)
        ensures
            final(self)@ == (QueueView { closed: true, ..old(self)@ }),
    {
        self.is_closed = true;
    }

    /// Ask the storage to flush: a flush joins the outbox.
    pub fn flush(&mut self) -> (r: Result<(), String>)
        ensures
            r is Ok,
            final(self)@ == (QueueView { outbox: old(self)@.outbox.push(IoView::Flush), ..old(self)@ }),
    {
        let ghost before = self@;
        self.outbox.push(IoOperation::Flush);
        assert(self@.outbox =~= before.outbox.push(IoView::Flush));
        Ok(())
    }

    /// Shut the queue down: it closes, and a flush and then a shutdown join
    /// the outbox.
    pub fn shutdown(&mut self)
        ensures
            final(self)@ == (QueueView { closed: true, outbox: old(self)@.outbox.push(IoView::Flush).push(IoView::Shutdown), ..old(self)@ }),
    {
        let ghost before = self@;
        self.is_closed = true;
        self.outbox.push(IoOperation::Flush);
        self.outbox.push(IoOperation::Shutdown);
        assert(self@.outbox =~= before.outbox.push(IoView::Flush).push(IoView::Shutdown));
    }

    /// Hand over the persistence operations queued so far, oldest first.
    pub fn take_outbox(&mut self) -> (r: Vec<IoOperation>)
        ensures
            io_views(r@) == old(self)@.outbox,
            final(self)@ == (QueueView { outbox: Seq::empty(), ..old(self)@ }),
    {
        let mut r: Vec<IoOperation> = Vec::new();
        std::mem::swap(&mut r, &mut self.outbox);
        assert(self@.outbox =~= Seq::<IoView>::empty());
        r
    }

    /// The storage directory this queue was created for.
    pub fn storage_path(&self) -> (r: &str)
        ensures
            r@ == self@.storage_path,
    {
        self.storage_path.as_str()
    }
}

/// The abstract values of a sequence of items.
pub open spec fn item_views(s: Seq<PrioritizedQueueItem>) -> Seq<ItemView> {
    s.map_values(|it: PrioritizedQueueItem| it@)
}

/// The abstract values of a sequence of persistence operations.
pub open spec fn io_views(s: Seq<IoOperation>) -> Seq<IoView> {
    s.map_values(|op: IoOperation| op@)
}

proof fn lemma_io_views_push(s: Seq<IoOperation>, op: IoOperation)
    ensures
        io_views(s.push(op)) == io_views(s).push(op@),
{
    assert(io_views(s.push(op)) =~= io_views(s).push(op@));
}

/// A level never counts more items than the sequence holds.
proof fn lemma_level_count_bounded(s: Seq<ItemView>, l: u8)
    ensures
        level_count(s, l) <= s.len(),
    decreases s.len(),
{
    if s.len() > 0 {
        lemma_level_count_bounded(s.drop_last(), l);
    }
}

/// The byte views of a sequence of byte vectors.
pub open spec fn byte_views(s: Seq<Vec<u8>>) -> Seq<Seq<u8>> {
    s.map_values(|d: Vec<u8>| d@)
}

/// The state after a batch joins the queue: item `i` has GUID `guids[i]`,
/// payload `datas[i]` and timestamp `ts + i` (wrapping).
pub open spec fn pushed_batch(q: QueueView, guids: Seq<Seq<char>>, datas: Seq<Seq<u8>>, p: u8, ts: u64) -> QueueView {
    let added = Seq::new(datas.len(), |i: int| ItemView { guid: guids[i], data: datas[i], priority: p, timestamp: wrapping_add(ts, i as u64) });
    QueueView {
        items: q.items + added,
        pushed: wrapping_add(q.pushed, datas.len() as u64),
        outbox: q.outbox + added.map_values(|it: ItemView| IoView::Insert { key: item_key(it.guid), value: it.data }),
        ..q
    }
}

/// The storage key of the item with this GUID.
fn item_key_bytes(guid: &str) -> (r: Vec<u8>)
    ensures
        r@ == item_key(guid@),
{
    let mut key = bytes_of("item:");
    let mut rest = bytes_of(guid);
    key.append(&mut rest);
    key
}

} // verus!

verus! {

/// Priority order law: the item that `get_next` hands out is one that no
/// queued item is served before — no queued item has a higher priority, and
/// none with the same priority has an earlier timestamp — and it is served
/// before every item queued ahead of it.
pub proof fn law_next_is_highest_priority(s: Seq<ItemView>)
    requires
        s.len() > 0,
    ensures
        0 <= next_index(s, s.len()) < s.len(),
        forall|j: int| 0 <= j < s.len() ==> !served_before(#[trigger] s[j], s[next_index(s, s.len())]),
        forall|j: int| 0 <= j < next_index(s, s.len()) ==> served_before(s[next_index(s, s.len())], #[trigger] s[j]),
{
    lemma_next_index(s, s.len());
}

proof fn lemma_next_index(s: Seq<ItemView>, n: nat)
    requires
        0 < n <= s.len(),
    ensures
        0 <= next_index(s, n) < n,
        forall|j: int| 0 <= j < n ==> !served_before(#[trigger] s[j], s[next_index(s, n)]),
        forall|j: int| 0 <= j < next_index(s, n) ==> served_before(s[next_index(s, n)], #[trigger] s[j]),
    decreases n,
{
    if n > 1 {
        lemma_next_index(s, (n - 1) as nat);
    }
}

} // verus!

verus! {

/// Removal law: after `remove_by_guid(g)` no queued item carries GUID `g`,
/// and every item with another GUID stays queued.
pub proof fn law_removed_guid_is_gone(s: Seq<ItemView>, g: Seq<char>)
    ensures
        forall|i: int| 0 <= i < without_guid(s, g).len() ==> (#[trigger] without_guid(s, g)[i]).guid != g,
        forall|i: int| 0 <= i < s.len() && (#[trigger] s[i]).guid != g ==> without_guid(s, g).contains(s[i]),
    decreases s.len(),
{
    if s.len() > 0 {
        law_removed_guid_is_gone(s.drop_last(), g);
        let r = without_guid(s.drop_last(), g);
        assert forall|i: int| 0 <= i < s.len() && (#[trigger] s[i]).guid != g implies without_guid(s, g).contains(s[i]) by {
            if i < s.len() - 1 {
                assert(s.drop_last()[i] == s[i]);
                if s.last().guid != g {
                    let k = choose|k: int| 0 <= k < r.len() && r[k] == s[i];
                    assert(r.push(s.last())[k] == s[i]);
                }
            } else {
                assert(without_guid(s, g)[r.len() as int] == s[i]);
            }
        }
    }
}

/// No two queued items share a GUID (as with the random GUIDs that pushes
/// draw).
pub open spec fn guids_distinct(s: Seq<ItemView>) -> bool {
    forall|i: int, j: int| 0 <= i < j < s.len() ==> (#[trigger] s[i]).guid != (#[trigger] s[j]).guid
}

/// Taking law: when the queued GUIDs are distinct, the item `get_next` takes
/// leaves the queue altogether (its GUID is no longer active), one item
/// fewer is queued, and the GUIDs left stay distinct.
pub proof fn law_taken_guid_is_gone(s: Seq<ItemView>)
    requires
        s.len() > 0,
        guids_distinct(s),
    ensures
        forall|i: int| 0 <= i < s.remove(next_index(s, s.len())).len()
            ==> (#[trigger] s.remove(next_index(s, s.len()))[i]).guid != s[next_index(s, s.len())].guid,
        s.remove(next_index(s, s.len())).len() == s.len() - 1,
        guids_distinct(s.remove(next_index(s, s.len()))),
{
    law_next_is_highest_priority(s);
    let k = next_index(s, s.len());
    let t = s.remove(k);
    assert forall|i: int| 0 <= i < t.len() implies (#[trigger] t[i]).guid != s[k].guid by {
        if i < k {
            assert(t[i] == s[i]);
        } else {
            assert(t[i] == s[i + 1]);
        }
    }
    assert forall|i: int, j: int| 0 <= i < j < t.len() implies (#[trigger] t[i]).guid != (#[trigger] t[j]).guid by {
        let a = if i < k { i } else { i + 1 };
        let b = if j < k { j } else { j + 1 };
        assert(t[i] == s[a]);
        assert(t[j] == s[b]);
    }
}

/// Reprioritising law: after `update_priority(g, p)` every queued item with
/// GUID `g` has priority `p`, and every other item is unchanged.
pub proof fn law_update_sets_priority(s: Seq<ItemView>, g: Seq<char>, p: u8)
    ensures
        forall|i: int| 0 <= i < s.len() && s[i].guid == g ==> (#[trigger] reprioritized(s[i], g, p)).priority == p,
        forall|i: int| 0 <= i < s.len() && s[i].guid != g ==> #[trigger] reprioritized(s[i], g, p) == s[i],
{
}

} // verus!
