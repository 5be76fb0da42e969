//! Multi-server cluster: brokers, partitioned streams, replication, leader
//! election and failover.
pub mod broker;
pub mod laws;
pub mod leaders;
pub mod replication;

pub use broker::{ClusterBroker, SendResult, Topology, TopologyBroker, TopologyPartition};
pub use replication::{ClusterRebalancer, LeaderElector, ReplicationLog, ReplicationManager};

use vstd::prelude::*;
use vstd::wrapping::u32_specs::{wrapping_add, wrapping_mul};
use crate::keyed::{key_pos, Keyed};
use crate::text::{bytes_of, owned};
use leaders::LeaderTable;

verus! {

/// Configuration of one broker of the cluster.
#[derive(Debug, Clone)]
pub struct BrokerConfig {
    pub broker_id: u32,
    pub listen_address: String,
    pub listen_port: u16,
    pub metadata_servers: Vec<String>,
    pub bootstrap_servers: Vec<String>,
}

/// How a stream is split and replicated.
#[derive(Debug, Clone)]
pub struct StreamPartitionConfig {
    pub stream_id: String,
    pub num_partitions: u32,
    pub replication_factor: u32,
    pub min_insync_replicas: u32,
    pub retention_hours: u32,
}

/// Life-cycle status of a broker.
#[derive(Debug, Clone, Copy, PartialEq, Eq, Structural)]
pub enum BrokerStatus {
    Up,
    Down,
    Starting,
    Stopping,
}

/// What the cluster knows of a broker (heartbeat in seconds since the epoch).
#[derive(Debug)]
pub struct BrokerMetadata {
    pub broker_id: u32,
    pub host: String,
    pub port: u16,
    pub status: BrokerStatus,
    pub last_heartbeat: u64,
}

/// Abstract value of broker metadata.
pub struct BrokerView {
    pub broker_id: u32,
    pub host: Seq<char>,
    pub port: u16,
    pub status: BrokerStatus,
    pub last_heartbeat: u64,
}

impl View for BrokerMetadata {
    type V = BrokerView;

    open spec fn view(&self) -> BrokerView {
        BrokerView { broker_id: self.broker_id, host: self.host@, port: self.port, status: self.status, last_heartbeat: self.last_heartbeat }
    }
}

impl Clone for BrokerMetadata {
    fn clone(&self) -> (r: Self)
        ensures
            r@ == self@,
    {
        BrokerMetadata { broker_id: self.broker_id, host: self.host.clone(), port: self.port, status: self.status, last_heartbeat: self.last_heartbeat }
    }
}

/// Metadata of one partition of a stream.
#[derive(Debug)]
pub struct PartitionMetadata {
    pub stream_id: String,
    pub partition_id: u32,
    pub leader_broker_id: u32,
    pub replica_broker_ids: Vec<u32>,
    pub in_sync_replicas: Vec<u32>,
    pub current_offset: u64,
}

/// Abstract value of partition metadata.
pub struct PartitionView {
    pub stream_id: Seq<char>,
    pub partition_id: u32,
    pub leader_broker_id: u32,
    pub replica_broker_ids: Seq<u32>,
    pub in_sync_replicas: Seq<u32>,
    pub current_offset: u64,
}

impl View for PartitionMetadata {
    type V = PartitionView;

    open spec fn view(&self) -> PartitionView {
        PartitionView {
            stream_id: self.stream_id@,
            partition_id: self.partition_id,
            leader_broker_id: self.leader_broker_id,
            replica_broker_ids: self.replica_broker_ids@,
            in_sync_replicas: self.in_sync_replicas@,
            current_offset: self.current_offset,
        }
    }
}

impl Clone for PartitionMetadata {
    fn clone(&self) -> (r: Self)
        ensures
            r@ == self@,
    {
        PartitionMetadata {
            stream_id: self.stream_id.clone(),
            partition_id: self.partition_id,
            leader_broker_id: self.leader_broker_id,
            replica_broker_ids: self.replica_broker_ids.clone(),
            in_sync_replicas: self.in_sync_replicas.clone(),
            current_offset: self.current_offset,
        }
    }
}

/// Metadata of a stream and its partitions.
#[derive(Debug)]
pub struct StreamMetadata {
    pub stream_id: String,
    pub num_partitions: u32,
    pub replication_factor: u32,
    pub partitions: Vec<PartitionMetadata>,
}

/// Abstract value of stream metadata.
pub struct StreamView {
    pub stream_id: Seq<char>,
    pub num_partitions: u32,
    pub replication_factor: u32,
    pub partitions: Seq<PartitionView>,
}

/// The abstract values of a sequence of partitions.
pub open spec fn partition_views(s: Seq<PartitionMetadata>) -> Seq<PartitionView> {
    s.map_values(|p: PartitionMetadata| p@)
}

/// The abstract values of a sequence of brokers.
pub open spec fn broker_views(s: Seq<BrokerMetadata>) -> Seq<BrokerView> {
    s.map_values(|b: BrokerMetadata| b@)
}

impl View for StreamMetadata {
    type V = StreamView;

    open spec fn view(&self) -> StreamView {
        StreamView {
            stream_id: self.stream_id@,
            num_partitions: self.num_partitions,
            replication_factor: self.replication_factor,
            partitions: partition_views(self.partitions@),
        }
    }
}

/// A copy of a list of partitions.
pub fn clone_partitions(v: &Vec<PartitionMetadata>) -> (r: Vec<PartitionMetadata>)
    ensures
        partition_views(r@) == partition_views(v@),
{
    let mut r: Vec<PartitionMetadata> = Vec::new();
    let mut i: usize = 0;
    while i < v.len()
        invariant
            i <= v@.len(),
            r@.len() == i,
            forall|j: int| 0 <= j < i ==> (#[trigger] r@[j])@ == v@[j]@,
        decreases v@.len() - i,
    {
        r.push(v[i].clone());
        i = i + 1;
    }
    assert(partition_views(r@) =~= partition_views(v@));
    r
}

impl Clone for StreamMetadata {
    fn clone(&self) -> (r: Self)
        ensures
            r@ == self@,
    {
        StreamMetadata {
            stream_id: self.stream_id.clone(),
            num_partitions: self.num_partitions,
            replication_factor: self.replication_factor,
            partitions: clone_partitions(&self.partitions),
        }
    }
}

/// The identifiers of a sequence of brokers, in order.
pub open spec fn broker_ids(s: Seq<BrokerMetadata>) -> Seq<u32> {
    s.map_values(|b: BrokerMetadata| b.broker_id)
}

/// No two brokers share an identifier.
pub open spec fn ids_distinct(s: Seq<BrokerMetadata>) -> bool {
    forall|i: int, j: int| 0 <= i < j < s.len() ==> (#[trigger] s[i]).broker_id != (#[trigger] s[j]).broker_id
}

/// The position of broker `id` in `s`.
pub open spec fn broker_pos(s: Seq<BrokerMetadata>, id: u32) -> Option<int> {
    if exists|i: int| 0 <= i < s.len() && (#[trigger] s[i]).broker_id == id {
        Some(choose|i: int| 0 <= i < s.len() && (#[trigger] s[i]).broker_id == id)
    } else {
        None
    }
}

/// The metadata of broker `id` in `s`.
pub open spec fn broker_of(s: Seq<BrokerMetadata>, id: u32) -> Option<BrokerView> {
    match broker_pos(s, id) {
        Some(i) => Some(s[i]@),
        None => None,
    }
}

/// Broker `id` is registered and up.
pub open spec fn broker_up(s: Seq<BrokerMetadata>, id: u32) -> bool {
    broker_of(s, id) matches Some(b) && b.status == BrokerStatus::Up
}

/// Number of replicas a stream's partitions get: the replication factor, at
/// least one.
pub open spec fn replica_count(rf: u32) -> nat {
    if rf == 0 { 1 } else { rf as nat }
}

/// Partition `p` of a new stream over brokers `ids` (round-robin): its
/// leader is broker `p mod n`, its replicas the next brokers on the ring,
/// all in sync, at offset zero.
pub open spec fn assigned_partition(stream_id: Seq<char>, ids: Seq<u32>, rf: u32, p: int) -> PartitionView {
    let reps = Seq::new(replica_count(rf), |k: int| ids[(p + k) % (ids.len() as int)]);
    PartitionView {
        stream_id,
        partition_id: p as u32,
        leader_broker_id: ids[p % (ids.len() as int)],
        replica_broker_ids: reps,
        in_sync_replicas: reps,
        current_offset: 0,
    }
}

/// The metadata of a new stream over brokers `ids`.
pub open spec fn assigned_stream(stream_id: Seq<char>, np: u32, rf: u32, ids: Seq<u32>) -> StreamView {
    StreamView {
        stream_id,
        num_partitions: np,
        replication_factor: rf,
        partitions: Seq::new(np as nat, |p: int| assigned_partition(stream_id, ids, rf, p)),
    }
}

/// The leader table after a new stream's partitions get their leaders.
pub open spec fn leaders_after_create(
    m: Map<(Seq<char>, u32), u32>,
    stream_id: Seq<char>,
    np: u32,
    ids: Seq<u32>,
) -> Map<(Seq<char>, u32), u32> {
    Map::new(
        |k: (Seq<char>, u32)| m.contains_key(k) || (k.0 == stream_id && k.1 < np),
        |k: (Seq<char>, u32)| if k.0 == stream_id && k.1 < np { ids[(k.1 as int) % (ids.len() as int)] } else { m[k] },
    )
}

/// The partition hash of a key: over its UTF-8 bytes, `h = h * 31 + b`
/// modulo 2^32, from zero.
pub open spec fn key_hash(bytes: Seq<u8>) -> u32
    decreases bytes.len(),
{
    if bytes.len() == 0 {
        0
    } else {
        wrapping_add(wrapping_mul(key_hash(bytes.drop_last()), 31), bytes.last() as u32)
    }
}

/// The partition of the first `p` partitions of `parts` whose identifier is
/// `pid`, if any.
pub open spec fn partition_pos(parts: Seq<PartitionView>, pid: u32) -> Option<int> {
    if exists|i: int| 0 <= i < parts.len() && (#[trigger] parts[i]).partition_id == pid
        && forall|j: int| 0 <= j < i ==> (#[trigger] parts[j]).partition_id != pid {
        Some(choose|i: int| 0 <= i < parts.len() && (#[trigger] parts[i]).partition_id == pid
            && forall|j: int| 0 <= j < i ==> (#[trigger] parts[j]).partition_id != pid)
    } else {
        None
    }
}

/// The metadata of the stream called `stream_id`.
pub open spec fn stream_of(streams: Seq<(String, StreamMetadata)>, stream_id: Seq<char>) -> Option<StreamView> {
    match key_pos(streams, stream_id) {
        Some(i) => Some(streams[i].1@),
        None => None,
    }
}

/// Registered brokers, kept in registration order with distinct identifiers.
pub struct BrokerTable {
    entries: Vec<BrokerMetadata>,
}

impl BrokerTable {
    #[verifier::type_invariant]
    closed spec fn distinct(&self) -> bool {
        ids_distinct(self.entries@)
    }

    /// The brokers, in registration order.
    pub closed spec fn brokers(&self) -> Seq<BrokerMetadata> {
        self.entries@
    }

    /// An empty table.
    pub fn new() -> (r: Self)
        ensures
            r.brokers().len() == 0,
    {
        BrokerTable { entries: Vec::new() }
    }

    /// The brokers' identifiers are distinct.
    pub fn len(&self) -> (r: usize)
        ensures
            r == self.brokers().len(),
            ids_distinct(self.brokers()),
    {
        proof { use_type_invariant(self); }
        self.entries.len()
    }

    fn position(e: &Vec<BrokerMetadata>, id: u32) -> (r: Option<usize>)
        requires
            ids_distinct(e@),
        ensures
            r matches Some(i) ==> broker_pos(e@, id) == Some(i as int),
            r is None ==> broker_pos(e@, id) is None,
    {
        let mut i: usize = 0;
        while i < e.len()
            invariant
                i <= e@.len(),
                ids_distinct(e@),
                forall|j: int| 0 <= j < i ==> (#[trigger] e@[j]).broker_id != id,
            decreases e@.len() - i,
        {
            if e[i].broker_id == id {
                proof {
                    let c = choose|c: int| 0 <= c < e@.len() && (#[trigger] e@[c]).broker_id == id;
                    if c > i {
                        assert(e@[i as int].broker_id != e@[c].broker_id);
                    }
                }
                return Some(i);
            }
            i = i + 1;
        }
        None
    }

    /// The broker with identifier `id`.
    pub fn get(&self, id: u32) -> (r: Option<&BrokerMetadata>)
        ensures
            match broker_pos(self.brokers(), id) {
                Some(i) => r == Some(&self.brokers()[i]),
                None => r is None,
            },
    {
        proof { use_type_invariant(self); }
        match Self::position(&self.entries, id) {
            Some(i) => Some(&self.entries[i]),
            None => None,
        }
    }

    /// The broker at position `i`.
    pub fn at(&self, i: usize) -> (r: &BrokerMetadata)
        requires
            i < self.brokers().len(),
        ensures
            *r == self.brokers()[i as int],
    {
        &self.entries[i]
    }

    /// Insert `m`, replacing the broker with the same identifier.
    pub fn upsert(&mut self, m: BrokerMetadata)
        ensures
            final(self).brokers() == match broker_pos(old(self).brokers(), m.broker_id) {
                Some(i) => old(self).brokers().update(i, m),
                None => old(self).brokers().push(m),
            },
    {
        proof { use_type_invariant(&*self); }
        let ghost e0 = self.entries@;
        let mut e: Vec<BrokerMetadata> = Vec::new();
        std::mem::swap(&mut e, &mut self.entries);
        match Self::position(&e, m.broker_id) {
            Some(i) => {
                let _ = e.remove(i);
                e.insert(i, m);
                assert(e@ =~= e0.update(i as int, e@[i as int]));
                assert forall|a: int, b: int| 0 <= a < b < e@.len() implies (#[trigger] e@[a]).broker_id != (#[trigger] e@[b]).broker_id by {
                    assert(e0[a].broker_id != e0[b].broker_id);
                }
            },
            None => {
                e.push(m);
                assert forall|a: int, b: int| 0 <= a < b < e@.len() implies (#[trigger] e@[a]).broker_id != (#[trigger] e@[b]).broker_id by {
                    if b < e0.len() {
                        assert(e0[a].broker_id != e0[b].broker_id);
                    } else {
                        assert(e0[a] == e@[a]);
                    }
                }
            },
        }
        self.entries = e;
    }
}

/// The cluster's shared metadata: brokers, streams, partition leaders and
/// the controller.
pub struct ClusterState {
    brokers: BrokerTable,
    streams: Keyed<StreamMetadata>,
    partition_leaders: LeaderTable,
    controller_broker_id: u32,
}

impl ClusterState {
    /// The registered brokers, in registration order.
    pub closed spec fn spec_brokers(&self) -> Seq<BrokerMetadata> {
        self.brokers.brokers()
    }

    /// The streams, keyed by identifier, in creation order.
    pub closed spec fn spec_streams(&self) -> Seq<(String, StreamMetadata)> {
        self.streams.entries()
    }

    /// The leader of each (stream, partition).
    pub closed spec fn spec_leaders(&self) -> Map<(Seq<char>, u32), u32> {
        self.partition_leaders.view()
    }

    /// The controller broker's identifier.
    pub closed spec fn spec_controller(&self) -> u32 {
        self.controller_broker_id
    }

    /// An empty cluster; the controller is broker 0.
    pub fn new() -> (r: Self)
        ensures
            r.spec_brokers().len() == 0,
            r.spec_streams().len() == 0,
            r.spec_leaders() == Map::<(Seq<char>, u32), u32>::empty(),
            r.spec_controller() == 0,
    {
        ClusterState { brokers: BrokerTable::new(), streams: Keyed::new(), partition_leaders: LeaderTable::new(), controller_broker_id: 0 }
    }

    /// Register a broker, replacing the one with the same identifier.
    pub fn register_broker(&mut self, metadata: BrokerMetadata)
        ensures
            final(self).spec_brokers() == match broker_pos(old(self).spec_brokers(), metadata.broker_id) {
                Some(i) => old(self).spec_brokers().update(i, metadata),
                None => old(self).spec_brokers().push(metadata),
            },
            final(self).spec_streams() == old(self).spec_streams(),
            final(self).spec_leaders() == old(self).spec_leaders(),
            final(self).spec_controller() == old(self).spec_controller(),
    {
        self.brokers.upsert(metadata);
    }

    /// Make broker `id` the controller.
    pub fn set_controller(&mut self, id: u32)
        ensures
            final(self).spec_controller() == id,
            final(self).spec_brokers() == old(self).spec_brokers(),
            final(self).spec_streams() == old(self).spec_streams(),
            final(self).spec_leaders() == old(self).spec_leaders(),
    {
        self.controller_broker_id = id;
    }

    /// The controller broker's identifier.
    pub fn controller(&self) -> (r: u32)
        ensures
            r == self.spec_controller(),
    {
        self.controller_broker_id
    }

    /// The metadata of broker `broker_id`.
    pub fn get_broker(&self, broker_id: u32) -> (r: Option<BrokerMetadata>)
        ensures
            match broker_of(self.spec_brokers(), broker_id) {
                Some(b) => r matches Some(m) && m@ == b,
                None => r is None,
            },
    {
        match self.brokers.get(broker_id) {
            Some(b) => Some(b.clone()),
            None => None,
        }
    }

    /// All brokers, in registration order.
    pub fn get_all_brokers(&self) -> (r: Vec<BrokerMetadata>)
        ensures
            broker_views(r@) == broker_views(self.spec_brokers()),
    {
        let n = self.brokers.len();
        let mut r: Vec<BrokerMetadata> = Vec::new();
        let mut i: usize = 0;
        while i < n
            invariant
                i <= n,
                n == self.spec_brokers().len(),
                r@.len() == i,
                forall|j: int| 0 <= j < i ==> (#[trigger] r@[j])@ == self.spec_brokers()[j]@,
            decreases n - i,
        {
            r.push(self.brokers.at(i).clone());
            i = i + 1;
        }
        assert(broker_views(r@) =~= broker_views(self.spec_brokers()));
        r
    }

    /// The brokers' identifiers, in registration order.
    fn broker_id_list(&self) -> (r: Vec<u32>)
        ensures
            r@ == broker_ids(self.spec_brokers()),
    {
        let n = self.brokers.len();
        let mut r: Vec<u32> = Vec::new();
        let mut i: usize = 0;
        while i < n
            invariant
                i <= n,
                n == self.spec_brokers().len(),
                r@.len() == i,
                forall|j: int| 0 <= j < i ==> r@[j] == self.spec_brokers()[j].broker_id,
            decreases n - i,
        {
            r.push(self.brokers.at(i).broker_id);
            i = i + 1;
        }
        assert(r@ =~= broker_ids(self.spec_brokers()));
        r
    }

    /// Create a stream whose partitions are spread round-robin over the
    /// registered brokers (in registration order): refused with "No active
    /// brokers in cluster" when there are none; otherwise the stream replaces
    /// one with the same identifier and each partition's leader is recorded.
    pub fn create_stream(&mut self, config: StreamPartitionConfig) -> (r: Result<StreamMetadata, String>)
        requires
            old(self).spec_brokers().len() <= u32::MAX,
            config.num_partitions + config.replication_factor <= u32::MAX + 2,
        ensures
            final(self).spec_brokers() == old(self).spec_brokers(),
            final(self).spec_controller() == old(self).spec_controller(),
            old(self).spec_brokers().len() == 0 ==> (r matches Err(e) && e@ == "No active brokers in cluster"@
                && final(self).spec_streams() == old(self).spec_streams()
                && final(self).spec_leaders() == old(self).spec_leaders()),
            old(self).spec_brokers().len() > 0 ==> (r matches Ok(m)
                && m@ == assigned_stream(config.stream_id@, config.num_partitions, config.replication_factor, broker_ids(old(self).spec_brokers()))
                && stream_of(final(self).spec_streams(), config.stream_id@) == Some(m@)
                && final(self).spec_streams().len() == old(self).spec_streams().len() + (if key_pos(old(self).spec_streams(), config.stream_id@) is Some { 0int } else { 1int })
                && final(self).spec_leaders() == leaders_after_create(old(self).spec_leaders(), config.stream_id@, config.num_partitions, broker_ids(old(self).spec_brokers()))),
    {
        let ids = self.broker_id_list();
        if ids.len() == 0 {
            return Err(owned("No active brokers in cluster"));
        }
        let n = ids.len() as u32;
        let np = config.num_partitions;
        let rf = config.replication_factor;
        let ghost sid = config.stream_id@;
        let ghost m0 = self.spec_leaders();
        let mut partitions: Vec<PartitionMetadata> = Vec::new();
        let mut p: u32 = 0;
        while p < np
            invariant
                p <= np,
                n as int == ids@.len(),
                ids@ == broker_ids(self.spec_brokers()),
                n > 0,
                np == config.num_partitions,
                rf == config.replication_factor,
                np + rf <= u32::MAX + 2,
                sid == config.stream_id@,
                partitions@.len() == p,
                forall|q: int| 0 <= q < p ==> (#[trigger] partitions@[q])@ == assigned_partition(sid, ids@, rf, q),
                self.spec_leaders() == leaders_after_create(m0, sid, p, ids@),
                self.spec_brokers() == old(self).spec_brokers(),
                self.spec_streams() == old(self).spec_streams(),
                self.spec_controller() == old(self).spec_controller(),
            decreases np - p,
        {
            let leader = ids[(p % n) as usize];
            let mut replicas: Vec<u32> = Vec::new();
            replicas.push(leader);
            let mut i: u32 = 1;
            while i < rf
                invariant
                    1 <= i,
                    i <= rf || (rf == 0 && i == 1),
                    p < np,
                    np + rf <= u32::MAX + 2,
                    n as int == ids@.len(),
                    n > 0,
                    replicas@.len() == i,
                    forall|k: int| 0 <= k < i ==> #[trigger] replicas@[k] == ids@[(p + k) % (ids@.len() as int)],
                decreases rf - i,
            {
                let idx = ((p + i) % n) as usize;
                replicas.push(ids[idx]);
                i = i + 1;
            }
            let ghost reps = Seq::new(replica_count(rf), |k: int| ids@[(p + k) % (ids@.len() as int)]);
            assert(replicas@ =~= reps);
            let isr = replicas.clone();
            let part = PartitionMetadata {
                stream_id: config.stream_id.clone(),
                partition_id: p,
                leader_broker_id: leader,
                replica_broker_ids: replicas,
                in_sync_replicas: isr,
                current_offset: 0,
            };
            assert(part@ == assigned_partition(sid, ids@, rf, p as int));
            partitions.push(part);
            self.partition_leaders.set(config.stream_id.clone(), p, leader);
            assert(self.spec_leaders() =~= leaders_after_create(m0, sid, (p + 1) as u32, ids@));
            p = p + 1;
        }
        let metadata = StreamMetadata {
            stream_id: config.stream_id.clone(),
            num_partitions: np,
            replication_factor: rf,
            partitions,
        };
        assert(metadata@ == assigned_stream(sid, np, rf, ids@)) by {
            assert(partition_views(metadata.partitions@) =~= Seq::new(np as nat, |q: int| assigned_partition(sid, ids@, rf, q)));
        }
        let stored = metadata.clone();
        let ghost e0 = self.spec_streams();
        let _ = self.streams.upsert(config.stream_id, stored);
        proof {
            let e = self.spec_streams();
            match key_pos(e0, sid) {
                Some(i) => {
                    crate::keyed::lemma_key_pos_valid(e0, sid);
                    assert forall|j: int| 0 <= j < i implies (#[trigger] e[j]).0@ != sid by {
                        assert(e[j] == e0[j]);
                    }
                    crate::keyed::lemma_key_pos_at(e, sid, i);
                },
                None => {
                    assert forall|j: int| 0 <= j < e0.len() implies (#[trigger] e[j]).0@ != sid by {
                        assert(e[j] == e0[j]);
                        if e0[j].0@ == sid {
                            crate::keyed::lemma_key_pos_some(e0, sid, j);
                        }
                    }
                    crate::keyed::lemma_key_pos_at(e, sid, e0.len() as int);
                },
            }
        }
        Ok(metadata)
    }

    /// Number of streams.
    pub fn stream_count(&self) -> (r: usize)
        ensures
            r == self.spec_streams().len(),
    {
        self.streams.len()
    }

    /// The stream at position `i`.
    pub fn stream_at(&self, i: usize) -> (r: &StreamMetadata)
        requires
            i < self.spec_streams().len(),
        ensures
            *r == self.spec_streams()[i as int].1,
    {
        &self.streams.at(i).1
    }

    /// The position of stream `stream_id`.
    pub fn stream_position(&self, stream_id: &str) -> (r: Option<usize>)
        ensures
            r matches Some(i) ==> key_pos(self.spec_streams(), stream_id@) == Some(i as int),
            r is None ==> key_pos(self.spec_streams(), stream_id@) is None,
    {
        self.streams.find(stream_id)
    }

    /// Replace the metadata of the stream at position `i`, keeping its key.
    pub fn replace_stream_at(&mut self, i: usize, m: StreamMetadata)
        requires
            i < old(self).spec_streams().len(),
        ensures
            final(self).spec_streams() == old(self).spec_streams().update(i as int, (old(self).spec_streams()[i as int].0, m)),
            final(self).spec_brokers() == old(self).spec_brokers(),
            final(self).spec_leaders() == old(self).spec_leaders(),
            final(self).spec_controller() == old(self).spec_controller(),
    {
        self.streams.set_value(i, m);
    }

    /// The identifiers of the brokers that are up, in registration order.
    pub fn up_broker_ids(&self) -> (r: Vec<u32>)
        ensures
            r@ == replication::up_ids(self.spec_brokers()),
    {
        let ghost bs = self.spec_brokers();
        let n = self.brokers.len();
        let mut r: Vec<u32> = Vec::new();
        let mut i: usize = 0;
        while i < n
            invariant
                i <= n,
                n == bs.len(),
                bs == self.spec_brokers(),
                r@ == replication::up_ids(bs.take(i as int)),
            decreases n - i,
        {
            let b = self.brokers.at(i);
            assert(bs.take(i + 1).drop_last() =~= bs.take(i as int));
            if b.status == BrokerStatus::Up {
                r.push(b.broker_id);
            }
            i = i + 1;
        }
        assert(bs.take(n as int) =~= bs);
        r
    }

    /// The metadata of stream `stream_id`.
    pub fn get_stream(&self, stream_id: &str) -> (r: Option<StreamMetadata>)
        ensures
            match stream_of(self.spec_streams(), stream_id@) {
                Some(s) => r matches Some(m) && m@ == s,
                None => r is None,
            },
    {
        match self.streams.get(stream_id) {
            Some(s) => Some(s.clone()),
            None => None,
        }
    }

    /// The leader of `partition_id` of `stream_id`.
    pub fn get_partition_leader(&self, stream_id: &str, partition_id: u32) -> (r: Option<u32>)
        ensures
            r == self.spec_leaders().get((stream_id@, partition_id)),
    {
        self.partition_leaders.get(stream_id, partition_id)
    }

    /// Record `leader` as the leader of `partition_id` of `stream_id`.
    pub fn set_partition_leader(&mut self, stream_id: String, partition_id: u32, leader: u32)
        ensures
            final(self).spec_leaders() == old(self).spec_leaders().insert((stream_id@, partition_id), leader),
            final(self).spec_brokers() == old(self).spec_brokers(),
            final(self).spec_streams() == old(self).spec_streams(),
            final(self).spec_controller() == old(self).spec_controller(),
    {
        self.partition_leaders.set(stream_id, partition_id, leader);
    }

    /// The partition of stream `stream_id` that a message with
    /// `partition_key` goes to: the key's hash modulo the partition count;
    /// "Stream not found" for an unknown stream.
    pub fn determine_partition(&self, stream_id: &str, partition_key: &str) -> (r: Result<u32, String>)
        requires
            stream_of(self.spec_streams(), stream_id@) matches Some(s) ==> s.num_partitions != 0,
        ensures
            match stream_of(self.spec_streams(), stream_id@) {
                Some(s) => r == Ok::<u32, String>(key_hash(vstd::utf8::encode_utf8(partition_key@)) % s.num_partitions),
                None => r matches Err(e) && e@ == "Stream not found"@,
            },
    {
        let stream = match self.get_stream(stream_id) {
            Some(s) => s,
            None => {
                return Err(owned("Stream not found"));
            },
        };
        let bytes = bytes_of(partition_key);
        let mut hash: u32 = 0;
        let mut i: usize = 0;
        while i < bytes.len()
            invariant
                i <= bytes@.len(),
                hash == key_hash(bytes@.take(i as int)),
            decreases bytes@.len() - i,
        {
            assert(bytes@.take(i as int) =~= bytes@.take(i + 1).drop_last());
            hash = hash.wrapping_mul(31).wrapping_add(bytes[i] as u32);
            i = i + 1;
        }
        assert(bytes@.take(bytes@.len() as int) =~= bytes@);
        Ok(hash % stream.num_partitions)
    }
}

} // verus!
