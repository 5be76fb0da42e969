//! Replication of partition messages, leader election and rebalancing.
use vstd::prelude::*;
use crate::keyed::key_pos;
use crate::text::{owned, str_eq};
use super::{
    broker_up, partition_pos, partition_views, stream_of, BrokerMetadata, BrokerStatus, ClusterState,
    PartitionMetadata, PartitionView, StreamMetadata, StreamView,
};

verus! {

/// A record that a message at an offset was replicated.
#[derive(Debug)]
pub struct ReplicationLog {
    pub message_offset: u64,
    pub leader_broker_id: u32,
    pub replicated_to: Vec<u32>,
}

/// Abstract value of a replication record.
pub struct ReplicationLogView {
    pub message_offset: u64,
    pub leader_broker_id: u32,
    pub replicated_to: Seq<u32>,
}

impl View for ReplicationLog {
    type V = ReplicationLogView;

    open spec fn view(&self) -> ReplicationLogView {
        ReplicationLogView { message_offset: self.message_offset, leader_broker_id: self.leader_broker_id, replicated_to: self.replicated_to@ }
    }
}

impl Clone for ReplicationLog {
    fn clone(&self) -> (r: Self)
        ensures
            r@ == self@,
    {
        ReplicationLog { message_offset: self.message_offset, leader_broker_id: self.leader_broker_id, replicated_to: self.replicated_to.clone() }
    }
}

/// The record of replicating `offset` to a partition: its leader and all
/// its replicas.
pub open spec fn replication_of(p: PartitionView, offset: u64) -> ReplicationLogView {
    ReplicationLogView { message_offset: offset, leader_broker_id: p.leader_broker_id, replicated_to: p.replica_broker_ids }
}

/// What replicating `offset` to `partition_id` of `stream_id` gives: the
/// record, or the error message.
pub open spec fn replication_outcome(streams: Seq<(String, StreamMetadata)>, stream_id: Seq<char>, partition_id: u32, offset: u64) -> Result<ReplicationLogView, Seq<char>> {
    match stream_of(streams, stream_id) {
        None => Err("Stream not found"@),
        Some(s) => match partition_pos(s.partitions, partition_id) {
            None => Err("Partition not found"@),
            Some(j) => Ok(replication_of(s.partitions[j], offset)),
        },
    }
}

/// Position `i` is the first record of `partition_id` of `stream_id` at
/// `offset`.
pub open spec fn first_log(logs: Seq<(String, u32, ReplicationLog)>, stream_id: Seq<char>, partition_id: u32, offset: u64, i: int) -> bool {
    &&& 0 <= i < logs.len()
    &&& logs[i].0@ == stream_id && logs[i].1 == partition_id && logs[i].2.message_offset == offset
    &&& forall|j: int| 0 <= j < i ==> !((#[trigger] logs[j]).0@ == stream_id && logs[j].1 == partition_id && logs[j].2.message_offset == offset)
}

/// A message is committed when its first replication record reaches at
/// least `min_replicas` brokers (the count taken modulo 2^32).
pub open spec fn committed(logs: Seq<(String, u32, ReplicationLog)>, stream_id: Seq<char>, partition_id: u32, offset: u64, min_replicas: u32) -> bool {
    exists|i: int| #[trigger] first_log(logs, stream_id, partition_id, offset, i)
        && logs[i].2.replicated_to@.len() as u32 >= min_replicas
}

/// The first replication record of a partition's replicas.
pub fn partition_index(parts: &Vec<PartitionMetadata>, partition_id: u32) -> (r: Option<usize>)
    ensures
        r matches Some(j) ==> partition_pos(partition_views(parts@), partition_id) == Some(j as int),
        r is None ==> partition_pos(partition_views(parts@), partition_id) is None,
{
    let ghost pv = partition_views(parts@);
    let mut j: usize = 0;
    while j < parts.len()
        invariant
            j <= parts@.len(),
            pv == partition_views(parts@),
            forall|k: int| 0 <= k < j ==> (#[trigger] pv[k]).partition_id != partition_id,
        decreases parts@.len() - j,
    {
        if parts[j].partition_id == partition_id {
            proof {
                assert(pv[j as int].partition_id == partition_id);
                let c = choose|i: int| 0 <= i < pv.len() && (#[trigger] pv[i]).partition_id == partition_id
                    && forall|k: int| 0 <= k < i ==> (#[trigger] pv[k]).partition_id != partition_id;
                if c < j {
                    assert(pv[c].partition_id != partition_id);
                } else if c > j {
                    assert(pv[j as int].partition_id != partition_id);
                }
            }
            return Some(j);
        }
        j = j + 1;
    }
    None
}

/// Replication records of every partition.
pub struct ReplicationManager {
    replication_logs: Vec<(String, u32, ReplicationLog)>,
}

impl ReplicationManager {
    /// The replication records, oldest first, each under its stream and
    /// partition.
    pub closed spec fn spec_logs(&self) -> Seq<(String, u32, ReplicationLog)> {
        self.replication_logs@
    }

    /// A manager with no record.
    pub fn new() -> (r: Self)
        ensures
            r.spec_logs().len() == 0,
    {
        ReplicationManager { replication_logs: Vec::new() }
    }

    /// Replicate the message at `offset` of a partition to its replicas
    /// (simulated as immediate success) and record it: "Stream not found" or
    /// "Partition not found" when the partition is unknown.
    pub fn replicate_message(&mut self, state: &ClusterState, stream_id: &str, partition_id: u32, offset: u64) -> (r: Result<ReplicationLog, String>)
        ensures
            match replication_outcome(state.spec_streams(), stream_id@, partition_id, offset) {
                Ok(log) => r matches Ok(l) && l@ == log
                    && final(self).spec_logs().len() == old(self).spec_logs().len() + 1
                    && final(self).spec_logs().drop_last() == old(self).spec_logs()
                    && final(self).spec_logs().last().0@ == stream_id@
                    && final(self).spec_logs().last().1 == partition_id
                    && final(self).spec_logs().last().2@ == log,
                Err(e) => r matches Err(m) && m@ == e && final(self).spec_logs() == old(self).spec_logs(),
            },
    {
        let stream = match state.get_stream(stream_id) {
            Some(s) => s,
            None => {
                return Err(owned("Stream not found"));
            },
        };
        let j = match partition_index(&stream.partitions, partition_id) {
            Some(j) => j,
            None => {
                return Err(owned("Partition not found"));
            },
        };
        let partition = &stream.partitions[j];
        let log = ReplicationLog {
            message_offset: offset,
            leader_broker_id: partition.leader_broker_id,
            replicated_to: partition.replica_broker_ids.clone(),
        };
        let ghost l0 = self.replication_logs@;
        self.replication_logs.push((owned(stream_id), partition_id, log.clone()));
        assert(self.replication_logs@.drop_last() =~= l0);
        Ok(log)
    }

    /// Whether the message at `offset` of a partition is safely replicated:
    /// its first record reaches at least `min_replicas` brokers.
    pub fn is_committed(&self, stream_id: &str, partition_id: u32, offset: u64, min_replicas: u32) -> (r: bool)
        ensures
            r == committed(self.spec_logs(), stream_id@, partition_id, offset, min_replicas),
    {
        let mut i: usize = 0;
        while i < self.replication_logs.len()
            invariant
                i <= self.replication_logs@.len(),
                forall|j: int| 0 <= j < i ==> !((#[trigger] self.replication_logs@[j]).0@ == stream_id@
                    && self.replication_logs@[j].1 == partition_id && self.replication_logs@[j].2.message_offset == offset),
            decreases self.replication_logs@.len() - i,
        {
            let e = &self.replication_logs[i];
            if e.1 == partition_id && e.2.message_offset == offset && str_eq(e.0.as_str(), stream_id) {
                let n = e.2.replicated_to.len() as u32;
                proof {
                    let logs = self.replication_logs@;
                    assert(first_log(logs, stream_id@, partition_id, offset, i as int));
                    assert forall|c: int| #[trigger] first_log(logs, stream_id@, partition_id, offset, c) implies c == i by {
                        if c < i {
                        } else if c > i {
                            assert(!(logs[i as int].0@ == stream_id@ && logs[i as int].1 == partition_id && logs[i as int].2.message_offset == offset));
                        }
                    }
                }
                return n >= min_replicas;
            }
            i = i + 1;
        }
        false
    }
}

/// The position of the first broker of `ids` that is up.
pub open spec fn first_up(brokers: Seq<BrokerMetadata>, ids: Seq<u32>) -> Option<int> {
    if exists|k: int| 0 <= k < ids.len() && broker_up(brokers, #[trigger] ids[k])
        && forall|m: int| 0 <= m < k ==> !broker_up(brokers, #[trigger] ids[m]) {
        Some(choose|k: int| 0 <= k < ids.len() && broker_up(brokers, #[trigger] ids[k])
            && forall|m: int| 0 <= m < k ==> !broker_up(brokers, #[trigger] ids[m]))
    } else {
        None
    }
}

/// What electing a leader for a partition gives: the current leader when it
/// is up, else the first in-sync replica that is up; and whether a new
/// leader was chosen.
pub open spec fn election(brokers: Seq<BrokerMetadata>, streams: Seq<(String, StreamMetadata)>, stream_id: Seq<char>, partition_id: u32) -> (Result<u32, Seq<char>>, bool) {
    match stream_of(streams, stream_id) {
        None => (Err("Stream not found"@), false),
        Some(s) => match partition_pos(s.partitions, partition_id) {
            None => (Err("Partition not found"@), false),
            Some(j) => {
                let p = s.partitions[j];
                if broker_up(brokers, p.leader_broker_id) {
                    (Ok(p.leader_broker_id), false)
                } else {
                    match first_up(brokers, p.in_sync_replicas) {
                        Some(k) => (Ok(p.in_sync_replicas[k]), true),
                        None => (Err("No alive replicas available"@), false),
                    }
                }
            },
        },
    }
}

/// The (stream, partition) pairs of the partitions of `s` that `dead`
/// leads, in order.
pub open spec fn led_partitions(sid: Seq<char>, parts: Seq<PartitionView>, dead: u32) -> Seq<(Seq<char>, u32)>
    decreases parts.len(),
{
    if parts.len() == 0 {
        Seq::empty()
    } else {
        let rest = led_partitions(sid, parts.drop_last(), dead);
        if parts.last().leader_broker_id == dead { rest.push((sid, parts.last().partition_id)) } else { rest }
    }
}

/// The (stream, partition) pairs of every partition that `dead` leads,
/// stream by stream.
pub open spec fn failover_candidates(streams: Seq<(String, StreamMetadata)>, dead: u32) -> Seq<(Seq<char>, u32)>
    decreases streams.len(),
{
    if streams.len() == 0 {
        Seq::empty()
    } else {
        failover_candidates(streams.drop_last(), dead)
            + led_partitions(streams.last().1.stream_id@, streams.last().1@.partitions, dead)
    }
}

/// Electing leaders for the first `n` candidates in turn: how many
/// elections succeeded, and the leader table afterwards.
pub open spec fn failover(
    brokers: Seq<BrokerMetadata>,
    streams: Seq<(String, StreamMetadata)>,
    leaders: Map<(Seq<char>, u32), u32>,
    cands: Seq<(Seq<char>, u32)>,
    n: nat,
) -> (nat, Map<(Seq<char>, u32), u32>)
    decreases n,
{
    if n == 0 {
        (0, leaders)
    } else {
        let (k, m) = failover(brokers, streams, leaders, cands, (n - 1) as nat);
        let c = cands[n - 1];
        let (res, changed) = election(brokers, streams, c.0, c.1);
        let m2 = if changed { m.insert(c, res->Ok_0) } else { m };
        (if res is Ok { k + 1 } else { k }, m2)
    }
}

/// The views of a list of (stream, partition) pairs.
pub open spec fn pair_views(s: Seq<(String, u32)>) -> Seq<(Seq<char>, u32)> {
    s.map_values(|c: (String, u32)| (c.0@, c.1))
}

/// Leader election and failover.
pub struct LeaderElector {}

impl LeaderElector {
    /// An elector.
    pub fn new() -> (r: Self) {
        LeaderElector {}
    }

    /// Elect a new leader for a partition whose leader is not up, as
    /// `election` says; a new leader is recorded in the leader table.
    pub fn elect_new_leader(&self, state: &mut ClusterState, stream_id: &str, partition_id: u32) -> (r: Result<u32, String>)
        ensures
            final(state).spec_brokers() == old(state).spec_brokers(),
            final(state).spec_streams() == old(state).spec_streams(),
            final(state).spec_controller() == old(state).spec_controller(),
            ({
                let (res, changed) = election(old(state).spec_brokers(), old(state).spec_streams(), stream_id@, partition_id);
                &&& match res {
                    Ok(id) => r == Ok::<u32, String>(id),
                    Err(e) => r matches Err(m) && m@ == e,
                }
                &&& final(state).spec_leaders() == if changed {
                    old(state).spec_leaders().insert((stream_id@, partition_id), res->Ok_0)
                } else {
                    old(state).spec_leaders()
                }
            }),
    {
        let stream = match state.get_stream(stream_id) {
            Some(s) => s,
            None => {
                return Err(owned("Stream not found"));
            },
        };
        let j = match partition_index(&stream.partitions, partition_id) {
            Some(j) => j,
            None => {
                return Err(owned("Partition not found"));
            },
        };
        let partition = &stream.partitions[j];
        let old_leader = partition.leader_broker_id;
        if let Some(b) = state.get_broker(old_leader) {
            if b.status == BrokerStatus::Up {
                return Ok(old_leader);
            }
        }
        assert(partition_views(stream.partitions@)[j as int] == partition@);
        let ghost isr = partition.in_sync_replicas@;
        let ghost brokers = state.spec_brokers();
        let mut k: usize = 0;
        while k < partition.in_sync_replicas.len()
            invariant
                k <= isr.len(),
                isr == partition.in_sync_replicas@,
                brokers == state.spec_brokers(),
                forall|m: int| 0 <= m < k ==> !broker_up(brokers, #[trigger] isr[m]),
                state.spec_brokers() == old(state).spec_brokers(),
                state.spec_streams() == old(state).spec_streams(),
                state.spec_controller() == old(state).spec_controller(),
                state.spec_leaders() == old(state).spec_leaders(),
                stream_of(old(state).spec_streams(), stream_id@) == Some(stream@),
                partition_pos(stream@.partitions, partition_id) == Some(j as int),
                j < stream.partitions@.len(),
                *partition == stream.partitions@[j as int],
                !broker_up(brokers, partition.leader_broker_id),
            decreases isr.len() - k,
        {
            let id = partition.in_sync_replicas[k];
            let up = match state.get_broker(id) {
                Some(b) => b.status == BrokerStatus::Up,
                None => false,
            };
            if up {
                proof {
                    let c = choose|c: int| 0 <= c < isr.len() && broker_up(brokers, #[trigger] isr[c])
                        && forall|m: int| 0 <= m < c ==> !broker_up(brokers, #[trigger] isr[m]);
                    if c < k {
                    } else if c > k {
                        assert(!broker_up(brokers, isr[k as int]));
                    }
                }
                state.set_partition_leader(owned(stream_id), partition_id, id);
                return Ok(id);
            }
            k = k + 1;
        }
        Err(owned("No alive replicas available"))
    }

    /// Reassign the partitions that a failed broker leads, stream by stream:
    /// returns how many elections succeeded (failed ones are skipped).
    pub fn handle_broker_failure(&self, state: &mut ClusterState, dead_broker_id: u32) -> (r: Result<u32, String>)
        requires
            failover_candidates(old(state).spec_streams(), dead_broker_id).len() <= u32::MAX,
        ensures
            final(state).spec_brokers() == old(state).spec_brokers(),
            final(state).spec_streams() == old(state).spec_streams(),
            final(state).spec_controller() == old(state).spec_controller(),
            ({
                let cands = failover_candidates(old(state).spec_streams(), dead_broker_id);
                let (n, m) = failover(old(state).spec_brokers(), old(state).spec_streams(), old(state).spec_leaders(), cands, cands.len());
                r matches Ok(c) && c == n && final(state).spec_leaders() == m
            }),
    {
        let cands = Self::candidates(state, dead_broker_id);
        let ghost cv = pair_views(cands@);
        let mut count: u32 = 0;
        let mut i: usize = 0;
        while i < cands.len()
            invariant
                i <= cands@.len(),
                cv == pair_views(cands@),
                cv == failover_candidates(old(state).spec_streams(), dead_broker_id),
                cv.len() <= u32::MAX,
                state.spec_brokers() == old(state).spec_brokers(),
                state.spec_streams() == old(state).spec_streams(),
                state.spec_controller() == old(state).spec_controller(),
                (count as nat, state.spec_leaders()) == failover(old(state).spec_brokers(), old(state).spec_streams(),
                    old(state).spec_leaders(), cv, i as nat),
                count <= i,
            decreases cands@.len() - i,
        {
            let res = self.elect_new_leader(state, cands[i].0.as_str(), cands[i].1);
            if res.is_ok() {
                count = count + 1;
            }
            i = i + 1;
        }
        Ok(count)
    }

    /// The (stream, partition) pairs that `dead` leads.
    fn candidates(state: &ClusterState, dead: u32) -> (r: Vec<(String, u32)>)
        ensures
            pair_views(r@) == failover_candidates(state.spec_streams(), dead),
    {
        let ghost streams = state.spec_streams();
        let n = state.stream_count();
        let mut out: Vec<(String, u32)> = Vec::new();
        let mut i: usize = 0;
        while i < n
            invariant
                i <= n,
                n == streams.len(),
                streams == state.spec_streams(),
                pair_views(out@) == failover_candidates(streams.take(i as int), dead),
            decreases n - i,
        {
            let s = state.stream_at(i);
            let ghost before = out@;
            let mut j: usize = 0;
            while j < s.partitions.len()
                invariant
                    j <= s.partitions@.len(),
                    *s == streams[i as int].1,
                    i < streams.len(),
                    pair_views(out@) == failover_candidates(streams.take(i as int), dead)
                        + led_partitions(s.stream_id@, partition_views(s.partitions@.take(j as int)), dead),
                decreases s.partitions@.len() - j,
            {
                let ghost pv = partition_views(s.partitions@.take(j as int));
                assert(partition_views(s.partitions@.take(j + 1)).drop_last() =~= pv);
                assert(partition_views(s.partitions@.take(j + 1)).last() == s.partitions@[j as int]@);
                if s.partitions[j].leader_broker_id == dead {
                    let ghost o0 = out@;
                    let sid = s.stream_id.clone();
                    out.push((sid, s.partitions[j].partition_id));
                    assert(pair_views(out@) =~= pair_views(o0).push((s.stream_id@, s.partitions@[j as int].partition_id)));
                    assert(pair_views(out@) =~= failover_candidates(streams.take(i as int), dead)
                        + led_partitions(s.stream_id@, partition_views(s.partitions@.take(j + 1)), dead));
                } else {
                    assert(pair_views(out@) =~= failover_candidates(streams.take(i as int), dead)
                        + led_partitions(s.stream_id@, partition_views(s.partitions@.take(j + 1)), dead));
                }
                j = j + 1;
            }
            assert(s.partitions@.take(s.partitions@.len() as int) =~= s.partitions@);
            assert(streams.take(i + 1).drop_last() =~= streams.take(i as int));
            i = i + 1;
        }
        assert(streams.take(n as int) =~= streams);
        out
    }
}

/// The partitions of a stream after rebalancing over the brokers `alive`:
/// partition `i` is led by broker `i mod n`; a partition whose leader
/// changes gets the next brokers on the ring as replicas (as many as it had,
/// at least one), all in sync.
pub open spec fn rebalanced(parts: Seq<PartitionView>, alive: Seq<u32>) -> Seq<PartitionView> {
    Seq::new(parts.len(), |i: int| {
        let p = parts[i];
        let n = alive.len() as int;
        let leader = alive[i % n];
        if p.leader_broker_id == leader {
            p
        } else {
            let reps = Seq::new(if p.replica_broker_ids.len() == 0 { 1nat } else { p.replica_broker_ids.len() }, |j: int| alive[(i + j) % n]);
            PartitionView { leader_broker_id: leader, replica_broker_ids: reps, in_sync_replicas: reps, ..p }
        }
    })
}

/// The identifiers of the brokers that are up, in order.
pub open spec fn up_ids(brokers: Seq<BrokerMetadata>) -> Seq<u32>
    decreases brokers.len(),
{
    if brokers.len() == 0 {
        Seq::empty()
    } else {
        let rest = up_ids(brokers.drop_last());
        if brokers.last().status == BrokerStatus::Up { rest.push(brokers.last().broker_id) } else { rest }
    }
}

/// Rebalance the partitions of `parts` over the brokers `alive`, as
/// `rebalanced` says.
pub fn rebalance_partitions(parts: &Vec<PartitionMetadata>, alive: &Vec<u32>) -> (r: Vec<PartitionMetadata>)
    requires
        alive@.len() > 0,
    ensures
        partition_views(r@) == rebalanced(partition_views(parts@), alive@),
{
    let n = alive.len();
    let ghost target = rebalanced(partition_views(parts@), alive@);
    let mut out: Vec<PartitionMetadata> = Vec::new();
    let mut i: usize = 0;
    while i < parts.len()
        invariant
            i <= parts@.len(),
            n == alive@.len(),
            n > 0,
            target == rebalanced(partition_views(parts@), alive@),
            out@.len() == i,
            forall|k: int| 0 <= k < i ==> (#[trigger] out@[k])@ == target[k],
        decreases parts@.len() - i,
    {
        let p = &parts[i];
        let new_leader = alive[i % n];
        if p.leader_broker_id == new_leader {
            out.push(p.clone());
        } else {
            let mut replicas: Vec<u32> = Vec::new();
            replicas.push(new_leader);
            let mut j: usize = 1;
            while j < p.replica_broker_ids.len()
                invariant
                    1 <= j,
                    j <= p.replica_broker_ids@.len() || (p.replica_broker_ids@.len() == 0 && j == 1),
                    n == alive@.len(),
                    n > 0,
                    i < parts@.len(),
                    replicas@.len() == j,
                    forall|k: int| 0 <= k < j ==> #[trigger] replicas@[k] == alive@[(i + k) % (n as int)],
                decreases p.replica_broker_ids@.len() - j,
            {
                let idx = ((i as u128 + j as u128) % (n as u128)) as usize;
                replicas.push(alive[idx]);
                j = j + 1;
            }
            let ghost reps = Seq::new(if p.replica_broker_ids@.len() == 0 { 1nat } else { p.replica_broker_ids@.len() }, |k: int| alive@[(i + k) % (n as int)]);
            assert(replicas@ =~= reps);
            let isr = replicas.clone();
            let q = PartitionMetadata {
                stream_id: p.stream_id.clone(),
                partition_id: p.partition_id,
                leader_broker_id: new_leader,
                replica_broker_ids: replicas,
                in_sync_replicas: isr,
                current_offset: p.current_offset,
            };
            out.push(q);
        }
        i = i + 1;
    }
    assert(partition_views(out@) =~= target);
    out
}

/// Rebalancing of partitions after brokers join or leave.
pub struct ClusterRebalancer {}

impl ClusterRebalancer {
    /// A rebalancer.
    pub fn new() -> (r: Self) {
        ClusterRebalancer {}
    }

    /// Rebalance the partitions of `stream_id` over the brokers that are up:
    /// "No alive brokers available" when none is, "Stream not found" for an
    /// unknown stream; otherwise the stream's partitions are replaced by
    /// their rebalanced form.
    pub fn rebalance(&self, state: &mut ClusterState, stream_id: &str) -> (r: Result<(), String>)
        ensures
            final(state).spec_brokers() == old(state).spec_brokers(),
            final(state).spec_leaders() == old(state).spec_leaders(),
            final(state).spec_controller() == old(state).spec_controller(),
            up_ids(old(state).spec_brokers()).len() == 0 ==> (r matches Err(e) && e@ == "No alive brokers available"@
                && final(state).spec_streams() == old(state).spec_streams()),
            up_ids(old(state).spec_brokers()).len() > 0 && stream_of(old(state).spec_streams(), stream_id@) is None ==>
                (r matches Err(e) && e@ == "Stream not found"@ && final(state).spec_streams() == old(state).spec_streams()),
            up_ids(old(state).spec_brokers()).len() > 0 && stream_of(old(state).spec_streams(), stream_id@) is Some ==> ({
                let i = key_pos(old(state).spec_streams(), stream_id@)->0;
                let s = stream_of(old(state).spec_streams(), stream_id@)->0;
                &&& r is Ok
                &&& final(state).spec_streams().len() == old(state).spec_streams().len()
                &&& forall|j: int| 0 <= j < old(state).spec_streams().len() && j != i ==> #[trigger] final(state).spec_streams()[j] == old(state).spec_streams()[j]
                &&& final(state).spec_streams()[i].0 == old(state).spec_streams()[i].0
                &&& final(state).spec_streams()[i].1@ == (StreamView { partitions: rebalanced(s.partitions, up_ids(old(state).spec_brokers())), ..s })
            }),
    {
        let alive = state.up_broker_ids();
        if alive.len() == 0 {
            return Err(owned("No alive brokers available"));
        }
        let pos = match state.stream_position(stream_id) {
            Some(i) => i,
            None => {
                return Err(owned("Stream not found"));
            },
        };
        let s = state.stream_at(pos);
        let parts = rebalance_partitions(&s.partitions, &alive);
        let m = StreamMetadata {
            stream_id: s.stream_id.clone(),
            num_partitions: s.num_partitions,
            replication_factor: s.replication_factor,
            partitions: parts,
        };
        state.replace_stream_at(pos, m);
        Ok(())
    }
}

} // verus!
