//! A cluster member broker: joining the cluster, sending messages to
//! partition leaders, and describing the topology to clients.
use vstd::prelude::*;
use crate::clock;
use crate::text::{concat, decimal, owned, push_str, u64_to_string};
use super::replication::{replication_outcome, ClusterRebalancer, LeaderElector, ReplicationManager};
use super::{
    broker_views, key_hash, partition_pos, stream_of, BrokerConfig, BrokerMetadata, BrokerStatus, BrokerView,
    ClusterState, PartitionView,
};

verus! {

/// Where a sent message went.
#[derive(Debug, Clone)]
pub struct SendResult {
    pub stream: String,
    pub partition: u32,
    pub offset: u64,
    pub replica_nodes: Vec<u32>,
}

/// The layout of a stream, for clients.
#[derive(Debug, Clone)]
pub struct Topology {
    pub stream: String,
    pub partitions: Vec<TopologyPartition>,
    pub brokers: Vec<TopologyBroker>,
}

/// One partition in a topology.
#[derive(Debug, Clone)]
pub struct TopologyPartition {
    pub id: u32,
    pub leader: u32,
    pub replicas: Vec<u32>,
    pub in_sync_replicas: Vec<u32>,
}

/// One broker in a topology.
#[derive(Debug, Clone)]
pub struct TopologyBroker {
    pub id: u32,
    pub host: String,
    pub port: u16,
    pub status: String,
}

/// The written form of a broker status.
pub open spec fn status_text(s: BrokerStatus) -> Seq<char> {
    match s {
        BrokerStatus::Up => "Up"@,
        BrokerStatus::Down => "Down"@,
        BrokerStatus::Starting => "Starting"@,
        BrokerStatus::Stopping => "Stopping"@,
    }
}

/// The written form of a broker status.
pub fn broker_status_text(s: BrokerStatus) -> (r: String)
    ensures
        r@ == status_text(s),
{
    match s {
        BrokerStatus::Up => owned("Up"),
        BrokerStatus::Down => owned("Down"),
        BrokerStatus::Starting => owned("Starting"),
        BrokerStatus::Stopping => owned("Stopping"),
    }
}

/// A topology partition describes partition `p`.
pub open spec fn describes_partition(t: TopologyPartition, p: PartitionView) -> bool {
    t.id == p.partition_id && t.leader == p.leader_broker_id && t.replicas@ == p.replica_broker_ids
        && t.in_sync_replicas@ == p.in_sync_replicas
}

/// A topology broker describes broker `b`.
pub open spec fn describes_broker(t: TopologyBroker, b: BrokerView) -> bool {
    t.id == b.broker_id && t.host@ == b.host && t.port == b.port && t.status@ == status_text(b.status)
}

/// The error sent back by a broker that does not lead the partition.
pub open spec fn not_leader_text(leader: u32) -> Seq<char> {
    "Not the leader for this partition. Leader is broker "@ + decimal(leader as nat)
}

/// A member broker of the cluster, holding its view of the cluster state.
pub struct ClusterBroker {
    config: BrokerConfig,
    state: ClusterState,
    replication_manager: ReplicationManager,
    leader_elector: LeaderElector,
    rebalancer: ClusterRebalancer,
}

impl ClusterBroker {
    /// The broker's configuration.
    pub closed spec fn spec_config(&self) -> BrokerConfig {
        self.config
    }

    /// The broker's view of the cluster.
    pub closed spec fn spec_state(&self) -> ClusterState {
        self.state
    }

    /// The replication records.
    pub closed spec fn spec_manager(&self) -> ReplicationManager {
        self.replication_manager
    }

    /// A broker with an empty view of the cluster.
    pub fn new(config: BrokerConfig) -> (r: Self)
        ensures
            r.spec_config() == config,
            r.spec_state().spec_brokers().len() == 0,
            r.spec_state().spec_streams().len() == 0,
            r.spec_state().spec_leaders() == Map::<(Seq<char>, u32), u32>::empty(),
            r.spec_state().spec_controller() == 0,
            r.spec_manager().spec_logs().len() == 0,
    {
        ClusterBroker {
            config,
            state: ClusterState::new(),
            replication_manager: ReplicationManager::new(),
            leader_elector: LeaderElector::new(),
            rebalancer: ClusterRebalancer::new(),
        }
    }

    /// The broker's view of the cluster.
    pub fn state(&self) -> (r: &ClusterState)
        ensures
            *r == self.spec_state(),
    {
        &self.state
    }

    /// The broker's view of the cluster, for changes.
    pub fn state_mut(&mut self) -> (r: &mut ClusterState)
        ensures
            *r == old(self).spec_state(),
            final(self).spec_state() == *final(r),
            final(self).spec_config() == old(self).spec_config(),
            final(self).spec_manager() == old(self).spec_manager(),
    {
        &mut self.state
    }

    /// The leader elector.
    pub fn leader_elector(&self) -> (r: &LeaderElector) {
        &self.leader_elector
    }

    /// The rebalancer.
    pub fn rebalancer(&self) -> (r: &ClusterRebalancer) {
        &self.rebalancer
    }

    /// Join the cluster now; see `initialize_cluster_at`.
    pub fn initialize_cluster(&mut self) -> (r: Result<(), String>)
        ensures
            r is Ok,
            exists|now: u64| #[trigger] Self::joined(*old(self), *final(self), now),
    {
        let now = clock::unix_millis() / 1000;
        self.initialize_cluster_at(now)
    }

    /// What joining the cluster at time `now` (seconds) did: the broker is
    /// registered as starting, and broker 1 becomes the controller.
    pub open spec fn joined(before: ClusterBroker, after: ClusterBroker, now: u64) -> bool {
        let c = before.spec_config();
        let m = BrokerView { broker_id: c.broker_id, host: c.listen_address@, port: c.listen_port, status: BrokerStatus::Starting, last_heartbeat: now };
        let bs = before.spec_state().spec_brokers();
        &&& broker_views(after.spec_state().spec_brokers()) == match super::broker_pos(bs, c.broker_id) {
            Some(i) => broker_views(bs).update(i, m),
            None => broker_views(bs).push(m),
        }
        &&& after.spec_state().spec_streams() == before.spec_state().spec_streams()
        &&& after.spec_state().spec_leaders() == before.spec_state().spec_leaders()
        &&& after.spec_state().spec_controller() == if c.broker_id == 1 { 1 } else { before.spec_state().spec_controller() }
        &&& after.spec_config() == c
        &&& after.spec_manager() == before.spec_manager()
    }

    /// Join the cluster at time `now` (seconds since the epoch).
    pub fn initialize_cluster_at(&mut self, now: u64) -> (r: Result<(), String>)
        ensures
            r is Ok,
            Self::joined(*old(self), *final(self), now),
    {
        let metadata = BrokerMetadata {
            broker_id: self.config.broker_id,
            host: self.config.listen_address.clone(),
            port: self.config.listen_port,
            status: BrokerStatus::Starting,
            last_heartbeat: now,
        };
        let ghost bs = self.state.spec_brokers();
        self.state.register_broker(metadata);
        proof {
            let m = metadata@;
            match super::broker_pos(bs, self.config.broker_id) {
                Some(i) => {
                    assert(broker_views(self.state.spec_brokers()) =~= broker_views(bs).update(i, m));
                },
                None => {
                    assert(broker_views(self.state.spec_brokers()) =~= broker_views(bs).push(m));
                },
            }
        }
        if self.config.broker_id == 1 {
            self.state.set_controller(self.config.broker_id);
        }
        Ok(())
    }

    /// What sending a message with `partition_key` to stream `stream_id`
    /// gives: the key's partition, refused unless this broker leads it;
    /// the message goes at the partition's current offset and is
    /// replicated to its replicas.
    pub open spec fn send_outcome(b: ClusterBroker, stream_id: Seq<char>, partition_key: Seq<char>) -> Result<(u32, PartitionView), Seq<char>> {
        let st = b.spec_state();
        match stream_of(st.spec_streams(), stream_id) {
            None => Err("Stream not found"@),
            Some(s) => {
                let pid = key_hash(vstd::utf8::encode_utf8(partition_key)) % s.num_partitions;
                match st.spec_leaders().get((stream_id, pid)) {
                    None => Err("No partition leader"@),
                    Some(l) => if l != b.spec_config().broker_id {
                        Err(not_leader_text(l))
                    } else {
                        match partition_pos(s.partitions, pid) {
                            None => Err("Partition not found"@),
                            Some(j) => Ok((pid, s.partitions[j])),
                        }
                    },
                }
            },
        }
    }

    /// Send a message to the cluster through this broker, as `send_outcome`
    /// says; a sent message is recorded as replicated.
    pub fn send_message(&mut self, stream_id: &str, partition_key: &str, data: Vec<u8>) -> (r: Result<SendResult, String>)
        requires
            stream_of(old(self).spec_state().spec_streams(), stream_id@) matches Some(s) ==> s.num_partitions != 0,
        ensures
            final(self).spec_state() == old(self).spec_state(),
            final(self).spec_config() == old(self).spec_config(),
            match Self::send_outcome(*old(self), stream_id@, partition_key@) {
                Ok((pid, p)) => r matches Ok(res) && res.stream@ == stream_id@ && res.partition == pid
                    && res.offset == p.current_offset && res.replica_nodes@ == p.replica_broker_ids
                    && final(self).spec_manager().spec_logs().drop_last() == old(self).spec_manager().spec_logs()
                    && final(self).spec_manager().spec_logs().len() == old(self).spec_manager().spec_logs().len() + 1
                    && final(self).spec_manager().spec_logs().last().0@ == stream_id@
                    && final(self).spec_manager().spec_logs().last().1 == pid
                    && final(self).spec_manager().spec_logs().last().2@ == super::replication::replication_of(p, p.current_offset),
                Err(e) => r matches Err(m) && m@ == e && final(self).spec_manager() == old(self).spec_manager(),
            },
    {
        let partition_id = self.state.determine_partition(stream_id, partition_key)?;
        let leader = match self.state.get_partition_leader(stream_id, partition_id) {
            Some(l) => l,
            None => {
                return Err(owned("No partition leader"));
            },
        };
        if leader != self.config.broker_id {
            let mut msg = owned("Not the leader for this partition. Leader is broker ");
            let n = u64_to_string(leader as u64);
            push_str(&mut msg, n.as_str());
            return Err(msg);
        }
        let stream = match self.state.get_stream(stream_id) {
            Some(s) => s,
            None => {
                return Err(owned("Stream not found"));
            },
        };
        let j = match super::replication::partition_index(&stream.partitions, partition_id) {
            Some(j) => j,
            None => {
                return Err(owned("Partition not found"));
            },
        };
        let partition = &stream.partitions[j];
        let offset = partition.current_offset;
        assert(super::partition_views(stream.partitions@)[j as int] == partition@);
        let _ = self.replication_manager.replicate_message(&self.state, stream_id, partition_id, offset)?;
        Ok(SendResult {
            stream: owned(stream_id),
            partition: partition_id,
            offset,
            replica_nodes: partition.replica_broker_ids.clone(),
        })
    }

    /// The topology of stream `stream_id`: its partitions and all brokers;
    /// "Stream not found" for an unknown stream.
    pub fn get_topology(&self, stream_id: &str) -> (r: Result<Topology, String>)
        ensures
            match stream_of(self.spec_state().spec_streams(), stream_id@) {
                None => r matches Err(e) && e@ == "Stream not found"@,
                Some(s) => r matches Ok(t) && t.stream@ == stream_id@
                    && t.partitions@.len() == s.partitions.len()
                    && (forall|i: int| 0 <= i < s.partitions.len() ==> describes_partition(#[trigger] t.partitions@[i], s.partitions[i]))
                    && t.brokers@.len() == self.spec_state().spec_brokers().len()
                    && (forall|i: int| 0 <= i < t.brokers@.len() ==> describes_broker(#[trigger] t.brokers@[i], self.spec_state().spec_brokers()[i]@)),
            },
    {
        let stream = match self.state.get_stream(stream_id) {
            Some(s) => s,
            None => {
                return Err(owned("Stream not found"));
            },
        };
        let brokers = self.state.get_all_brokers();
        let ghost pv = super::partition_views(stream.partitions@);
        let mut partitions: Vec<TopologyPartition> = Vec::new();
        let mut i: usize = 0;
        while i < stream.partitions.len()
            invariant
                i <= stream.partitions@.len(),
                pv == super::partition_views(stream.partitions@),
                partitions@.len() == i,
                forall|k: int| 0 <= k < i ==> describes_partition(#[trigger] partitions@[k], pv[k]),
            decreases stream.partitions@.len() - i,
        {
            let p = &stream.partitions[i];
            partitions.push(TopologyPartition {
                id: p.partition_id,
                leader: p.leader_broker_id,
                replicas: p.replica_broker_ids.clone(),
                in_sync_replicas: p.in_sync_replicas.clone(),
            });
            i = i + 1;
        }
        let ghost bv = broker_views(brokers@);
        let mut tbrokers: Vec<TopologyBroker> = Vec::new();
        let mut k: usize = 0;
        while k < brokers.len()
            invariant
                k <= brokers@.len(),
                bv == broker_views(brokers@),
                tbrokers@.len() == k,
                forall|m: int| 0 <= m < k ==> describes_broker(#[trigger] tbrokers@[m], bv[m]),
            decreases brokers@.len() - k,
        {
            let b = &brokers[k];
            tbrokers.push(TopologyBroker {
                id: b.broker_id,
                host: b.host.clone(),
                port: b.port,
                status: broker_status_text(b.status),
            });
            k = k + 1;
        }
        proof {
            assert(bv.len() == brokers@.len());
            assert(broker_views(self.state.spec_brokers()).len() == self.state.spec_brokers().len());
            assert forall|m: int| 0 <= m < tbrokers@.len() implies describes_broker(#[trigger] tbrokers@[m], self.state.spec_brokers()[m]@) by {
                assert(bv[m] == broker_views(self.state.spec_brokers())[m]);
            }
        }
        Ok(Topology { stream: owned(stream_id), partitions, brokers: tbrokers })
    }
}

} // verus!
