//! Properties of the cluster's operations taken together.
use vstd::prelude::*;
use super::replication::{committed, election, first_log, rebalanced, up_ids, ReplicationLog};
use super::{
    assigned_stream, broker_up, key_hash, leaders_after_create, replica_count, BrokerMetadata, BrokerStatus,
    PartitionView, StreamMetadata,
};

verus! {

/// A message's partition is one of the stream's partitions.
pub proof fn law_partition_in_range(partition_key: Seq<char>, num_partitions: u32)
    requires
        num_partitions != 0,
    ensures
        key_hash(vstd::utf8::encode_utf8(partition_key)) % num_partitions < num_partitions,
{
}

/// Every partition of a new stream has as many replicas as the replication
/// factor asks (at least one); its leader is its first replica; all of them
/// are registered brokers.
pub proof fn law_created_partitions_are_replicated(stream_id: Seq<char>, np: u32, rf: u32, ids: Seq<u32>, p: int)
    requires
        ids.len() > 0,
        0 <= p < np,
    ensures
        ({
            let part = assigned_stream(stream_id, np, rf, ids).partitions[p];
            &&& part.partition_id == p
            &&& part.replica_broker_ids.len() == replica_count(rf)
            &&& part.replica_broker_ids[0] == part.leader_broker_id
            &&& part.in_sync_replicas == part.replica_broker_ids
            &&& forall|k: int| 0 <= k < part.replica_broker_ids.len() ==> ids.contains(#[trigger] part.replica_broker_ids[k])
        }),
{
    let part = assigned_stream(stream_id, np, rf, ids).partitions[p];
    assert forall|k: int| 0 <= k < part.replica_broker_ids.len() implies ids.contains(#[trigger] part.replica_broker_ids[k]) by {
        let x = (p + k) % (ids.len() as int);
        assert(ids[x] == part.replica_broker_ids[k]);
    }
}

/// After a stream is created, the leader recorded for each of its
/// partitions is that partition's leader.
pub proof fn law_created_leaders_are_recorded(
    m: Map<(Seq<char>, u32), u32>,
    stream_id: Seq<char>,
    np: u32,
    rf: u32,
    ids: Seq<u32>,
    p: u32,
)
    requires
        ids.len() > 0,
        p < np,
    ensures
        leaders_after_create(m, stream_id, np, ids).get((stream_id, p))
            == Some(assigned_stream(stream_id, np, rf, ids).partitions[p as int].leader_broker_id),
{
}

/// An elected leader is a broker that is up, and is either the partition's
/// leader or one of its in-sync replicas.
pub proof fn law_elected_leader_is_up(
    brokers: Seq<BrokerMetadata>,
    streams: Seq<(String, StreamMetadata)>,
    stream_id: Seq<char>,
    partition_id: u32,
)
    ensures
        ({
            let (res, changed) = election(brokers, streams, stream_id, partition_id);
            &&& res matches Ok(id) ==> broker_up(brokers, id)
            &&& changed ==> res is Ok
        }),
{
    let (res, changed) = election(brokers, streams, stream_id, partition_id);
    if let Ok(id) = res {
        if changed {
            let s = super::stream_of(streams, stream_id)->0;
            let j = super::partition_pos(s.partitions, partition_id)->0;
            let isr = s.partitions[j].in_sync_replicas;
            let k = choose|k: int| 0 <= k < isr.len() && broker_up(brokers, #[trigger] isr[k])
                && forall|m: int| 0 <= m < k ==> !broker_up(brokers, #[trigger] isr[m]);
            assert(broker_up(brokers, isr[k]));
        }
    }
}

/// A replicated message that no earlier record covers is committed for
/// every quorum up to the number of its replicas.
pub proof fn law_replicated_is_committed(
    logs: Seq<(String, u32, ReplicationLog)>,
    stream: String,
    partition_id: u32,
    log: ReplicationLog,
    min_replicas: u32,
)
    requires
        forall|j: int| 0 <= j < logs.len() ==> !((#[trigger] logs[j]).0@ == stream@ && logs[j].1 == partition_id
            && logs[j].2.message_offset == log.message_offset),
        log.replicated_to@.len() <= u32::MAX,
        min_replicas <= log.replicated_to@.len(),
    ensures
        committed(logs.push((stream, partition_id, log)), stream@, partition_id, log.message_offset, min_replicas),
{
    let l1 = logs.push((stream, partition_id, log));
    assert forall|j: int| 0 <= j < logs.len() implies !((#[trigger] l1[j]).0@ == stream@ && l1[j].1 == partition_id
        && l1[j].2.message_offset == log.message_offset) by {
        assert(l1[j] == logs[j]);
    }
    assert(first_log(l1, stream@, partition_id, log.message_offset, logs.len() as int));
}

proof fn lemma_up_ids_are_up(brokers: Seq<BrokerMetadata>, x: u32)
    requires
        up_ids(brokers).contains(x),
    ensures
        exists|k: int| 0 <= k < brokers.len() && (#[trigger] brokers[k]).broker_id == x && brokers[k].status == BrokerStatus::Up,
    decreases brokers.len(),
{
    let rest = up_ids(brokers.drop_last());
    let n = brokers.len() - 1;
    if brokers.last().status == BrokerStatus::Up && x == brokers.last().broker_id {
        assert(brokers[n].broker_id == x);
    } else {
        if brokers.last().status == BrokerStatus::Up {
            let i = choose|i: int| 0 <= i < up_ids(brokers).len() && up_ids(brokers)[i] == x;
            assert(rest.contains(x)) by {
                assert(rest[i] == x);
            }
        }
        lemma_up_ids_are_up(brokers.drop_last(), x);
        let k = choose|k: int| 0 <= k < brokers.drop_last().len() && (#[trigger] brokers.drop_last()[k]).broker_id == x
            && brokers.drop_last()[k].status == BrokerStatus::Up;
        assert(brokers[k] == brokers.drop_last()[k]);
    }
}

/// After rebalancing over the brokers that are up, every partition is led
/// by a broker that is up.
pub proof fn law_rebalanced_leaders_are_up(parts: Seq<PartitionView>, brokers: Seq<BrokerMetadata>, i: int)
    requires
        up_ids(brokers).len() > 0,
        0 <= i < parts.len(),
    ensures
        exists|k: int| 0 <= k < brokers.len()
            && (#[trigger] brokers[k]).broker_id == rebalanced(parts, up_ids(brokers))[i].leader_broker_id
            && brokers[k].status == BrokerStatus::Up,
{
    let alive = up_ids(brokers);
    let leader = alive[i % (alive.len() as int)];
    assert(rebalanced(parts, alive)[i].leader_broker_id == leader);
    assert(alive.contains(leader));
    lemma_up_ids_are_up(brokers, leader);
}

} // verus!

verus! {

/// Hashing law: each further byte of a key folds into the hash as
/// `h * 31 + b` modulo 2^32, starting from 0; so a one-byte key hashes to
/// its byte, and two keys that differ only in their last byte hash apart.
pub proof fn law_key_hash_folds_each_byte(s: Seq<u8>, b: u8, c: u8)
    ensures
        key_hash(Seq::empty()) == 0,
        key_hash(s.push(b)) as int == (key_hash(s) as int * 31 + b as int) % 0x1_0000_0000,
        key_hash(seq![b]) == b as u32,
        b != c ==> key_hash(s.push(b)) != key_hash(s.push(c)),
{
    assert(s.push(b).drop_last() =~= s);
    assert(s.push(c).drop_last() =~= s);
    assert(seq![b].drop_last() =~= Seq::<u8>::empty());
    let h = key_hash(s) as int;
    assert((h * 31) % 0x1_0000_0000 + (b as int) < 0x2_0000_0000);
    assert(vstd::wrapping::u32_specs::wrapping_mul(key_hash(s), 31) as int == (h * 31) % 0x1_0000_0000);
    let m = (h * 31) % 0x1_0000_0000;
    assert(((m + b as int) % 0x1_0000_0000) == (h * 31 + b as int) % 0x1_0000_0000) by {
        vstd::arithmetic::div_mod::lemma_add_mod_noop(h * 31, b as int, 0x1_0000_0000);
        assert((b as int) % 0x1_0000_0000 == b as int);
    }
    assert(((m + c as int) % 0x1_0000_0000) == (h * 31 + c as int) % 0x1_0000_0000) by {
        vstd::arithmetic::div_mod::lemma_add_mod_noop(h * 31, c as int, 0x1_0000_0000);
        assert((c as int) % 0x1_0000_0000 == c as int);
    }
    if b != c {
        assert(0 <= m < 0x1_0000_0000);
        assert((m + b as int) % 0x1_0000_0000 != (m + c as int) % 0x1_0000_0000);
    }
}

} // verus!

verus! {

/// Rebalancing law: partition `i` ends up led by broker `i mod n` of the
/// `n` brokers that are up. A partition whose leader is already that broker
/// is left as it was. A partition that moves keeps its replica count (at
/// least one) and its replicas are the brokers that follow on the ring of up
/// brokers, starting with the new leader: replica `k` is broker
/// `(i + k) mod n`. They are all in sync and all up: no broker that is down
/// stays a replica of a moved partition.
pub proof fn law_moved_partitions_get_ring_replicas(parts: Seq<PartitionView>, brokers: Seq<BrokerMetadata>, i: int)
    requires
        up_ids(brokers).len() > 0,
        0 <= i < parts.len(),
    ensures
        ({
            let alive = up_ids(brokers);
            let n = alive.len() as int;
            let p = parts[i];
            let q = rebalanced(parts, alive)[i];
            &&& rebalanced(parts, alive).len() == parts.len()
            &&& q.leader_broker_id == alive[i % n]
            &&& p.leader_broker_id == alive[i % n] ==> q == p
            &&& p.leader_broker_id != alive[i % n] ==> {
                &&& q.partition_id == p.partition_id
                &&& q.replica_broker_ids.len() == if p.replica_broker_ids.len() == 0 { 1 } else { p.replica_broker_ids.len() }
                &&& q.in_sync_replicas == q.replica_broker_ids
                &&& q.replica_broker_ids[0] == q.leader_broker_id
                &&& forall|k: int| 0 <= k < q.replica_broker_ids.len() ==> #[trigger] q.replica_broker_ids[k] == alive[(i + k) % n]
                &&& forall|k: int| #![trigger q.replica_broker_ids[k]] 0 <= k < q.replica_broker_ids.len() ==> exists|b: int| 0 <= b < brokers.len()
                    && (#[trigger] brokers[b]).broker_id == q.replica_broker_ids[k] && brokers[b].status == BrokerStatus::Up
            }
        }),
{
    let alive = up_ids(brokers);
    let n = alive.len() as int;
    let p = parts[i];
    let q = rebalanced(parts, alive)[i];
    if p.leader_broker_id != alive[i % n] {
        assert(q.replica_broker_ids[0] == alive[(i + 0) % n]);
        assert forall|k: int| #![trigger q.replica_broker_ids[k]] 0 <= k < q.replica_broker_ids.len() implies exists|b: int| 0 <= b < brokers.len()
            && (#[trigger] brokers[b]).broker_id == q.replica_broker_ids[k] && brokers[b].status == BrokerStatus::Up by {
            let x = alive[(i + k) % n];
            assert(0 <= (i + k) % n < n);
            assert(alive.contains(x));
            lemma_up_ids_are_up(brokers, x);
        }
    }
}

} // verus!
