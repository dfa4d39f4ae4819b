//! The liveness tracker: the latest heartbeat of every node.

use std::collections::HashMap;
use vstd::prelude::*;
use vstd::std_specs::hash::group_hash_axioms;

use crate::types::{BlockNumber, HeartbeatRecord, NodeId};

verus! {

broadcast use group_hash_axioms;

/// The heartbeat table after `node` reports `group_id` and `status` at
/// `clock`: the node's record is overwritten whatever it held before.
pub open spec fn beat(
    records: Map<NodeId, HeartbeatRecord>,
    node: NodeId,
    group_id: u32,
    status: u32,
    clock: BlockNumber,
) -> Map<NodeId, HeartbeatRecord> {
    records.insert(node, HeartbeatRecord { group_id, status, last_seen: clock })
}

/// Of two heartbeats from the same node, the second one alone is kept: the
/// result is as if the first had never been recorded.
pub proof fn lemma_heartbeat_overwrite(
    records: Map<NodeId, HeartbeatRecord>,
    node: NodeId,
    g1: u32,
    s1: u32,
    c1: BlockNumber,
    g2: u32,
    s2: u32,
    c2: BlockNumber,
)
    ensures
        beat(beat(records, node, g1, s1, c1), node, g2, s2, c2) == beat(
            records,
            node,
            g2,
            s2,
            c2,
        ),
        beat(beat(records, node, g1, s1, c1), node, g2, s2, c2)[node] == (HeartbeatRecord {
            group_id: g2,
            status: s2,
            last_seen: c2,
        }),
{
    assert(beat(beat(records, node, g1, s1, c1), node, g2, s2, c2) =~= beat(
        records,
        node,
        g2,
        s2,
        c2,
    ));
}

/// The liveness tracker.
pub struct LivenessTracker {
    records: HashMap<NodeId, HeartbeatRecord>,
}

impl View for LivenessTracker {
    type V = Map<NodeId, HeartbeatRecord>;

    closed spec fn view(&self) -> Map<NodeId, HeartbeatRecord> {
        self.records@
    }
}

impl LivenessTracker {
    /// A tracker that has seen no heartbeat.
    pub fn new() -> (r: LivenessTracker)
        ensures
            r@ == Map::<NodeId, HeartbeatRecord>::empty(),
    {
        LivenessTracker { records: HashMap::new() }
    }

    /// Overwrites the record of `node`.
    pub fn record_heartbeat(
        &mut self,
        node: NodeId,
        group_id: u32,
        status: u32,
        clock: BlockNumber,
    )
        ensures
            final(self)@ == beat(old(self)@, node, group_id, status, clock),
    {
        self.records.insert(node, HeartbeatRecord { group_id, status, last_seen: clock });
    }

    /// The record of `node`, if it has sent a heartbeat.
    pub fn record_of(&self, node: NodeId) -> (r: Option<HeartbeatRecord>)
        ensures
            r == (if self@.contains_key(node) {
                Some(self@[node])
            } else {
                None
            }),
    {
        match self.records.get(&node) {
            Some(rec) => Some(*rec),
            None => None,
        }
    }
}

} // verus!
