//! Identifiers, records, notifications and errors shared by the registry.

use vstd::prelude::*;

verus! {

/// An authenticated participant identity, opaque to the registry.
pub type NodeId = u64;

/// A value of the externally supplied logical clock (a block height).
pub type BlockNumber = u64;

/// Why a leadership transition was refused.
#[derive(Clone, Copy, Debug, PartialEq, Eq, Structural)]
pub enum LeadershipError {
    /// The caller named itself as the incumbent it wants to replace.
    AlreadyLeader,
    /// The caller's view of the incumbent is out of date.
    StaleLeaderAssertion,
    /// A release was attempted on a group that has no leader.
    NoLeaderInGroup,
    /// A release was attempted by a node that does not lead the group.
    NotCurrentLeader,
}

impl LeadershipError {
    /// The human-readable reason for the refusal.
    pub fn message(&self) -> (r: &'static str)
        ensures
            r@ == self.message_spec()@,
    {
        match self {
            LeadershipError::AlreadyLeader => "You are already leader.",
            LeadershipError::StaleLeaderAssertion => "Incorrect old leader report.",
            LeadershipError::NoLeaderInGroup => "No Leader in this group.",
            LeadershipError::NotCurrentLeader => "You are not the current leader.",
        }
    }

    /// The reason `message` returns.
    pub open spec fn message_spec(&self) -> &'static str {
        match self {
            LeadershipError::AlreadyLeader => "You are already leader.",
            LeadershipError::StaleLeaderAssertion => "Incorrect old leader report.",
            LeadershipError::NoLeaderInGroup => "No Leader in this group.",
            LeadershipError::NotCurrentLeader => "You are not the current leader.",
        }
    }
}

/// The latest heartbeat of one node.
#[derive(Clone, Copy, Debug, PartialEq, Eq, Structural)]
pub struct HeartbeatRecord {
    pub group_id: u32,
    pub status: u32,
    pub last_seen: BlockNumber,
}

/// A notification of a completed state transition.
#[derive(Clone, Copy, Debug, PartialEq, Eq, Structural)]
pub enum Event {
    /// A heartbeat was recorded: node, group, status, logical clock.
    NewHeartbeat(NodeId, u32, u32, BlockNumber),
    /// A node became the leader of a group: node, group.
    NewLeader(NodeId, u32),
    /// A node released the leadership of a group: node, group.
    GiveUpLeader(NodeId, u32),
}

} // verus!
