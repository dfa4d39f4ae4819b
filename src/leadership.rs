//! The leadership state machine: per group, at most one leader, handed over
//! only by a caller that names the incumbent correctly.

use std::collections::HashMap;
use vstd::prelude::*;
use vstd::std_specs::hash::group_hash_axioms;

use crate::types::{LeadershipError, NodeId};

verus! {

broadcast use group_hash_axioms;

/// The abstract state of the leadership table.
pub struct LeadershipView {
    /// The current leader of each group that has one.
    pub leaders: Map<u32, NodeId>,
    /// Whether each group has been claimed; absent means `false`.
    pub claimed: Map<u32, bool>,
}

impl LeadershipView {
    /// The table in which every group is unclaimed.
    pub open spec fn empty() -> LeadershipView {
        LeadershipView { leaders: Map::empty(), claimed: Map::empty() }
    }

    /// The current leader of `group_id`.
    pub open spec fn leader_of(self, group_id: u32) -> Option<NodeId> {
        if self.leaders.contains_key(group_id) {
            Some(self.leaders[group_id])
        } else {
            None
        }
    }

    /// The claimed flag of `group_id`.
    pub open spec fn is_claimed(self, group_id: u32) -> bool {
        self.claimed.contains_key(group_id) && self.claimed[group_id]
    }

    /// The flag and the leader agree: a group is claimed exactly when it has
    /// a leader.
    pub open spec fn wf(self) -> bool {
        forall|g: u32| #[trigger] self.is_claimed(g) <==> self.leaders.contains_key(g)
    }

    /// The table after `caller` took `group_id` over.
    pub open spec fn elect(self, caller: NodeId, group_id: u32) -> LeadershipView {
        LeadershipView {
            leaders: self.leaders.insert(group_id, caller),
            claimed: self.claimed.insert(group_id, true),
        }
    }

    /// The table after the leader of `group_id` stepped down.
    pub open spec fn vacate(self, group_id: u32) -> LeadershipView {
        LeadershipView {
            leaders: self.leaders.remove(group_id),
            claimed: self.claimed.insert(group_id, false),
        }
    }
}

/// The outcome of a claim on a group whose leader is `current`, by `caller`
/// asserting that `asserted_old` is the incumbent.
pub open spec fn claim_outcome(
    current: Option<NodeId>,
    caller: NodeId,
    asserted_old: NodeId,
) -> Result<(), LeadershipError> {
    match current {
        None => Ok(()),
        Some(leader) => if caller == asserted_old {
            Err(LeadershipError::AlreadyLeader)
        } else if asserted_old != leader {
            Err(LeadershipError::StaleLeaderAssertion)
        } else {
            Ok(())
        },
    }
}

/// The outcome of a release of a group whose leader is `current`, by
/// `caller`.
pub open spec fn release_outcome(current: Option<NodeId>, caller: NodeId) -> Result<
    (),
    LeadershipError,
> {
    match current {
        None => Err(LeadershipError::NoLeaderInGroup),
        Some(leader) => if caller != leader {
            Err(LeadershipError::NotCurrentLeader)
        } else {
            Ok(())
        },
    }
}

/// A claim succeeds exactly when the group is unclaimed, or when the caller
/// names the current leader correctly and is not that leader itself.
pub proof fn lemma_claim_compare_and_swap(
    current: Option<NodeId>,
    caller: NodeId,
    asserted_old: NodeId,
)
    ensures
        claim_outcome(current, caller, asserted_old) is Ok <==> (current is None || (current
            == Some(asserted_old) && caller != asserted_old)),
        current is Some && caller == asserted_old ==> claim_outcome(current, caller, asserted_old)
            == Err::<(), LeadershipError>(LeadershipError::AlreadyLeader),
        current is Some && caller != asserted_old && current != Some(asserted_old) ==> claim_outcome(
            current,
            caller,
            asserted_old,
        ) == Err::<(), LeadershipError>(LeadershipError::StaleLeaderAssertion),
{
}

/// In every well-formed table a group has at most one leader, and the
/// claimed flag says whether it has one. Claims and releases keep the table
/// well formed.
pub proof fn lemma_single_leader(v: LeadershipView, g: u32, a: NodeId, b: NodeId, c: NodeId)
    requires
        v.wf(),
    ensures
        v.leader_of(g) == Some(a) && v.leader_of(g) == Some(b) ==> a == b,
        v.is_claimed(g) <==> v.leader_of(g) is Some,
        v.elect(c, g).wf(),
        v.elect(c, g).leader_of(g) == Some(c),
        v.vacate(g).wf(),
        v.vacate(g).leader_of(g) is None,
{
    assert forall|h: u32| #[trigger] v.elect(c, g).is_claimed(h) <==> v.elect(
        c,
        g,
    ).leaders.contains_key(h) by {
        if h != g {
            assert(v.is_claimed(h) <==> v.leaders.contains_key(h));
        }
    }
    assert forall|h: u32| #[trigger] v.vacate(g).is_claimed(h) <==> v.vacate(
        g,
    ).leaders.contains_key(h) by {
        if h != g {
            assert(v.is_claimed(h) <==> v.leaders.contains_key(h));
        }
    }
}

/// The leadership table.
pub struct Leadership {
    leaders: HashMap<u32, NodeId>,
    claimed: HashMap<u32, bool>,
}

impl View for Leadership {
    type V = LeadershipView;

    closed spec fn view(&self) -> LeadershipView {
        LeadershipView { leaders: self.leaders@, claimed: self.claimed@ }
    }
}

impl Leadership {
    /// A table in which every group is unclaimed.
    pub fn new() -> (r: Leadership)
        ensures
            r@ == LeadershipView::empty(),
            r@.wf(),
    {
        let r = Leadership { leaders: HashMap::new(), claimed: HashMap::new() };
        assert(r@ == LeadershipView::empty());
        r
    }

    /// The current leader of `group_id`.
    pub fn leader_of(&self, group_id: u32) -> (r: Option<NodeId>)
        ensures
            r == self@.leader_of(group_id),
    {
        match self.leaders.get(&group_id) {
            Some(n) => Some(*n),
            None => None,
        }
    }

    /// The claimed flag of `group_id`.
    pub fn is_claimed(&self, group_id: u32) -> (r: bool)
        ensures
            r == self@.is_claimed(group_id),
    {
        match self.claimed.get(&group_id) {
            Some(b) => *b,
            None => false,
        }
    }

    /// `caller` claims `group_id`, asserting that `asserted_old` leads it.
    /// On success `caller` leads the group; on failure nothing changes.
    pub fn claim(&mut self, caller: NodeId, asserted_old: NodeId, group_id: u32) -> (r: Result<
        (),
        LeadershipError,
    >)
        requires
            old(self)@.wf(),
        ensures
            r == claim_outcome(old(self)@.leader_of(group_id), caller, asserted_old),
            r is Ok ==> final(self)@ == old(self)@.elect(caller, group_id),
            r is Err ==> final(self)@ == old(self)@,
            final(self)@.wf(),
    {
        if let Some(leader) = self.leaders.get(&group_id) {
            let leader = *leader;
            if caller == asserted_old {
                return Err(LeadershipError::AlreadyLeader);
            }
            if asserted_old != leader {
                return Err(LeadershipError::StaleLeaderAssertion);
            }
        }
        self.leaders.insert(group_id, caller);
        self.claimed.insert(group_id, true);
        proof {
            lemma_single_leader(old(self)@, group_id, caller, caller, caller);
        }
        Ok(())
    }

    /// `caller` steps down as leader of `group_id`. On success the group is
    /// unclaimed; on failure nothing changes.
    pub fn release(&mut self, caller: NodeId, group_id: u32) -> (r: Result<(), LeadershipError>)
        requires
            old(self)@.wf(),
        ensures
            r == release_outcome(old(self)@.leader_of(group_id), caller),
            r is Ok ==> final(self)@ == old(self)@.vacate(group_id),
            r is Err ==> final(self)@ == old(self)@,
            final(self)@.wf(),
    {
        if !self.is_claimed(group_id) {
            return Err(LeadershipError::NoLeaderInGroup);
        }
        let leader = match self.leaders.get(&group_id) {
            Some(n) => *n,
            None => 0,
        };
        if leader != caller {
            return Err(LeadershipError::NotCurrentLeader);
        }
        self.claimed.insert(group_id, false);
        self.leaders.remove(&group_id);
        proof {
            lemma_single_leader(old(self)@, group_id, caller, caller, caller);
        }
        Ok(())
    }
}

} // verus!
