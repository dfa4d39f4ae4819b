//! The registry service: one object that owns the account registry, the
//! liveness tracker and the leadership table, applies each request
//! atomically, and appends a notification for every completed transition.

use vstd::prelude::*;

use crate::accounts::{AccountRegistry, AccountsView};
use crate::leadership::{claim_outcome, release_outcome, Leadership, LeadershipView};
use crate::liveness::{beat, LivenessTracker};
use crate::types::{BlockNumber, Event, HeartbeatRecord, LeadershipError, NodeId};

verus! {

/// The abstract state of the whole registry.
pub struct PalletView {
    pub accounts: AccountsView,
    pub heartbeats: Map<NodeId, HeartbeatRecord>,
    pub leadership: LeadershipView,
    /// Every notification emitted so far, oldest first.
    pub events: Seq<Event>,
}

impl PalletView {
    /// The registry before any request.
    pub open spec fn initial() -> PalletView {
        PalletView {
            accounts: AccountsView::empty(),
            heartbeats: Map::empty(),
            leadership: LeadershipView::empty(),
            events: Seq::empty(),
        }
    }

    /// The leadership table is well formed.
    pub open spec fn wf(self) -> bool {
        self.leadership.wf()
    }

    /// The registry after a heartbeat of `caller` at `now`.
    pub open spec fn after_heartbeat(
        self,
        caller: NodeId,
        group_id: u32,
        status: u32,
        now: BlockNumber,
    ) -> PalletView {
        PalletView {
            accounts: self.accounts.register(caller),
            heartbeats: beat(self.heartbeats, caller, group_id, status, now),
            leadership: self.leadership,
            events: self.events.push(Event::NewHeartbeat(caller, group_id, status, now)),
        }
    }

    /// The registry after `caller` became the leader of `group_id`.
    pub open spec fn after_claim(self, caller: NodeId, group_id: u32) -> PalletView {
        PalletView {
            leadership: self.leadership.elect(caller, group_id),
            events: self.events.push(Event::NewLeader(caller, group_id)),
            ..self
        }
    }

    /// The registry after `caller` released the leadership of `group_id`.
    pub open spec fn after_release(self, caller: NodeId, group_id: u32) -> PalletView {
        PalletView {
            leadership: self.leadership.vacate(group_id),
            events: self.events.push(Event::GiveUpLeader(caller, group_id)),
            ..self
        }
    }
}

/// The registry service.
pub struct Pallet {
    accounts: AccountRegistry,
    liveness: LivenessTracker,
    leadership: Leadership,
    events: Vec<Event>,
}

impl View for Pallet {
    type V = PalletView;

    closed spec fn view(&self) -> PalletView {
        PalletView {
            accounts: self.accounts@,
            heartbeats: self.liveness@,
            leadership: self.leadership@,
            events: self.events@,
        }
    }
}

impl Pallet {
    /// A registry in which no node is known and every group is unclaimed.
    pub fn new() -> (r: Pallet)
        ensures
            r@ == PalletView::initial(),
            r@.wf(),
    {
        let r = Pallet {
            accounts: AccountRegistry::new(),
            liveness: LivenessTracker::new(),
            leadership: Leadership::new(),
            events: Vec::new(),
        };
        assert(r@.events == Seq::<Event>::empty());
        r
    }

    /// Gives `account` an account entry if it has none, and returns its
    /// index.
    pub fn add_account(&mut self, account: NodeId) -> (r: u32)
        requires
            old(self)@.wf(),
        ensures
            r == old(self)@.accounts.index_after(account),
            final(self)@ == (PalletView { accounts: old(self)@.accounts.register(account), ..old(self)@ }),
            final(self)@.wf(),
    {
        self.accounts.ensure_registered(account)
    }

    /// `caller` claims the leadership of `group_id`, asserting that
    /// `old_leader` holds it now. An unclaimed group is taken whatever
    /// `old_leader` says; a claimed one only if `old_leader` is its leader and
    /// not the caller itself. On failure nothing changes.
    pub fn set_leader(&mut self, caller: NodeId, old_leader: NodeId, group_id: u32) -> (r: Result<
        (),
        LeadershipError,
    >)
        requires
            old(self)@.wf(),
        ensures
            r == claim_outcome(old(self)@.leadership.leader_of(group_id), caller, old_leader),
            r is Ok ==> final(self)@ == old(self)@.after_claim(caller, group_id),
            r is Err ==> final(self)@ == old(self)@,
            final(self)@.wf(),
    {
        let r = self.leadership.claim(caller, old_leader, group_id);
        if r.is_ok() {
            self.events.push(Event::NewLeader(caller, group_id));
        }
        r
    }

    /// `caller` steps down as the leader of `group_id`. It fails when the
    /// group has no leader or another node leads it; on failure nothing
    /// changes.
    pub fn give_up_leadership(&mut self, caller: NodeId, group_id: u32) -> (r: Result<
        (),
        LeadershipError,
    >)
        requires
            old(self)@.wf(),
        ensures
            r == release_outcome(old(self)@.leadership.leader_of(group_id), caller),
            r is Ok ==> final(self)@ == old(self)@.after_release(caller, group_id),
            r is Err ==> final(self)@ == old(self)@,
            final(self)@.wf(),
    {
        let r = self.leadership.release(caller, group_id);
        if r.is_ok() {
            self.events.push(Event::GiveUpLeader(caller, group_id));
        }
        r
    }

    /// Records a heartbeat of `caller` at logical time `now`: registers the
    /// caller if it is new and overwrites its group, status and last-seen
    /// time, whatever they were.
    pub fn add_heartbeat(&mut self, caller: NodeId, group_id: u32, node_status: u32, now: BlockNumber)
        requires
            old(self)@.wf(),
        ensures
            final(self)@ == old(self)@.after_heartbeat(caller, group_id, node_status, now),
            final(self)@.wf(),
    {
        self.accounts.ensure_registered(caller);
        self.liveness.record_heartbeat(caller, group_id, node_status, now);
        self.events.push(Event::NewHeartbeat(caller, group_id, node_status, now));
    }

    /// The current leader of `group_id`, if it has one.
    pub fn leader_of(&self, group_id: u32) -> (r: Option<NodeId>)
        ensures
            r == self@.leadership.leader_of(group_id),
    {
        self.leadership.leader_of(group_id)
    }

    /// The current leader of `group_id`, or 0 if it has none.
    pub fn get_leader(&self, group_id: u32) -> (r: NodeId)
        ensures
            r == (match self@.leadership.leader_of(group_id) {
                Some(n) => n,
                None => 0,
            }),
    {
        match self.leadership.leader_of(group_id) {
            Some(n) => n,
            None => 0,
        }
    }

    /// Whether `group_id` is claimed.
    pub fn get_leaded_group(&self, group_id: u32) -> (r: bool)
        ensures
            r == self@.leadership.is_claimed(group_id),
    {
        self.leadership.is_claimed(group_id)
    }

    /// The logical time of the last heartbeat of `node`, or 0.
    pub fn get_heartbeat(&self, node: NodeId) -> (r: BlockNumber)
        ensures
            r == (if self@.heartbeats.contains_key(node) {
                self@.heartbeats[node].last_seen
            } else {
                0
            }),
    {
        match self.liveness.record_of(node) {
            Some(rec) => rec.last_seen,
            None => 0,
        }
    }

    /// The last reported status of `node`, or 0.
    pub fn get_node_status(&self, node: NodeId) -> (r: u32)
        ensures
            r == (if self@.heartbeats.contains_key(node) {
                self@.heartbeats[node].status
            } else {
                0
            }),
    {
        match self.liveness.record_of(node) {
            Some(rec) => rec.status,
            None => 0,
        }
    }

    /// The last reported group of `node`, or 0.
    pub fn get_group(&self, node: NodeId) -> (r: u32)
        ensures
            r == (if self@.heartbeats.contains_key(node) {
                self@.heartbeats[node].group_id
            } else {
                0
            }),
    {
        match self.liveness.record_of(node) {
            Some(rec) => rec.group_id,
            None => 0,
        }
    }

    /// How many nodes have an account entry (saturating at `u32::MAX`).
    pub fn get_accounts_count(&self) -> (r: u32)
        ensures
            r == self@.accounts.count,
    {
        self.accounts.count()
    }

    /// The index of `node`, or 0 if it has none.
    pub fn get_accounts_index(&self, node: NodeId) -> (r: u32)
        ensures
            r == (if self@.accounts.is_registered(node) {
                self@.accounts.index[node]
            } else {
                0
            }),
    {
        self.accounts.index_of(node)
    }

    /// The node holding index `index`, or 0 if none does.
    pub fn get_account(&self, index: u32) -> (r: NodeId)
        ensures
            r == (if self@.accounts.accounts.contains_key(index) {
                self@.accounts.accounts[index]
            } else {
                0
            }),
    {
        self.accounts.account_at(index)
    }

    /// Every notification emitted so far, oldest first.
    pub fn events(&self) -> (r: &Vec<Event>)
        ensures
            r@ == self@.events,
    {
        &self.events
    }
}

} // verus!
