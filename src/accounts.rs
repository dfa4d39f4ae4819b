//! The account registry: a dense, append-only numbering of every node
//! identity the registry has observed.

use std::collections::HashMap;
use vstd::prelude::*;
use vstd::std_specs::hash::group_hash_axioms;

use crate::types::NodeId;

verus! {

broadcast use group_hash_axioms;

/// The abstract state of the account registry.
pub struct AccountsView {
    /// Index to node.
    pub accounts: Map<u32, NodeId>,
    /// Node to index.
    pub index: Map<NodeId, u32>,
    /// How many indices have been handed out (saturating).
    pub count: u32,
}

impl AccountsView {
    /// The registry before any node has been observed.
    pub open spec fn empty() -> AccountsView {
        AccountsView { accounts: Map::empty(), index: Map::empty(), count: 0 }
    }

    /// Whether `n` has an account entry.
    pub open spec fn is_registered(self, n: NodeId) -> bool {
        self.index.contains_key(n)
    }

    /// The index that observing `n` yields: its own if it has one, else the
    /// next free one.
    pub open spec fn index_after(self, n: NodeId) -> u32 {
        if self.is_registered(n) {
            self.index[n]
        } else {
            self.count
        }
    }

    /// The registry after observing `n`: an unseen node gets the next index
    /// and the counter grows by one, saturating at `u32::MAX`.
    pub open spec fn register(self, n: NodeId) -> AccountsView {
        if self.is_registered(n) {
            self
        } else {
            AccountsView {
                accounts: self.accounts.insert(self.count, n),
                index: self.index.insert(n, self.count),
                count: if self.count == u32::MAX {
                    self.count
                } else {
                    (self.count + 1) as u32
                },
            }
        }
    }

    /// The registry after observing each node of `s` in turn.
    pub open spec fn register_all(self, s: Seq<NodeId>) -> AccountsView
        decreases s.len(),
    {
        if s.len() == 0 {
            self
        } else {
            self.register_all(s.drop_last()).register(s.last())
        }
    }

    /// Indices `0..count` are each held by exactly one node, and no other
    /// index is in use.
    pub open spec fn dense(self) -> bool {
        &&& self.index.dom().finite()
        &&& self.index.dom().len() == self.count
        &&& forall|i: u32| #[trigger]
            self.accounts.contains_key(i) <==> i < self.count
        &&& forall|i: u32|
            #![trigger self.accounts[i]]
            i < self.count ==> self.index.contains_key(self.accounts[i])
                && self.index[self.accounts[i]] == i
        &&& forall|n: NodeId|
            #![trigger self.index[n]]
            self.index.contains_key(n) ==> self.index[n] < self.count
                && self.accounts[self.index[n]] == n
    }
}

/// Registering the same node twice yields the same index both times, and
/// the second registration changes nothing, so the counter grows at most
/// once.
pub proof fn lemma_register_idempotent(v: AccountsView, n: NodeId)
    ensures
        v.register(n).index_after(n) == v.index_after(n),
        v.register(n).register(n) == v.register(n),
        v.register(n).count <= v.count + 1,
{
}

/// Observing a node keeps the numbering dense, as long as the counter has
/// room for a new index.
pub proof fn lemma_register_dense(v: AccountsView, n: NodeId)
    requires
        v.dense(),
        v.is_registered(n) || v.count < u32::MAX,
    ensures
        v.register(n).dense(),
        v.register(n).index.dom() == v.index.dom().insert(n),
{
    let w = v.register(n);
    if !v.is_registered(n) {
        assert(w.index.dom() == v.index.dom().insert(n));
        assert forall|i: u32| i < w.count implies w.index.contains_key(w.accounts[i])
            && w.index[w.accounts[i]] == i by {
            if i < v.count {
                assert(v.accounts.contains_key(i));
                let m = v.accounts[i];
                assert(v.index.contains_key(m) && v.index[m] == i);
                assert(m != n);
            }
        }
        assert forall|m: NodeId| w.index.contains_key(m) implies w.index[m] < w.count
            && w.accounts[w.index[m]] == m by {
            if m != n {
                assert(v.index[m] < v.count);
            }
        }
    }
    assert(w.index.dom() =~= v.index.dom().insert(n));
}

/// Once `k` distinct nodes have triggered registration, starting from the
/// empty registry, the counter is `k`, the registered nodes are exactly
/// those `k`, and indices `0..k` are each held by exactly one of them.
pub proof fn lemma_index_density(s: Seq<NodeId>)
    requires
        s.to_set().len() <= u32::MAX,
    ensures
        AccountsView::empty().register_all(s).dense(),
        AccountsView::empty().register_all(s).count == s.to_set().len(),
        AccountsView::empty().register_all(s).index.dom() == s.to_set(),
    decreases s.len(),
{
    let e = AccountsView::empty();
    if s.len() == 0 {
        assert(s.to_set() =~= Set::<NodeId>::empty());
        assert(e.index.dom() =~= Set::<NodeId>::empty());
    } else {
        let p = s.drop_last();
        let n = s.last();
        assert(s == p.push(n));
        assert(s.to_set() =~= p.to_set().insert(n)) by {
            assert forall|x: NodeId| s.to_set().contains(x) implies p.to_set().insert(n).contains(
                x,
            ) by {
                let j = choose|j: int| 0 <= j < s.len() && s[j] == x;
                if j < s.len() - 1 {
                    assert(p[j] == x);
                }
            }
            assert forall|x: NodeId| p.to_set().insert(n).contains(x) implies s.to_set().contains(
                x,
            ) by {
                if x != n {
                    let j = choose|j: int| 0 <= j < p.len() && p[j] == x;
                    assert(s[j] == x);
                } else {
                    assert(s[s.len() - 1] == x);
                }
            }
        }
        vstd::seq_lib::seq_to_set_is_finite(p);
        vstd::set_lib::lemma_len_subset(p.to_set(), s.to_set());
        lemma_index_density(p);
        let v = e.register_all(p);
        if !p.to_set().contains(n) {
            assert(p.to_set().insert(n).len() == p.to_set().len() + 1);
        } else {
            assert(p.to_set().insert(n) =~= p.to_set());
        }
        lemma_register_dense(v, n);
    }
}

/// The account registry.
pub struct AccountRegistry {
    accounts: HashMap<u32, NodeId>,
    count: u32,
    index: HashMap<NodeId, u32>,
}

impl View for AccountRegistry {
    type V = AccountsView;

    closed spec fn view(&self) -> AccountsView {
        AccountsView { accounts: self.accounts@, index: self.index@, count: self.count }
    }
}

impl AccountRegistry {
    /// An empty registry.
    pub fn new() -> (r: AccountRegistry)
        ensures
            r@ == AccountsView::empty(),
    {
        let r = AccountRegistry { accounts: HashMap::new(), count: 0, index: HashMap::new() };
        assert(r@ == AccountsView::empty());
        r
    }

    /// Gives `node` an account entry if it has none, and returns its index.
    pub fn ensure_registered(&mut self, node: NodeId) -> (r: u32)
        ensures
            final(self)@ == old(self)@.register(node),
            r == old(self)@.index_after(node),
    {
        match self.index.get(&node) {
            Some(i) => *i,
            None => {
                let n = self.count;
                let next = n.saturating_add(1);
                self.accounts.insert(n, node);
                self.count = next;
                self.index.insert(node, n);
                n
            },
        }
    }

    /// How many indices have been handed out.
    pub fn count(&self) -> (r: u32)
        ensures
            r == self@.count,
    {
        self.count
    }

    /// The index of `node`, or 0 if it has none.
    pub fn index_of(&self, node: NodeId) -> (r: u32)
        ensures
            r == (if self@.is_registered(node) { self@.index[node] } else { 0 }),
    {
        match self.index.get(&node) {
            Some(i) => *i,
            None => 0,
        }
    }

    /// The node holding index `i`, or 0 if none does.
    pub fn account_at(&self, i: u32) -> (r: NodeId)
        ensures
            r == (if self@.accounts.contains_key(i) { self@.accounts[i] } else { 0 }),
    {
        match self.accounts.get(&i) {
            Some(n) => *n,
            None => 0,
        }
    }
}

} // verus!
