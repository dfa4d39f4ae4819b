use archipel::{AccountRegistry, Event, LeadershipError, LivenessTracker, Pallet};

#[test]
fn one_leader_per_group_through_a_call_sequence() {
    let mut p = Pallet::new();
    assert_eq!(p.set_leader(1, 0, 7), Ok(()));
    assert_eq!(p.set_leader(2, 0, 7), Err(LeadershipError::StaleLeaderAssertion));
    assert_eq!(p.leader_of(7), Some(1));
    assert_eq!(p.set_leader(2, 1, 7), Ok(()));
    assert_eq!(p.leader_of(7), Some(2));
    assert!(p.get_leaded_group(7));
    assert_eq!(p.set_leader(3, 0, 8), Ok(()));
    assert_eq!(p.leader_of(8), Some(3));
    assert_eq!(p.leader_of(7), Some(2));
    assert_eq!(p.give_up_leadership(2, 7), Ok(()));
    assert_eq!(p.leader_of(7), None);
    assert!(!p.get_leaded_group(7));
    assert_eq!(p.get_leader(7), 0);
    assert_eq!(p.leader_of(8), Some(3));
}

#[test]
fn claim_compare_and_swap_outcomes() {
    let mut p = Pallet::new();
    // unclaimed: any asserted incumbent is accepted, the caller's own id too
    assert_eq!(p.set_leader(5, 5, 1), Ok(()));
    assert_eq!(p.leader_of(1), Some(5));
    // caller names itself
    assert_eq!(p.set_leader(6, 6, 1), Err(LeadershipError::AlreadyLeader));
    // stale assertion
    assert_eq!(p.set_leader(6, 4, 1), Err(LeadershipError::StaleLeaderAssertion));
    // the incumbent naming itself
    assert_eq!(p.set_leader(5, 5, 1), Err(LeadershipError::AlreadyLeader));
    // the incumbent naming another
    assert_eq!(p.set_leader(5, 6, 1), Err(LeadershipError::StaleLeaderAssertion));
    assert_eq!(p.leader_of(1), Some(5));
    // correct assertion by another node
    assert_eq!(p.set_leader(6, 5, 1), Ok(()));
    assert_eq!(p.leader_of(1), Some(6));
}

#[test]
fn claim_after_release_needs_no_assertion() {
    let mut p = Pallet::new();
    assert_eq!(p.set_leader(10, 0, 1), Ok(()));
    assert_eq!(p.give_up_leadership(10, 1), Ok(()));
    assert_eq!(p.set_leader(30, 99, 1), Ok(()));
    assert_eq!(p.leader_of(1), Some(30));
}

#[test]
fn registration_is_idempotent() {
    let mut p = Pallet::new();
    let first = p.add_account(77);
    let second = p.add_account(77);
    assert_eq!(first, 0);
    assert_eq!(second, 0);
    assert_eq!(p.get_accounts_count(), 1);
}

#[test]
fn indices_are_dense() {
    let mut r = AccountRegistry::new();
    let nodes: [u64; 6] = [40, 10, 40, 30, 10, 20];
    let mut seen = Vec::new();
    for n in nodes.iter() {
        let i = r.ensure_registered(*n);
        if !seen.contains(n) {
            assert_eq!(i as usize, seen.len());
            seen.push(*n);
        }
    }
    assert_eq!(r.count(), 4);
    for (i, n) in seen.iter().enumerate() {
        assert_eq!(r.account_at(i as u32), *n);
        assert_eq!(r.index_of(*n), i as u32);
    }
    assert_eq!(r.account_at(4), 0);
    assert_eq!(r.index_of(99), 0);
}

#[test]
fn second_heartbeat_replaces_the_first() {
    let mut p = Pallet::new();
    p.add_heartbeat(10, 1, 2, 42);
    p.add_heartbeat(10, 3, 4, 50);
    assert_eq!(p.get_group(10), 3);
    assert_eq!(p.get_node_status(10), 4);
    assert_eq!(p.get_heartbeat(10), 50);
}

#[test]
fn older_heartbeat_still_overwrites() {
    // No ordering check on the clock: a late heartbeat with a smaller clock wins.
    let mut t = LivenessTracker::new();
    t.record_heartbeat(10, 1, 2, 50);
    t.record_heartbeat(10, 1, 2, 42);
    assert_eq!(t.record_of(10).map(|r| r.last_seen), Some(42));
    assert_eq!(t.record_of(11), None);
}

#[test]
fn end_to_end_scenarios() {
    let mut p = Pallet::new();
    assert_eq!(p.set_leader(10, 0, 1), Ok(()));
    assert_eq!(p.leader_of(1), Some(10));
    assert_eq!(p.set_leader(10, 0, 1), Err(LeadershipError::StaleLeaderAssertion));
    assert_eq!(p.set_leader(20, 10, 1), Ok(()));
    assert_eq!(p.leader_of(1), Some(20));
    p.add_heartbeat(10, 1, 2, 42);
    assert_eq!(p.get_group(10), 1);
    assert_eq!(p.get_node_status(10), 2);
    assert_eq!(p.get_heartbeat(10), 42);
    assert_eq!(p.get_accounts_count(), 1);
    assert_eq!(p.give_up_leadership(20, 1), Ok(()));
    assert_eq!(p.leader_of(1), None);
    assert_eq!(p.give_up_leadership(20, 1), Err(LeadershipError::NoLeaderInGroup));
    assert_eq!(p.give_up_leadership(99, 2), Err(LeadershipError::NoLeaderInGroup));
}

#[test]
fn leadership_does_not_register_nodes() {
    let mut p = Pallet::new();
    assert_eq!(p.set_leader(10, 0, 1), Ok(()));
    assert_eq!(p.get_accounts_count(), 0);
}

#[test]
fn unknown_keys_read_as_zero() {
    let p = Pallet::new();
    assert_eq!(p.get_heartbeat(5), 0);
    assert_eq!(p.get_group(5), 0);
    assert_eq!(p.get_node_status(5), 0);
    assert_eq!(p.get_accounts_index(5), 0);
    assert_eq!(p.get_account(0), 0);
    assert_eq!(p.get_accounts_count(), 0);
    assert_eq!(p.get_leader(3), 0);
    assert_eq!(p.leader_of(3), None);
    assert!(!p.get_leaded_group(3));
    assert!(p.events().is_empty());
}

#[test]
fn notifications_follow_successful_calls_in_order() {
    let mut p = Pallet::new();
    assert_eq!(p.set_leader(10, 0, 1), Ok(()));
    assert!(p.set_leader(10, 10, 1).is_err());
    p.add_heartbeat(10, 1, 2, 42);
    assert!(p.give_up_leadership(20, 1).is_err());
    assert_eq!(p.give_up_leadership(10, 1), Ok(()));
    assert_eq!(
        p.events().clone(),
        vec![
            Event::NewLeader(10, 1),
            Event::NewHeartbeat(10, 1, 2, 42),
            Event::GiveUpLeader(10, 1),
        ]
    );
}

#[test]
fn extreme_identifiers_and_groups() {
    let mut p = Pallet::new();
    assert_eq!(p.set_leader(u64::MAX, 0, u32::MAX), Ok(()));
    assert_eq!(p.leader_of(u32::MAX), Some(u64::MAX));
    p.add_heartbeat(0, u32::MAX, u32::MAX, u64::MAX);
    assert_eq!(p.get_group(0), u32::MAX);
    assert_eq!(p.get_node_status(0), u32::MAX);
    assert_eq!(p.get_heartbeat(0), u64::MAX);
    assert_eq!(p.get_accounts_index(0), 0);
    assert_eq!(p.get_account(0), 0);
}
