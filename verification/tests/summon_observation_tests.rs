use playable_bosses::boss_summon::{RosterSnapshot, SummonControlState, SummonEntryLifecyclePhase, SummonEntrySnapshot};
use playable_bosses::summon_observation::{
    cancel_for_entry, candidate_signature, fighter_entry_slot_signature, lifecycle_signature,
    match_audit_signature, new_roster_candidates, observe_native, read_parented_summon_entry, retirement_state,
    roster_delta_kind, roster_snapshot, summon_cleanup_state, summon_result_eligibility,
    MatchAuditLatch, MatchAuditRead, NativeSummonView, RosterEntryRead, SummonEntryRead,
    SummonObjectRead, SummonObservation,
};

fn read(object_id: u32) -> RosterEntryRead {
    RosterEntryRead {
        object_id,
        kind: 0x12,
        team: 1,
        team_owner_id: 2,
        operation_cpu: true,
        fighter_category: 0,
        summon_boss_id: 0,
        fighter_num: 1,
        slot_signature: 0,
    }
}

#[test]
fn the_roster_keeps_each_slot_and_its_signature() {
    let mut slots = [None; 8];
    slots[1] = Some(read(0x41));
    slots[4] = Some(read(0x44));
    let roster = roster_snapshot(2, &slots);
    assert_eq!(roster.total, 2);
    assert_eq!(roster.active_count, 2);
    assert_eq!(roster.active_object_ids, [0, 0x41, 0, 0, 0x44, 0, 0, 0]);
    assert_eq!(roster.active_kinds[1], 0x12);
    assert!(roster.active_operation_cpu[4]);
    let mut expected = 2u64;
    for entry in [1usize, 4] {
        let r = slots[entry].unwrap();
        expected ^= (entry as u64).rotate_left(3)
            ^ (r.object_id as u64).rotate_left(11)
            ^ r.kind.rotate_left(19)
            ^ r.team.rotate_left(27)
            ^ r.team_owner_id.rotate_left(33)
            ^ ((r.operation_cpu as u64) << 37)
            ^ r.fighter_category.rotate_left(41)
            ^ r.summon_boss_id.rotate_left(53)
            ^ r.fighter_num.rotate_left(7)
            ^ r.slot_signature.rotate_left(47);
    }
    assert_eq!(roster.signature, expected);
}

#[test]
fn slot_signatures_fold_both_selectors() {
    let ids = [(5u64, 6u64), (7, 8)];
    let mut expected = 2u64;
    for (slot, (a, b)) in ids.iter().enumerate() {
        expected ^= a.wrapping_add(slot as u64).rotate_left(11);
        expected ^= b.wrapping_add(slot as u64).rotate_left(29);
    }
    assert_eq!(fighter_entry_slot_signature(2, &ids), expected);
    assert_eq!(fighter_entry_slot_signature(0, &[]), 0);
}

#[test]
fn the_child_is_the_first_summon_entry_of_its_parent() {
    let other = SummonEntryRead {
        fighter_category: 5,
        summon_boss_id: 0x99,
        object_id: 0x4000,
        fighter_num: 1,
        operation_cpu: false,
        stock: 1,
        object: None,
    };
    let child = SummonEntryRead {
        fighter_category: 5,
        summon_boss_id: 0x1000,
        object_id: 0x4001,
        fighter_num: 1,
        operation_cpu: true,
        stock: 2,
        object: Some(SummonObjectRead { kind: 7, status: 3, team: 1, sub_fighter: true }),
    };
    let mut entries = [None; 8];
    entries[2] = Some(other);
    entries[5] = Some(child);
    let found = read_parented_summon_entry(&entries, 0x1000);
    assert!(found.found);
    assert_eq!(found.entry, 5);
    assert!(found.active);
    assert_eq!(found.fighter_kind, 7);
    assert_eq!(found.sub_fighter_flag, 1);
    assert_eq!(found.stock, 2);
    assert!(!read_parented_summon_entry(&entries, 0x2000).found);
    assert!(!read_parented_summon_entry(&entries, 0).found);
    let inactive = read_parented_summon_entry(&entries, 0x99);
    assert!(!inactive.active);
    assert_eq!(inactive.sub_fighter_flag, -1);
    assert_eq!(inactive.fighter_kind, -1);
}

#[test]
fn roster_deltas_are_new_or_replaced() {
    assert_eq!(roster_delta_kind(0, 0x40), Some("new"));
    assert_eq!(roster_delta_kind(0x41, 0x40), Some("replaced"));
    assert_eq!(roster_delta_kind(0x40, 0x40), None);
    assert_eq!(roster_delta_kind(0x40, 0), None);
}

fn view(active: bool, status: i32, roster: RosterSnapshot) -> NativeSummonView {
    NativeSummonView {
        boss_id: 0x1000,
        active,
        status,
        motion: 1,
        fighter_total: roster.total,
        roster,
        summon_status: 10,
        wait_status: 20,
    }
}

#[test]
fn a_summon_request_is_observed_until_it_ends() {
    let mut obs = SummonObservation::empty();
    let baseline = RosterSnapshot::empty();
    assert!(obs.request_native(0x1000, 10, 5, 1, baseline, "status"));
    assert!(!obs.request_native(0x1000, 10, 5, 1, baseline, "status"));
    assert_eq!(obs.control_state, SummonControlState::SummonRequested);

    let mut current = baseline;
    current.total = 1;
    current.active_count = 1;
    current.active_object_ids[3] = 0x4003;
    let logs = observe_native(&mut obs, &view(true, 10, current));
    assert_eq!(logs.phase, 1);
    assert!(logs.work_snapshot && logs.state_line && logs.control_line);
    assert!(logs.roster_delta && logs.new_roster_candidates);
    assert_eq!(logs.candidate.entry, 3);
    assert_eq!(obs.control_state, SummonControlState::NativeStatusActive);
    assert!(obs.request_pending);

    let again = observe_native(&mut obs, &view(true, 10, current));
    assert!(!again.state_line);
    assert!(!again.new_roster_candidates);

    let waiting = observe_native(&mut obs, &view(true, 20, current));
    assert_eq!(waiting.phase, 2);
    let ended = observe_native(&mut obs, &view(true, 30, current));
    assert_eq!(ended.phase, 3);
    assert!(ended.lifetime_line);
    assert!(!obs.request_pending);
    assert_eq!(obs.control_state, SummonControlState::NativeEnded);

    let idle = observe_native(&mut obs, &view(true, 30, current));
    assert_eq!(idle.phase, 0);
    assert_eq!(obs.last_phase, 3);

    assert!(cancel_for_entry(&mut obs));
    assert!(!cancel_for_entry(&mut obs));
    assert_eq!(obs.control_state, SummonControlState::CancelledByResult);
    let mut fresh = SummonObservation::empty();
    assert!(!cancel_for_entry(&mut fresh));
    assert_eq!(fresh.control_state, SummonControlState::Inactive);
}

#[test]
fn ledger_and_audit_texts() {
    assert_eq!(retirement_state(SummonEntryLifecyclePhase::Retiring), "native_parent_teardown_pending");
    assert_eq!(retirement_state(SummonEntryLifecyclePhase::Active), "native_child_associated");
    assert_eq!(summon_result_eligibility(true, 0), "category5_child_public_result_api_unavailable");
    assert_eq!(summon_result_eligibility(false, 0), "none_observed");
    assert_eq!(summon_result_eligibility(false, 3), "unresolved_public_api");
    assert_eq!(summon_cleanup_state("battle"), "native_owner_active");
    assert_eq!(summon_cleanup_state("scene_exit"), "observation_only");
}

#[test]
fn signatures_follow_their_fields() {
    let snapshot = SummonEntrySnapshot::empty();
    let a = lifecycle_signature(SummonEntryLifecyclePhase::Uninitialized, &snapshot, false);
    let b = lifecycle_signature(SummonEntryLifecyclePhase::Uninitialized, &snapshot, true);
    assert_eq!(a ^ b, 1u64 << 61);
    let expected = (b'u' as u64)
        ^ (usize::MAX as u64).rotate_left(17)
        ^ (u32::MAX as u64).rotate_left(31)
        ^ (u32::MAX as u64).rotate_left(37)
        ^ (0xffu64).rotate_left(7);
    assert_eq!(a, expected);

    let candidate = playable_bosses::boss_summon::SummonCandidate::empty();
    let c = candidate_signature(&candidate);
    assert_eq!(c, (usize::MAX as u64).rotate_left(3));

    let audit = MatchAuditRead {
        entry: 1,
        current_fighter_id: 0,
        fighter_num: 0,
        host_status: 0,
        stock_count: 0,
        dead_count: 0,
        boss_dead: true,
        exists_public: false,
        ready_go: false,
        result_mode: false,
        boss_active: false,
        hidden_host_item_active: false,
        boss_id: 0,
        hidden_host_item_id: 0,
    };
    assert_eq!(
        match_audit_signature(&audit, &candidate),
        (1u64).rotate_left(3) ^ (1u64 << 35) ^ c.rotate_left(53)
    );
}

#[test]
fn audit_lines_are_written_on_change() {
    let mut latch = MatchAuditLatch::new();
    assert!(latch.record_dead(3, false));
    assert!(!latch.record_dead(3, false));
    assert!(latch.record_dead(3, true));
    assert!(latch.record_signature(3, 9));
    assert!(!latch.record_signature(3, 9));
    assert!(latch.record_signature(4, 9));
}

#[test]
fn new_roster_candidates_are_the_changed_slots() {
    let mut baseline = RosterSnapshot::empty();
    baseline.active_object_ids[1] = 0x11;
    baseline.active_object_ids[2] = 0x22;
    let mut current = baseline;
    current.active_object_ids[2] = 0x23;
    current.active_object_ids[5] = 0x55;
    current.active_object_ids[1] = 0;
    assert_eq!(new_roster_candidates(&baseline, &current), vec![(2, false), (5, true)]);
    assert!(new_roster_candidates(&baseline, &baseline).is_empty());
}
