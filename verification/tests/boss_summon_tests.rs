use playable_bosses::boss_summon::{
    candidate_source_name, control_state_name, is_result_transition_phase, kind_offset,
    native_summon_candidate, next_control_state, observation_index, observe_phase,
    parent_death_cleanup_step, phase_name, result_roster_phase_index, result_roster_text_token,
    summon_entry_lifecycle_changed, summon_entry_lifecycle_phase, ParentDeathCleanup,
    ParentDeathCleanupAction, ParentDeathCleanupPhase, RosterSnapshot, SummonControlState,
    SummonEntryLifecycle, SummonEntryLifecyclePhase, SummonEntrySnapshot,
};
use playable_bosses::boss_helpers::{ITEM_STATUS_KIND_DEAD, ITEM_STATUS_KIND_WAIT};

#[test]
fn uninitialized_child_is_not_reported_as_retired() {
    let lifecycle = SummonEntryLifecycle::empty();
    assert!(!lifecycle.initialized);
    assert!(matches!(
        lifecycle.phase,
        SummonEntryLifecyclePhase::Uninitialized
    ));
    assert_eq!(lifecycle.phase.name(), "uninitialized");
    assert_ne!(lifecycle.phase.name(), "retired");
}

#[test]
fn roster_shape_ignores_nonstructural_diagnostics() {
    let mut baseline = RosterSnapshot::empty();
    baseline.total = 2;
    baseline.active_count = 1;
    baseline.active_object_ids[0] = 0x40;
    baseline.active_kinds[0] = 1;
    baseline.active_teams[0] = 3;

    let mut current = baseline;
    current.signature = 0xdead_beef;
    current.active_operation_cpu[0] = true;
    current.active_summon_boss_ids[0] = 0x5000_0000;

    assert!(baseline.shape_matches(&current));
}

#[test]
fn roster_shape_detects_new_object() {
    let baseline = RosterSnapshot::empty();
    let mut current = baseline;
    current.total = 1;
    current.active_count = 1;
    current.active_object_ids[2] = 0x4002;
    current.active_kinds[2] = 0x123;
    current.active_teams[2] = 1;

    assert!(!baseline.shape_matches(&current));
}

#[test]
fn candidate_detects_changed_roster_slot() {
    let mut baseline = RosterSnapshot::empty();
    baseline.total = 1;
    baseline.active_count = 1;
    baseline.active_object_ids[0] = 0x40;

    let mut current = baseline;
    current.active_object_ids[1] = 0x4001;
    current.active_kinds[1] = 0x123;
    current.active_teams[1] = 2;
    current.active_team_owner_ids[1] = 7;

    let candidate = native_summon_candidate(&baseline, &current);
    assert_eq!(candidate.entry, 1);
    assert_eq!(candidate.object_id, 0x4001);
    assert_eq!(candidate.source, 1);
}

#[test]
fn candidate_prefers_a_changed_native_summon_marker() {
    let mut baseline = RosterSnapshot::empty();
    baseline.active_object_ids[0] = 0x40;
    baseline.active_object_ids[1] = 0x41;

    let mut current = baseline;
    current.active_object_ids[0] = 0x4000;
    current.active_object_ids[1] = 0x4001;
    current.active_summon_boss_ids[1] = 0x1234;

    let candidate = native_summon_candidate(&baseline, &current);
    assert_eq!(candidate.entry, 1);
    assert_eq!(candidate.object_id, 0x4001);
    assert_eq!(candidate.summon_boss_id, 0x1234);
    assert_eq!(candidate.source, 3);
}

#[test]
fn candidate_does_not_treat_an_unchanged_roster_as_a_summon() {
    let mut baseline = RosterSnapshot::empty();
    baseline.active_object_ids[0] = 0x40;
    baseline.active_summon_boss_ids[0] = 0x1234;

    let candidate = native_summon_candidate(&baseline, &baseline);
    assert_eq!(candidate.object_id, 0);
    assert_eq!(candidate.source, 0);
}

#[test]
fn a_marker_without_a_new_object_is_a_marker_candidate() {
    let mut baseline = RosterSnapshot::empty();
    baseline.active_object_ids[4] = 0x44;
    let mut current = baseline;
    current.active_summon_boss_ids[4] = 0x77;
    let candidate = native_summon_candidate(&baseline, &current);
    assert_eq!(candidate.entry, 4);
    assert_eq!(candidate.source, 2);
    assert_eq!(candidate_source_name(candidate.source), "summon_marker");
    assert_eq!(candidate_source_name(1), "roster_delta");
    assert_eq!(candidate_source_name(3), "roster_delta_and_summon_marker");
    assert_eq!(candidate_source_name(9), "none");
}

fn step(
    state: &mut ParentDeathCleanup,
    parent: u32,
    child_found: bool,
    active: bool,
    status: i32,
) -> ParentDeathCleanupAction {
    let mut child = SummonEntrySnapshot::empty();
    child.found = child_found;
    parent_death_cleanup_step(state, parent, child, active, status)
}

#[test]
fn a_dead_parent_gets_the_native_grace_then_one_fallback() {
    let mut state = ParentDeathCleanup::empty();
    let mut actions = Vec::new();
    for _ in 0..8 {
        actions.push(step(&mut state, 0x1000, true, true, ITEM_STATUS_KIND_DEAD));
    }
    assert_eq!(
        actions,
        vec![
            ParentDeathCleanupAction::Defer,
            ParentDeathCleanupAction::Defer,
            ParentDeathCleanupAction::Defer,
            ParentDeathCleanupAction::Defer,
            ParentDeathCleanupAction::Defer,
            ParentDeathCleanupAction::RunFallback,
            ParentDeathCleanupAction::Defer,
            ParentDeathCleanupAction::Defer,
        ]
    );
    assert_eq!(state.phase, ParentDeathCleanupPhase::FallbackPending);
    assert_eq!(state.generation, 1);
    assert_eq!(step(&mut state, 0x1000, true, false, -1), ParentDeathCleanupAction::Complete);
    assert_eq!(state.phase, ParentDeathCleanupPhase::Complete);
    assert_eq!(
        step(&mut state, 0x1000, true, true, ITEM_STATUS_KIND_DEAD),
        ParentDeathCleanupAction::Complete
    );
}

#[test]
fn without_a_child_the_fallback_runs_at_once() {
    let mut state = ParentDeathCleanup::empty();
    assert_eq!(
        step(&mut state, 0x1000, false, true, ITEM_STATUS_KIND_DEAD),
        ParentDeathCleanupAction::RunFallback
    );
    assert_eq!(state.phase, ParentDeathCleanupPhase::FallbackPending);
    assert_eq!(
        step(&mut state, 0x1000, false, true, ITEM_STATUS_KIND_DEAD),
        ParentDeathCleanupAction::Defer
    );
}

#[test]
fn an_unexpected_parent_aborts_for_good() {
    let mut state = ParentDeathCleanup::empty();
    step(&mut state, 0x1000, true, true, ITEM_STATUS_KIND_DEAD);
    assert_eq!(
        step(&mut state, 0x1000, true, true, ITEM_STATUS_KIND_WAIT),
        ParentDeathCleanupAction::Abort
    );
    assert_eq!(state.phase, ParentDeathCleanupPhase::Aborted);
    assert_eq!(
        step(&mut state, 0x1000, true, true, ITEM_STATUS_KIND_DEAD),
        ParentDeathCleanupAction::Abort
    );

    let mut other = ParentDeathCleanup::empty();
    step(&mut other, 0x1000, true, true, ITEM_STATUS_KIND_DEAD);
    assert_eq!(
        step(&mut other, 0x2000, true, true, ITEM_STATUS_KIND_DEAD),
        ParentDeathCleanupAction::Abort
    );
    assert_eq!(step(&mut other, 0, true, true, 0), ParentDeathCleanupAction::Complete);
    assert_eq!(ParentDeathCleanupAction::RunFallback.name(), "run_fallback");
    assert_eq!(ParentDeathCleanupPhase::NativeGrace.name(), "native_grace");
}

#[test]
fn the_generation_wraps_past_zero_to_one() {
    let mut state = ParentDeathCleanup {
        generation: u32::MAX,
        phase: ParentDeathCleanupPhase::Inactive,
        parent_object_id: 0,
        callbacks_remaining: 0,
        category5_snapshot: SummonEntrySnapshot::empty(),
        last_log_signature: u64::MAX,
    };
    step(&mut state, 0x1000, true, true, ITEM_STATUS_KIND_DEAD);
    assert_eq!(state.generation, 1);
}

#[test]
fn lifecycle_phases_follow_the_child() {
    let empty = SummonEntryLifecycle::empty();
    let mut found = SummonEntrySnapshot::empty();
    found.found = true;
    found.active = true;
    assert_eq!(
        summon_entry_lifecycle_phase("battle", false, &found, &empty),
        SummonEntryLifecyclePhase::Spawned
    );
    let mut seen = SummonEntryLifecycle::empty();
    seen.initialized = true;
    seen.snapshot = found;
    assert_eq!(
        summon_entry_lifecycle_phase("battle", false, &found, &seen),
        SummonEntryLifecyclePhase::Active
    );
    let mut reserved = found;
    reserved.active = false;
    assert_eq!(
        summon_entry_lifecycle_phase("battle", false, &reserved, &seen),
        SummonEntryLifecyclePhase::ExpiredEntryReserved
    );
    assert_eq!(
        summon_entry_lifecycle_phase("battle", true, &found, &seen),
        SummonEntryLifecyclePhase::Retiring
    );
    assert_eq!(
        summon_entry_lifecycle_phase("result_ready", false, &found, &seen),
        SummonEntryLifecyclePhase::CancelledByResult
    );
    assert_eq!(
        summon_entry_lifecycle_phase("battle", false, &SummonEntrySnapshot::empty(), &seen),
        SummonEntryLifecyclePhase::NoChild
    );
    assert!(is_result_transition_phase("scene_exit"));
    assert!(!is_result_transition_phase("battle"));
    assert!(summon_entry_lifecycle_changed(
        &empty,
        SummonEntryLifecyclePhase::Uninitialized,
        &SummonEntrySnapshot::empty(),
        false
    ));
    assert!(!summon_entry_lifecycle_changed(
        &seen,
        seen.phase,
        &found,
        false
    ));
}

#[test]
fn observation_phases_and_control_states() {
    assert_eq!(observe_phase(true, 10, 10, 20, 0), 1);
    assert_eq!(observe_phase(true, 20, 10, 20, 1), 2);
    assert_eq!(observe_phase(true, 30, 10, 20, 2), 3);
    assert_eq!(observe_phase(true, 30, 10, 20, 0), 0);
    assert_eq!(observe_phase(false, 10, 10, 20, 1), 4);
    assert_eq!(observe_phase(false, 10, 10, 20, 3), 0);
    assert_eq!(next_control_state(1, false), SummonControlState::NativeStatusActive);
    assert_eq!(next_control_state(4, true), SummonControlState::NativeEnded);
    assert_eq!(next_control_state(0, true), SummonControlState::SummonRequested);
    assert_eq!(next_control_state(0, false), SummonControlState::Inactive);
    assert_eq!(control_state_name(SummonControlState::NativeWait), "native_wait");
    assert_eq!(phase_name(3), "native_complete");
    assert_eq!(phase_name(0), "idle");
}

#[test]
fn slots_and_roster_phases() {
    assert_eq!(kind_offset("dharkon"), 8);
    assert_eq!(kind_offset("galeem"), 0);
    assert_eq!(observation_index("dharkon", 3), 11);
    assert_eq!(observation_index("galeem", 30), 7);
    assert_eq!(result_roster_phase_index("pre_match"), 0);
    assert_eq!(result_roster_phase_index("post_match_after_tracking_invalidation"), 3);
    assert_eq!(result_roster_phase_index("scene_exit"), 5);
    assert_eq!(result_roster_phase_index("anything"), 6);
}

#[test]
fn text_tokens_mix_in_each_byte() {
    assert_eq!(result_roster_text_token(""), 0xcbf2_9ce4_8422_2325);
    assert_eq!(result_roster_text_token("a"), 0xaf74_d84c_8601_ec8c);
    let mut expected = 0xcbf2_9ce4_8422_2325u64;
    for byte in "pre_match".bytes() {
        expected = (expected ^ byte as u64).wrapping_mul(0x1000_0000_01b3);
    }
    assert_eq!(result_roster_text_token("pre_match"), expected);
    assert_ne!(result_roster_text_token("battle"), result_roster_text_token("result_ready"));
}
