use playable_bosses::boss_helpers::ITEM_STATUS_KIND_DEAD;
use playable_bosses::boss_summon::{
    ParentDeathCleanupAction, ParentDeathCleanupPhase, SummonControlState, SummonEntryLifecyclePhase,
    SummonEntrySnapshot,
};
use playable_bosses::summon_slots::{BossSummonSlots, TransitionCancel};

fn child(found: bool) -> SummonEntrySnapshot {
    let mut snapshot = SummonEntrySnapshot::empty();
    snapshot.found = found;
    snapshot.active = found;
    snapshot.entry = 5;
    snapshot.object_id = 0x90;
    snapshot
}

#[test]
fn a_slot_runs_the_death_cleanup_with_its_child_ledger() {
    let mut slots = BossSummonSlots::new();
    let first = slots.parent_death_cleanup_step("galeem", 2, 0x1000, child(true), true, ITEM_STATUS_KIND_DEAD, true);
    assert_eq!(first.action, ParentDeathCleanupAction::Defer);
    assert_eq!(first.child, child(true));
    assert!(first.lifecycle_line);
    assert_eq!(first.cleanup_line, Some("death_observed"));
    assert_eq!(slots.lifecycles[2].phase, SummonEntryLifecyclePhase::Retiring);
    assert_eq!(slots.cleanups[2].phase, ParentDeathCleanupPhase::DeathObserved);
    assert_eq!(slots.cleanups[2].category5_snapshot, child(true));
    assert_eq!(slots.prior_parent("galeem", 2), 0x1000);
    assert_eq!(slots.prior_parent("dharkon", 2), 0);

    let second = slots.parent_death_cleanup_step("galeem", 2, 0x1000, child(true), true, ITEM_STATUS_KIND_DEAD, true);
    assert_eq!(second.action, ParentDeathCleanupAction::Defer);
    assert_eq!(second.cleanup_line, Some("native_grace_or_recheck"));
    assert!(!second.lifecycle_line);
    assert_eq!(slots.cleanups[2].phase, ParentDeathCleanupPhase::NativeGrace);

    let gone = slots.parent_death_cleanup_step("galeem", 2, 0x1000, child(false), false, -1, true);
    assert_eq!(gone.action, ParentDeathCleanupAction::Complete);
    assert_eq!(gone.cleanup_line, Some("parent_inactive"));

    let quiet = slots.parent_death_cleanup_step("dharkon", 0, 0, child(true), false, -1, false);
    assert_eq!(quiet.action, ParentDeathCleanupAction::Complete);
    assert_eq!(quiet.child, SummonEntrySnapshot::empty());
    assert_eq!(quiet.cleanup_line, None);
    assert_eq!(slots.cleanups[8].phase, ParentDeathCleanupPhase::Complete);
}

#[test]
fn resetting_a_slot_starts_it_over() {
    let mut slots = BossSummonSlots::new();
    slots.parent_death_cleanup_step("dharkon", 3, 0x2000, child(true), true, ITEM_STATUS_KIND_DEAD, false);
    slots.observations[11].initialized = true;
    slots.observations[11].request_pending = true;
    slots.observations[11].control_state = SummonControlState::SummonRequested;
    slots.match_audit.last_dead[11] = 1;
    slots.scene_exit_last_signature[11] = 5;
    let reset = slots.reset("dharkon", 3, child(true), true);
    assert_eq!(reset.cancelled, Some(SummonControlState::SummonRequested));
    assert!(reset.lifecycle_line);
    assert_eq!(slots.lifecycles[11].phase, SummonEntryLifecyclePhase::CancelledByResult);
    assert_eq!(slots.cleanups[11].phase, ParentDeathCleanupPhase::Inactive);
    assert!(!slots.observations[11].initialized);
    assert_eq!(slots.match_audit.last_dead[11], -1);
    assert_eq!(slots.scene_exit_last_signature[11], u64::MAX);

    let again = slots.reset("dharkon", 3, child(false), true);
    assert_eq!(again.cancelled, None);
    assert!(!again.lifecycle_line);
    assert!(!slots.lifecycles[11].initialized);
}

#[test]
fn a_transition_drops_every_observation() {
    let mut slots = BossSummonSlots::new();
    slots.observations[1].initialized = true;
    slots.observations[1].last_boss_id = 0x3000;
    slots.observations[1].last_phase = 2;
    slots.observations[9].initialized = true;
    let children = [child(true); 16];
    let lines = slots.cancel_for_transition("result_ready", &children, true);
    assert_eq!(lines[1], TransitionCancel { lifecycle_line: true, cancelled: true });
    assert_eq!(lines[9], TransitionCancel { lifecycle_line: false, cancelled: false });
    assert_eq!(lines[0], TransitionCancel { lifecycle_line: false, cancelled: false });
    assert_eq!(slots.lifecycles[1].phase, SummonEntryLifecyclePhase::CancelledByResult);
    assert_eq!(slots.lifecycles[1].parent_boss_id, 0x3000);
    assert!(!slots.lifecycles[9].initialized);
    assert!(slots.observations.iter().all(|o| !o.initialized));
}

#[test]
fn a_scene_exit_is_logged_once_per_change() {
    let mut slots = BossSummonSlots::new();
    assert!(!slots.log_boss_scene_exit(false, "galeem", 1, 0x10, child(true), true, false, false, 0x20));
    assert!(slots.log_boss_scene_exit(true, "galeem", 1, 0x10, child(true), true, false, false, 0x20));
    assert!(!slots.log_boss_scene_exit(true, "galeem", 1, 0x10, child(true), true, false, false, 0x20));
    assert!(slots.log_boss_scene_exit(true, "galeem", 1, 0x10, child(true), true, true, false, 0x20));
    assert!(slots.log_boss_scene_exit(true, "galeem", 1, 0, child(true), false, true, false, 0x20));
    slots.reset("galeem", 1, child(false), false);
    assert!(slots.log_boss_scene_exit(true, "galeem", 1, 0, child(true), false, true, false, 0x20));
}
