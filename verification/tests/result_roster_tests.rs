use playable_bosses::boss_helpers::TransitionBlockLog;
use playable_bosses::boss_summon::{SummonEntryLifecycle, SummonEntryLifecyclePhase, SummonEntrySnapshot};
use playable_bosses::result_roster::{
    helper_latch_index, helper_signature, result_roster_signature, ResultRosterLatches,
    ResultRosterRecord,
};
use playable_bosses::summon_observation::{
    audit_match_end, lifecycle_signature, observe_summon_entry_lifecycle, MatchAuditLatch,
    MatchAuditRead, SummonObservation,
};
use playable_bosses::text::str_contains;

fn records() -> [ResultRosterRecord; 8] {
    let mut records = [ResultRosterRecord::empty(0); 8];
    for (entry, record) in records.iter_mut().enumerate() {
        *record = ResultRosterRecord::empty(entry);
    }
    records
}

#[test]
fn an_empty_record_reads_nothing() {
    let record = ResultRosterRecord::empty(3);
    assert!(!record.present);
    assert_eq!(record.entry, 3);
    assert_eq!(record.fighter_kind, -1);
    assert_eq!(record.status, -1);
    assert_eq!(record.sub_fighter_flag, -1);
}

#[test]
fn the_record_signature_mixes_rotated_fields() {
    let mut record = ResultRosterRecord::empty(0);
    record.fighter_kind = 0;
    record.status = 0;
    record.sub_fighter_flag = 0;
    assert_eq!(record.signature(), 0);
    record.present = true;
    assert_eq!(record.signature(), 1);
    record.current_object_id = 1;
    assert_eq!(record.signature(), 1 ^ (1u64 << 7));
    let empty = ResultRosterRecord::empty(0);
    let expected = (u32::MAX as u64).rotate_left(17)
        ^ (u32::MAX as u64).rotate_left(23)
        ^ (0xffu64).rotate_left(59);
    assert_eq!(empty.signature(), expected);
}

#[test]
fn a_roster_dump_is_written_once_per_phase_until_reset() {
    let rows = records();
    let mut latches = ResultRosterLatches::new();
    assert_eq!(latches.observe_roster(false, "battle", 2, 2, &rows), None);
    let first = latches.observe_roster(true, "battle", 2, 2, &rows);
    assert_eq!(first, Some(result_roster_signature("battle", 2, 2, &rows)));
    assert_eq!(latches.observe_roster(true, "battle", 2, 2, &rows), None);
    assert!(latches.observe_roster(true, "result_ready", 2, 2, &rows).is_some());
    assert!(latches.observe_roster(true, "battle", 3, 2, &rows).is_some());
    latches.reset();
    assert!(latches.observe_roster(true, "battle", 3, 2, &rows).is_some());
}

#[test]
fn each_entry_moves_the_roster_signature() {
    let rows = records();
    let base = result_roster_signature("battle", 2, 2, &rows);
    let mut changed = rows;
    changed[5].present = true;
    assert_eq!(result_roster_signature("battle", 2, 2, &changed), base ^ (1u64.rotate_left(35)));
}

#[test]
fn helper_latches_follow_the_boss_kind_and_phase() {
    assert_eq!(helper_latch_index("pre_match", "galeem"), 0);
    assert_eq!(helper_latch_index("battle", "dharkon"), 5);
    assert_eq!(helper_latch_index("scene_exit", "dharkon_helper"), 7);
    assert_eq!(helper_latch_index("unknown", "galeem"), 3);
    let mut latches = ResultRosterLatches::new();
    assert!(!latches.observe_helper(true, "battle", "galeem", 0, None));
    assert!(!latches.observe_helper(false, "battle", "galeem", 9, None));
    assert!(latches.observe_helper(true, "battle", "galeem", 9, Some((3, 4))));
    assert!(!latches.observe_helper(true, "battle", "galeem", 9, Some((3, 4))));
    assert!(latches.observe_helper(true, "battle", "galeem", 9, None));
    assert_eq!(latches.helper[1], helper_signature("battle", "galeem", 9, None));
    assert_ne!(helper_signature("battle", "galeem", 9, None), helper_signature("battle", "galeem", 9, Some((-1, -1))));
}

#[test]
fn text_search_finds_runs_of_characters() {
    assert!(str_contains("boss_dharkon", "dharkon"));
    assert!(str_contains("dharkon", "dharkon"));
    assert!(str_contains("galeem", ""));
    assert!(!str_contains("dhark", "dharkon"));
    assert!(!str_contains("galeem", "dharkon"));
}

#[test]
fn a_blocked_transition_is_logged_once_per_entry() {
    let mut log = TransitionBlockLog::new();
    assert!(!log.log_once(false, 1, 2, 3, 4));
    assert!(log.log_once(true, 1, 2, 3, 4));
    assert!(!log.log_once(true, 1, 2, 3, 4));
    assert!(log.log_once(true, 1, 3, 3, 4));
    assert!(log.log_once(true, 1, 12, 3, 4));
    assert!(!log.log_once(true, 1, 7, 3, 4));
    assert_eq!(log.last_signature[2], 1 ^ (2 << 8) ^ (3 << 24) ^ 4u64.rotate_left(17));
    log.reset(2);
    assert_eq!(log.last_signature[2], u64::MAX);
    assert!(log.log_once(true, 1, 2, 3, 4));
}

fn child(active: bool) -> SummonEntrySnapshot {
    let mut snapshot = SummonEntrySnapshot::empty();
    snapshot.found = true;
    snapshot.active = active;
    snapshot.entry = 4;
    snapshot.object_id = 0x30;
    snapshot
}

#[test]
fn the_child_ledger_spawns_then_settles() {
    let mut ledger = SummonEntryLifecycle::empty();
    let (snapshot, logged) = observe_summon_entry_lifecycle(&mut ledger, 7, false, "battle", child(true), true);
    assert_eq!(snapshot, child(true));
    assert!(logged);
    assert_eq!(ledger.phase, SummonEntryLifecyclePhase::Spawned);
    assert_eq!(ledger.last_log_signature, lifecycle_signature(SummonEntryLifecyclePhase::Spawned, &child(true), false));
    let (_, logged) = observe_summon_entry_lifecycle(&mut ledger, 7, false, "battle", child(true), true);
    assert!(logged);
    assert_eq!(ledger.phase, SummonEntryLifecyclePhase::Active);
    let (_, logged) = observe_summon_entry_lifecycle(&mut ledger, 7, false, "battle", child(true), true);
    assert!(!logged);
    let (_, logged) = observe_summon_entry_lifecycle(&mut ledger, 7, false, "battle", child(false), true);
    assert!(logged);
    assert_eq!(ledger.phase, SummonEntryLifecyclePhase::ExpiredEntryReserved);
    let (_, logged) = observe_summon_entry_lifecycle(&mut ledger, 7, true, "result_ready", child(false), false);
    assert!(!logged);
    assert_eq!(ledger.phase, SummonEntryLifecyclePhase::CancelledByResult);
}

#[test]
fn without_a_parent_nothing_is_observed() {
    let mut ledger = SummonEntryLifecycle::empty();
    let (snapshot, logged) = observe_summon_entry_lifecycle(&mut ledger, 0, false, "battle", child(true), true);
    assert_eq!(snapshot, SummonEntrySnapshot::empty());
    assert!(!logged);
    assert!(!ledger.initialized);
}

#[test]
fn the_match_end_audit_writes_each_line_once_per_change() {
    let mut latch = MatchAuditLatch::new();
    let mut ledgers = [SummonEntryLifecycle::empty(); 16];
    let observations = [SummonObservation::empty(); 16];
    let read = MatchAuditRead {
        entry: 99,
        current_fighter_id: 0x10,
        fighter_num: 1,
        host_status: 3,
        stock_count: 2,
        dead_count: 1,
        boss_dead: true,
        exists_public: true,
        ready_go: true,
        result_mode: false,
        boss_active: true,
        hidden_host_item_active: false,
        boss_id: 0x40,
        hidden_host_item_id: 0,
    };
    assert!(audit_match_end(&mut latch, &mut ledgers, &observations, false, "dharkon", 9, &read, child(true), "battle").is_none());
    assert!(!ledgers[15].initialized);

    let lines = audit_match_end(&mut latch, &mut ledgers, &observations, true, "dharkon", 9, &read, child(true), "battle")
        .expect("debug audit");
    assert!(lines.death_line);
    assert!(lines.audit_line);
    assert!(lines.lifecycle_line);
    assert!(!lines.summon_active);
    assert_eq!(lines.summon_result_eligibility, "category5_child_public_result_api_unavailable");
    assert_eq!(lines.summon_cleanup, "native_owner_active");
    assert!(ledgers[15].initialized);
    assert_eq!(ledgers[15].phase, SummonEntryLifecyclePhase::Retiring);
    assert_eq!(latch.last_dead[15], 1);

    let again = audit_match_end(&mut latch, &mut ledgers, &observations, true, "dharkon", 9, &read, child(true), "result_ready")
        .expect("debug audit");
    assert!(!again.death_line);
    assert!(!again.audit_line);
    assert_eq!(again.summon_cleanup, "observation_only");
    assert_eq!(ledgers[15].phase, SummonEntryLifecyclePhase::CancelledByResult);

    let mut alive = read;
    alive.boss_dead = false;
    alive.boss_id = 0;
    let lines = audit_match_end(&mut latch, &mut ledgers, &observations, true, "dharkon", 9, &alive, child(true), "battle")
        .expect("debug audit");
    assert!(lines.death_line);
    assert!(lines.audit_line);
    assert_eq!(lines.child, SummonEntrySnapshot::empty());
    assert_eq!(lines.summon_result_eligibility, "none_observed");
}
