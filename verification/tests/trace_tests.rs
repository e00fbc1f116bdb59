use playable_bosses::boss_helpers::{
    category_findings, BossTraceLatches, CategoryProbe, CategoryRead, NativeDriftLatch, PreGoRead,
    PreGoTrace, PreGoTraitLedger, ITEM_STATUS_KIND_WAIT, ITEM_TRAIT_FLAG_BOSS,
};
use playable_bosses::preview::{
    identity_boundary_key, is_preview_symbol, is_ui_like_nro, nro_event_key,
    symbol_table_is_plausible, ui_chara_db_boundary_key, SymbolTraceBudget, TraceKeySet,
    MAX_IDENTITY_TRACE_ENTRIES, MAX_NRO_SYMBOL_TRACE_ENTRIES, MAX_NRO_TRACE_ENTRIES,
};
use playable_bosses::text::{ascii_lowercase, join_key};

#[test]
fn only_the_owning_boss_module_traces_the_scene_phase() {
    let mut latches = BossTraceLatches::new();
    assert!(!latches.trace_scene_phase(true, 0, true, false, false, 0, 0, false, false, 0x10, 3));
    assert!(!latches.trace_scene_phase(false, 0, true, false, false, 5, 0, true, false, 0x10, 3));
    assert!(latches.trace_scene_phase(true, 0, true, false, false, 5, 0, true, false, 0x10, 3));
    assert!(!latches.trace_scene_phase(true, 0, true, false, false, 5, 0, true, false, 0x10, 3));
    assert!(latches.trace_scene_phase(true, 0, true, true, false, 5, 0, true, false, 0x10, 3));
    assert_eq!(latches.scene_phase[0], 1 ^ (1 << 3) ^ (1 << 9) ^ (0x10 << 16) ^ 3u64.rotate_left(40));
    assert!(latches.trace_scene_phase(true, 20, true, true, false, 5, 0, true, false, 0x10, 3));
    assert_eq!(latches.scene_phase[7], latches.scene_phase[0]);
}

#[test]
fn a_boss_status_is_traced_once_per_transition() {
    let mut latches = BossTraceLatches::new();
    assert!(latches.trace_boss_status(true, 2, 54, 61, 0xabc, 10000));
    assert!(!latches.trace_boss_status(true, 2, 54, 61, 0xabc, 10000));
    assert!(latches.trace_boss_status(true, 2, 5, 54, 0xabc, 10000));
    assert!(!latches.trace_boss_status(false, 2, 64, 5, 0xabc, 10000));
    assert_eq!(
        latches.status[2],
        5u64 ^ 54u64.rotate_left(11) ^ 0xabcu64.rotate_left(23) ^ 10000u64.rotate_left(47)
    );
}

#[test]
fn boundary_keys_name_the_mode_and_the_figure() {
    assert_eq!(identity_boundary_key("append", 0x0360_0000_0002_1202), "append:0360000000021202");
    assert_eq!(ui_chara_db_boundary_key("ui_chara_galleom"), "ui_chara_db:ui_chara_galleom");
    assert_eq!(join_key("", ""), ":");
}

#[test]
fn each_boundary_is_traced_once_up_to_the_bound() {
    let mut log = TraceKeySet::new(MAX_IDENTITY_TRACE_ENTRIES);
    assert!(log.record(identity_boundary_key("append", 1)));
    assert!(!log.record(identity_boundary_key("append", 1)));
    assert!(log.record(identity_boundary_key("remap", 1)));
    for n in 2..MAX_IDENTITY_TRACE_ENTRIES as u64 {
        assert!(log.record(identity_boundary_key("append", n)));
    }
    assert_eq!(log.keys.len(), MAX_IDENTITY_TRACE_ENTRIES);
    assert!(!log.record(ui_chara_db_boundary_key("ui_chara_marx")));
    assert_eq!(log.keys.len(), MAX_IDENTITY_TRACE_ENTRIES);
}

#[test]
fn ui_modules_are_recognised_by_their_names() {
    assert!(is_ui_like_nro("common"));
    assert!(is_ui_like_nro("COMMON"));
    assert!(is_ui_like_nro("ui2d"));
    assert!(is_ui_like_nro("Menu_Chara"));
    assert!(is_ui_like_nro("spirits_chara"));
    assert!(!is_ui_like_nro("item"));
    assert!(!is_ui_like_nro("commons"));
    assert_eq!(ascii_lowercase("AbC-Ü"), "abc-Ü");
}

#[test]
fn preview_symbols_are_recognised_by_their_words() {
    assert!(is_preview_symbol("_ZN3app6AmiiboViewer4openEv"));
    assert!(is_preview_symbol("nfp_read"));
    assert!(is_preview_symbol("CAMERA_reset"));
    assert!(!is_preview_symbol("fighter_status"));
    assert!(!is_preview_symbol(""));
}

#[test]
fn module_events_are_traced_once_and_symbols_within_budget() {
    let mut events = TraceKeySet::new(MAX_NRO_TRACE_ENTRIES);
    assert_eq!(nro_event_key("load", "common"), "load:common");
    assert!(events.record(nro_event_key("load", "common")));
    assert!(!events.record(nro_event_key("load", "common")));
    assert!(events.record(nro_event_key("unload", "common")));
    assert!(symbol_table_is_plausible(1, 1));
    assert!(symbol_table_is_plausible(0x10000, 0x0100_0000));
    assert!(!symbol_table_is_plausible(0, 1));
    assert!(!symbol_table_is_plausible(0x10001, 1));
    assert!(!symbol_table_is_plausible(1, 0x0100_0001));
    let mut budget = SymbolTraceBudget::new();
    for _ in 0..MAX_NRO_SYMBOL_TRACE_ENTRIES {
        assert!(budget.take());
    }
    assert!(!budget.take());
    assert_eq!(budget.logged, MAX_NRO_SYMBOL_TRACE_ENTRIES);
}

fn pre_go_read() -> PreGoRead {
    PreGoRead {
        status: 54,
        motion: 0,
        motion_frame_word: 0,
        tick_frame_word: 0,
        hidden_cpu_active: false,
        hidden_cpu_status: 0,
        manager_active: false,
        manager_status: 0,
        have_item: false,
        status_force_performed: false,
        motion_restore_performed: false,
        intro_completed: false,
        ready_go: false,
        kind: 0,
        variation: 0,
        staged_trait_flag: 0,
    }
}

#[test]
fn the_pre_go_trace_reports_the_acquired_trait_once_per_change() {
    let mut trace = PreGoTrace::new();
    let mut ledger = PreGoTraitLedger::new();
    let mut read = pre_go_read();
    read.staged_trait_flag = ITEM_TRAIT_FLAG_BOSS | 1;
    assert_eq!(trace.trace(false, 1, &read, &ledger), None);
    assert_eq!(trace.trace(true, 1, &read, &ledger), Some(ITEM_TRAIT_FLAG_BOSS | 1));
    assert_eq!(trace.trace(true, 1, &read, &ledger), None);
    ledger.remember_pre_go_acquired_trait(1, 7);
    assert_eq!(trace.trace(true, 1, &read, &ledger), Some(7));
    let mut plain = pre_go_read();
    plain.status = 0;
    let mut fresh = PreGoTrace::new();
    assert_eq!(fresh.trace(true, 9, &plain, &PreGoTraitLedger::new()), Some(0));
    assert_eq!(fresh.last_signature[7], 0);
}

#[test]
fn a_drift_out_of_wait_is_reported_once_per_status_and_go_flag() {
    let mut latch = NativeDriftLatch::new();
    assert!(!latch.observe(true, 0, ITEM_STATUS_KIND_WAIT, false));
    assert!(latch.observe(true, 0, 61, false));
    assert!(!latch.observe(true, 0, 61, false));
    assert!(latch.observe(true, 0, 61, true));
    assert!(latch.observe(true, 0, 62, true));
    assert!(!latch.observe(false, 0, 63, true));
    assert_eq!(latch.last_status[0], 62);
    assert_eq!(latch.last_ready_go[0], 1);
}

#[test]
fn the_category_probe_resolves_summon_ids_and_logs_changes() {
    let mut reads = [None; 8];
    reads[1] = Some(CategoryRead { fighter_category: 5, summon_boss_id: 0x44, summon_active: true, summon_kind: 9 });
    reads[2] = Some(CategoryRead { fighter_category: 0, summon_boss_id: 0x44, summon_active: true, summon_kind: 9 });
    reads[3] = Some(CategoryRead { fighter_category: 5, summon_boss_id: 0x5000_0000, summon_active: true, summon_kind: 9 });
    let (findings, signature) = category_findings(&reads);
    assert_eq!(findings.len(), 2);
    assert_eq!(findings[0].entry, 1);
    assert!(findings[0].resolvable);
    assert_eq!(findings[0].kind, 9);
    assert_eq!(findings[1].entry, 3);
    assert!(!findings[1].resolvable);
    assert_eq!(findings[1].kind, -1);
    let word = |e: u64, c: u64, id: u64, k: i32| (e << 1) ^ c.rotate_left(8) ^ id.rotate_left(20) ^ (k as u32 as u64).rotate_left(44);
    assert_eq!(signature, word(1, 5, 0x44, 9) ^ word(3, 5, 0x5000_0000, -1));

    let mut probe = CategoryProbe::new();
    assert!(probe.observe(true, false, &reads).is_empty());
    assert_eq!(probe.observe(true, true, &reads).len(), 2);
    assert!(probe.observe(true, true, &reads).is_empty());
    assert!(probe.observe(true, true, &[None; 8]).is_empty());
}
