use playable_bosses::bits::rotate_left;
use playable_bosses::diagnostics::{
    control_source_name, difficulty_source, fp_context_signature, fp_transition_signature,
    host_cpu_state_name, observe_fp_commands, selected_boss_name, FpCommandSummary, FpContext,
    FpSample, FpTransitionLedger, SampleLedger, FP_COMPARE_WINDOW_SAMPLES,
};
use prc::hash40::Hash40;

#[test]
fn rotation_matches_the_standard_library() {
    for x in [0u64, 1, 0x8000_0000_0000_0001, 0xdead_beef_cafe_f00d, u64::MAX] {
        for n in [0u32, 1, 7, 31, 63, 64, 65, 200] {
            assert_eq!(rotate_left(x, n), x.rotate_left(n));
        }
    }
}

#[test]
fn sampling_follows_changes_and_the_period() {
    let mut ledger = SampleLedger::new();
    assert!(ledger.should_sample(2, 7, 9));
    assert!(!ledger.should_sample(2, 7, 9));
    assert!(ledger.should_sample(2, 8, 9));
    for _ in 3..60 {
        assert!(!ledger.should_sample(2, 8, 9));
    }
    assert!(ledger.should_sample(2, 8, 9));
    assert!(ledger.should_sample(30, 8, 9));
    assert!(!ledger.should_sample(7, 8, 9));
}

#[test]
fn control_sources_are_named() {
    assert_eq!(control_source_name(Some(false)), "human");
    assert_eq!(control_source_name(Some(true)), "cpu_or_figure_player");
    assert_eq!(control_source_name(None), "unknown");
    assert_eq!(host_cpu_state_name(Some(true)), "true");
    assert_eq!(difficulty_source(Some(true), true), "native_fighter_ai_unverified");
    assert_eq!(difficulty_source(Some(true), false), "config_or_boss_native");
    assert_eq!(difficulty_source(Some(false), true), "host_input");
    assert_eq!(difficulty_source(None, false), "unknown");
}

#[test]
fn the_selected_boss_is_named_by_its_character_hash() {
    assert_eq!(selected_boss_name(Hash40::new("ui_chara_marx").0), "Marx");
    assert_eq!(selected_boss_name(0), "<none-or-unknown>");
}

fn context(cpu: bool) -> FpContext {
    FpContext {
        selected_hash: 0x10,
        boss_object_id: 0x20,
        boss_kind: -3,
        operation_cpu: cpu,
        fighter_category: 1,
        summon_boss_id: 0,
        host_kind: 4,
    }
}

fn sample(attack: bool) -> FpSample {
    FpSample {
        command_cat1: 0,
        command_cat2: 2,
        command_cat3: 0,
        command_cat4: 0,
        stick_active: false,
        attack,
        special: false,
        guard: false,
        jump: false,
    }
}

#[test]
fn command_summaries_count_edges_and_close_their_window() {
    let mut summary = FpCommandSummary::empty();
    let mut tick = 0u32;
    let first = observe_fp_commands(&mut summary, &mut tick, &context(true), &sample(true));
    assert_eq!(first.context_change, Some(FpCommandSummary::empty()));
    assert!(first.window.is_none());
    assert_eq!(summary.samples, 1);
    assert_eq!(summary.attack_events, 1);
    assert_eq!(summary.signature, fp_context_signature(&context(true)));
    for _ in 0..3 {
        observe_fp_commands(&mut summary, &mut tick, &context(true), &sample(true));
    }
    assert_eq!(summary.samples, 1);
    observe_fp_commands(&mut summary, &mut tick, &context(true), &sample(true));
    assert_eq!(summary.samples, 2);
    assert_eq!(summary.attack_events, 1);
    assert_eq!(summary.unique_cat2, 2);
    let mut windows = 0;
    for _ in 0..(4 * FP_COMPARE_WINDOW_SAMPLES) {
        let emits = observe_fp_commands(&mut summary, &mut tick, &context(true), &sample(false));
        if let Some(window) = emits.window {
            assert_eq!(window.samples, FP_COMPARE_WINDOW_SAMPLES);
            windows += 1;
        }
    }
    assert_eq!(windows, 1);
    let human = observe_fp_commands(&mut summary, &mut tick, &context(false), &sample(true));
    assert!(human.context_change.is_some());
    assert_eq!(summary.samples, 0);
}

#[test]
fn figure_player_lines_repeat_only_on_change() {
    let mut ledger = FpTransitionLedger::new();
    let a = fp_transition_signature(1, 2, 3, Some(true), 4, 5, 6, 7);
    let unknown = fp_transition_signature(1, 2, 3, None, 4, 5, 6, 7);
    let human = fp_transition_signature(1, 2, 3, Some(false), 4, 5, 6, 7);
    assert_ne!(a, unknown);
    assert_ne!(a, human);
    assert_ne!(unknown, human);
    assert!(ledger.record(0, a));
    assert!(!ledger.record(0, a));
    assert!(ledger.record(0, human));
    assert!(ledger.record(1, human));
}

#[test]
fn only_started_windows_with_samples_are_summarised() {
    let mut summary = FpCommandSummary::empty();
    assert!(!summary.emits_compare_summary(true));
    let mut tick = 0u32;
    observe_fp_commands(&mut summary, &mut tick, &context(true), &sample(true));
    assert!(summary.emits_compare_summary(true));
    assert!(!summary.emits_compare_summary(false));
    summary.samples = 0;
    assert!(!summary.emits_compare_summary(true));
}
