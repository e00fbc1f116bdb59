use playable_bosses::boss_helpers::{
    is_kiila_darz_first_attack_status, should_intercept_kiila_darz_spawn_status,
    KiilaDarzAttackStatuses,
    boss_mario_host_audio_decision, generic_item_status_name,
    hidden_kiila_darz_cpu_is_quarantined, is_boss_nonbattle_stage, is_boss_passthrough_stage,
    is_boss_preview_stage, is_world_of_light_boss_preview_stage, item_trait_has_boss,
    should_discard_tracked_boss, should_force_generic_wait, should_restore_staged_entry,
    staged_boss_ready_for_activation, trait_flag_without_boss, BossMarioHostAudioDecision,
    BossMarioHostLatch, PreGoTraitLedger, ITEM_STATUS_KIND_DEAD, ITEM_STATUS_KIND_ENTRY,
    ITEM_STATUS_KIND_FOR_BOSS_START, ITEM_STATUS_KIND_FOR_BOSS_TERM, ITEM_STATUS_KIND_NONE,
    ITEM_STATUS_KIND_START, ITEM_STATUS_KIND_THROW, ITEM_STATUS_KIND_TRANS_PHASE,
    ITEM_STATUS_KIND_WAIT, ITEM_TRAIT_FLAG_BOSS, ITEM_VARIATION_DARZ_DARKMAP,
    ITEM_VARIATION_DARZ_FINALMAP, ITEM_VARIATION_DARZ_KIILA, ITEM_VARIATION_DARZ_OFFSET,
    ITEM_VARIATION_KIILA_DARZ, MARIO_STAMINA_KNOCKOUT_VOICE, STAGE_ID_AMIIBO_PREVIEW,
    STAGE_ID_BOSS_PREVIEW, STAGE_ID_CLASSIC_BONUS_GAME, STAGE_ID_CLASSIC_STAFFROLL,
    STAGE_ID_RESULT,
};

#[test]
fn stamina_knockout_uses_the_dedicated_mario_knockout_voice() {
    assert_eq!(MARIO_STAMINA_KNOCKOUT_VOICE, "vc_mario_knockout");
}

#[test]
fn battle_tracking_requires_the_expected_kind_and_an_explicit_preparation_phase() {
    assert!(should_discard_tracked_boss(false, false, true, false));
    assert!(!should_discard_tracked_boss(false, false, true, true));
    assert!(should_discard_tracked_boss(false, false, false, true));
    assert!(should_discard_tracked_boss(true, false, false, false));
    assert!(!should_discard_tracked_boss(true, false, true, false));
    assert!(!should_discard_tracked_boss(false, true, true, false));
}

#[test]
fn staged_activation_uses_verified_lifecycle_state_not_a_host_scale_marker() {
    assert!(staged_boss_ready_for_activation(true, true, false, true));
    assert!(!staged_boss_ready_for_activation(false, true, false, true));
    assert!(!staged_boss_ready_for_activation(true, false, false, true));
    assert!(!staged_boss_ready_for_activation(true, true, true, true));
    assert!(!staged_boss_ready_for_activation(true, true, false, false));
}

#[test]
fn status_54_is_generic_wait_not_entry() {
    assert_eq!(ITEM_STATUS_KIND_WAIT, 0x36);
    assert_eq!(ITEM_STATUS_KIND_WAIT, 54);
    assert_eq!(ITEM_STATUS_KIND_ENTRY, 0x3D);
    assert_eq!(ITEM_STATUS_KIND_FOR_BOSS_START, 0x3D);
    assert_eq!(ITEM_STATUS_KIND_ENTRY, ITEM_STATUS_KIND_FOR_BOSS_START);
    assert_ne!(ITEM_STATUS_KIND_WAIT, ITEM_STATUS_KIND_ENTRY);
}

#[test]
fn throw_is_status_5_and_none_is_the_inert_terminal() {
    assert_eq!(ITEM_STATUS_KIND_THROW, 5);
    assert_eq!(ITEM_STATUS_KIND_NONE, -1);
}

#[test]
fn boss_mario_audio_latch_does_not_follow_a_visible_living_mario() {
    assert_eq!(
        boss_mario_host_audio_decision(true, false, false),
        BossMarioHostAudioDecision::Suppress
    );
    assert_eq!(
        boss_mario_host_audio_decision(false, true, true),
        BossMarioHostAudioDecision::Suppress
    );
    assert_eq!(
        boss_mario_host_audio_decision(false, true, false),
        BossMarioHostAudioDecision::ReleaseLatch
    );
    assert_eq!(
        boss_mario_host_audio_decision(false, false, false),
        BossMarioHostAudioDecision::NoAction
    );
}

#[test]
fn hidden_cpu_quarantine_requires_active_none() {
    assert!(hidden_kiila_darz_cpu_is_quarantined(true, ITEM_STATUS_KIND_NONE));
    assert!(!hidden_kiila_darz_cpu_is_quarantined(true, ITEM_STATUS_KIND_THROW));
    assert!(!hidden_kiila_darz_cpu_is_quarantined(false, ITEM_STATUS_KIND_NONE));
    assert!(!hidden_kiila_darz_cpu_is_quarantined(true, ITEM_STATUS_KIND_WAIT));
}

#[test]
fn wait_and_entry_writes_are_edge_triggered() {
    assert!(!should_force_generic_wait(ITEM_STATUS_KIND_WAIT));
    assert!(should_force_generic_wait(ITEM_STATUS_KIND_THROW));
    assert!(should_force_generic_wait(ITEM_STATUS_KIND_FOR_BOSS_TERM));
    assert!(!should_restore_staged_entry(true, true, false));
    assert!(should_restore_staged_entry(true, false, false));
    assert!(should_restore_staged_entry(true, true, true));
    assert!(!should_restore_staged_entry(false, false, false));
}

#[test]
fn generic_boss_lifecycle_status_names_match_skyline_constants() {
    assert_eq!(ITEM_STATUS_KIND_WAIT, 54);
    assert_eq!(ITEM_STATUS_KIND_FOR_BOSS_START, 61);
    assert_eq!(ITEM_STATUS_KIND_START, 62);
    assert_eq!(ITEM_STATUS_KIND_TRANS_PHASE, 63);
    assert_eq!(ITEM_STATUS_KIND_DEAD, 64);
    assert_eq!(ITEM_STATUS_KIND_FOR_BOSS_TERM, 65);
    assert_eq!(generic_item_status_name(ITEM_STATUS_KIND_WAIT), "WAIT");
    assert_eq!(
        generic_item_status_name(ITEM_STATUS_KIND_FOR_BOSS_START),
        "FOR_BOSS_START"
    );
    assert_eq!(generic_item_status_name(ITEM_STATUS_KIND_START), "START");
    assert_eq!(
        generic_item_status_name(ITEM_STATUS_KIND_TRANS_PHASE),
        "TRANS_PHASE"
    );
    assert_eq!(generic_item_status_name(ITEM_STATUS_KIND_DEAD), "DEAD");
    assert_eq!(
        generic_item_status_name(ITEM_STATUS_KIND_FOR_BOSS_TERM),
        "FOR_BOSS_TERM"
    );
    assert_eq!(generic_item_status_name(0), "other");
}

#[test]
fn darz_offset_is_zero_and_kiila_duet_is_three() {
    assert_eq!(ITEM_VARIATION_DARZ_OFFSET, 0);
    assert_eq!(ITEM_VARIATION_DARZ_DARKMAP, 1);
    assert_eq!(ITEM_VARIATION_DARZ_FINALMAP, 2);
    assert_eq!(ITEM_VARIATION_DARZ_KIILA, 3);
    assert_eq!(ITEM_VARIATION_KIILA_DARZ, 3);
    assert_eq!(ITEM_TRAIT_FLAG_BOSS, 0x1000);
}

#[test]
fn pre_go_trait_isolation_clears_only_the_boss_bit() {
    assert!(!item_trait_has_boss(0));
    assert!(item_trait_has_boss(ITEM_TRAIT_FLAG_BOSS));
    assert!(item_trait_has_boss(ITEM_TRAIT_FLAG_BOSS | 1));
    assert_eq!(trait_flag_without_boss(0), 0);
    assert_eq!(trait_flag_without_boss(ITEM_TRAIT_FLAG_BOSS), 0);
    assert_eq!(trait_flag_without_boss(ITEM_TRAIT_FLAG_BOSS | 1), 1);
    assert!(!item_trait_has_boss(trait_flag_without_boss(
        ITEM_TRAIT_FLAG_BOSS | 0x20
    )));
}

#[test]
fn native_boss_start_is_for_boss_start_not_generic_wait() {
    assert_eq!(ITEM_STATUS_KIND_FOR_BOSS_START, 61);
    assert_eq!(ITEM_STATUS_KIND_ENTRY, ITEM_STATUS_KIND_FOR_BOSS_START);
    assert_ne!(ITEM_STATUS_KIND_FOR_BOSS_START, ITEM_STATUS_KIND_WAIT);
    assert_eq!(ITEM_VARIATION_DARZ_KIILA, 3);
}

#[test]
fn clearing_the_boss_bit_twice_is_clearing_it_once() {
    for flag in [0, 1, 0x1000, 0x1001, -1, i32::MIN, 0x7fff_ffff] {
        let once = trait_flag_without_boss(flag);
        assert_eq!(trait_flag_without_boss(once), once);
        assert!(!item_trait_has_boss(once));
        assert_eq!(once | (flag & ITEM_TRAIT_FLAG_BOSS), flag);
    }
    assert_eq!(trait_flag_without_boss(-1), -1 & !0x1000);
}

#[test]
fn preview_and_passthrough_stages_are_not_battles() {
    assert!(is_boss_preview_stage(STAGE_ID_BOSS_PREVIEW));
    assert!(is_boss_preview_stage(STAGE_ID_CLASSIC_STAFFROLL));
    assert!(is_boss_preview_stage(STAGE_ID_AMIIBO_PREVIEW));
    assert!(!is_boss_preview_stage(STAGE_ID_CLASSIC_BONUS_GAME));
    assert!(is_world_of_light_boss_preview_stage(0x139));
    assert!(!is_world_of_light_boss_preview_stage(0x135));
    assert!(is_boss_passthrough_stage(0x13A));
    assert!(is_boss_nonbattle_stage(0x13A));
    assert!(is_boss_nonbattle_stage(0x135));
    assert!(!is_boss_nonbattle_stage(STAGE_ID_RESULT));
    assert!(!is_boss_nonbattle_stage(0));
}

#[test]
fn the_first_pre_go_trait_is_kept_until_reset() {
    let mut ledger = PreGoTraitLedger::new();
    assert_eq!(ledger.pre_go_acquired_trait_flag(3, 7), 7);
    ledger.remember_pre_go_acquired_trait(3, 0x1001);
    ledger.remember_pre_go_acquired_trait(3, 0x2002);
    assert_eq!(ledger.pre_go_acquired_trait_flag(3, 7), 0x1001);
    assert_eq!(ledger.pre_go_acquired_trait_flag(4, 7), 7);
    ledger.remember_pre_go_acquired_trait(20, 5);
    assert_eq!(ledger.pre_go_acquired_trait_flag(7, 0), 5);
    ledger.reset_pre_go_trait_isolation(3);
    assert_eq!(ledger.pre_go_acquired_trait_flag(3, 7), 7);
}

#[test]
fn the_mario_host_latch_is_per_entry() {
    let mut latch = BossMarioHostLatch::new();
    assert!(!latch.is_marked_boss_mario_host(2));
    latch.mark_boss_mario_host(2);
    assert!(latch.is_marked_boss_mario_host(2));
    assert!(!latch.is_marked_boss_mario_host(3));
    latch.mark_boss_mario_host(12);
    assert!(latch.is_marked_boss_mario_host(7));
    latch.clear_boss_mario_host_latch(12);
    assert!(latch.is_marked_boss_mario_host(7));
    latch.clear_boss_mario_host_latch(2);
    assert!(!latch.is_marked_boss_mario_host(2));
}

#[test]
fn kiila_darz_intro_motions_are_entry_and_entry2() {
    let entry = prc::hash40::Hash40::new("entry").0;
    let entry2 = prc::hash40::Hash40::new("entry2").0;
    let wait = prc::hash40::Hash40::new("wait").0;
    assert!(playable_bosses::boss_helpers::is_kiila_darz_intro_motion(entry));
    assert!(playable_bosses::boss_helpers::is_kiila_darz_intro_motion(entry2));
    assert!(!playable_bosses::boss_helpers::is_kiila_darz_intro_motion(wait));
    assert!(!playable_bosses::boss_helpers::is_kiila_darz_intro_motion(0));
}

/// Stand-ins for the game's Pierce and Static Missile status kinds, which the
/// plugin reads from the game's constant tables; like those, they lie above
/// the common item status kinds.
fn kiila_darz_statuses() -> KiilaDarzAttackStatuses {
    KiilaDarzAttackStatuses {
        darz_pierce_start: 0x4A,
        darz_pierce_loop: 0x4B,
        kiila_static_missile_start: 0x52,
        kiila_static_missile_loop: 0x53,
        kiila_static_missile_end: 0x54,
    }
}

#[test]
fn kiila_darz_first_attack_status_is_pierce_and_static_missile_only() {
    let s = kiila_darz_statuses();
    assert!(!is_kiila_darz_first_attack_status(ITEM_STATUS_KIND_FOR_BOSS_START, &s));
    assert!(!is_kiila_darz_first_attack_status(ITEM_STATUS_KIND_ENTRY, &s));
    assert!(is_kiila_darz_first_attack_status(s.darz_pierce_start, &s));
    assert!(is_kiila_darz_first_attack_status(s.darz_pierce_loop, &s));
    assert!(is_kiila_darz_first_attack_status(s.kiila_static_missile_start, &s));
    assert!(is_kiila_darz_first_attack_status(s.kiila_static_missile_loop, &s));
    assert!(is_kiila_darz_first_attack_status(s.kiila_static_missile_end, &s));
    assert!(!is_kiila_darz_first_attack_status(ITEM_STATUS_KIND_WAIT, &s));
    assert!(!is_kiila_darz_first_attack_status(ITEM_STATUS_KIND_TRANS_PHASE, &s));
}

#[test]
fn kiila_darz_spawn_intercept_skips_entry_for_boss_start_and_trans_phase() {
    let s = kiila_darz_statuses();
    assert!(!should_intercept_kiila_darz_spawn_status(ITEM_STATUS_KIND_FOR_BOSS_START, &s));
    assert!(!should_intercept_kiila_darz_spawn_status(ITEM_STATUS_KIND_ENTRY, &s));
    assert!(should_intercept_kiila_darz_spawn_status(s.darz_pierce_start, &s));
    assert!(!should_intercept_kiila_darz_spawn_status(ITEM_STATUS_KIND_THROW, &s));
    assert!(!should_intercept_kiila_darz_spawn_status(ITEM_STATUS_KIND_TRANS_PHASE, &s));
    assert!(!should_intercept_kiila_darz_spawn_status(ITEM_STATUS_KIND_WAIT, &s));
    assert!(!should_intercept_kiila_darz_spawn_status(ITEM_STATUS_KIND_DEAD, &s));
}

#[test]
fn only_the_five_first_attack_statuses_are_intercepted() {
    let s = kiila_darz_statuses();
    for status in -1..0x60 {
        let expected = [0x4A, 0x4B, 0x52, 0x53, 0x54].contains(&status);
        assert_eq!(is_kiila_darz_first_attack_status(status, &s), expected);
        assert_eq!(should_intercept_kiila_darz_spawn_status(status, &s), expected);
    }
}
