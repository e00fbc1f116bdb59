use playable_bosses::amiibo::{boss_identities, configured_mappings, AmiiboEntry, AmiiboFile, LoadedAmiiboFile};
use playable_bosses::preview::{
    calibration_axis_name, is_direct_amiibo_identity_lookup, is_transform_comparison_profile,
    is_transform_proof_pair_profile, mapping_runtime_status, observing_native_held_attachment,
    preview_routes, profile_for_ui_chara_hash, profile_for_ui_chara_id, profile_rollout_enabled,
    rathalos_acquire_step, verified_presentation_backing, AmiiboAttachmentMode,
    AmiiboHostOrientationRecipe, BossAmiiboPreviewKind, CalibrationTarget,
    AmiiboPreviewIdentitySource, AmiiboPreviewPhase, IdentityLookupOutcome,
    ItemPresentationAcquireRecipe, NativeHeldAttachmentProbe, NativeHeldProbeEvent, PreviewAllowlist, PreviewSession,
    AmiiboPreviewOwnership, PresentationItemRead, PresentationRemoval, ReadyVisualLine,
    PreviewBackingKind, RathalosAcquireDecision, RathalosAcquireProbe,
    INTERACTIVE_TRANSFORM_CHANGE_SAMPLES, NATIVE_HELD_DIAGNOSTIC_FRAMES,
    RATHALOS_ACQUIRE_SETTLE_FRAMES, RATHALOS_HOST_SETTLE_FRAMES, RATHALOS_MAX_ACQUIRE_REQUESTS,
    TRANSFORM_COMPARISON_SAMPLE_FRAMES,
};
use prc::hash40::Hash40;

#[test]
fn every_boss_identity_has_one_preview_profile() {
    assert_eq!(preview_routes().len(), boss_identities().len());
    for identity in boss_identities() {
        let profile = profile_for_ui_chara_id(identity.ui_chara_id)
            .expect("missing boss preview profile");
        assert_eq!(profile.key, identity.key);
        assert_eq!(profile.ui_chara_id, identity.ui_chara_id);
    }
}

#[test]
fn preview_profile_keys_and_ui_ids_are_unique() {
    let routes = preview_routes();
    for (index, profile) in routes.iter().enumerate() {
        assert!(!routes[index + 1..]
            .iter()
            .any(|other| other.key == profile.key || other.ui_chara_id == profile.ui_chara_id));
    }
}

#[test]
fn direct_scan_lookup_is_distinct_from_catalog_enumeration() {
    assert!(is_direct_amiibo_identity_lookup(0xC1FF_FF13_8910_2CBF));
    assert!(!is_direct_amiibo_identity_lookup(0xC100_5113_8910_2CBF));
    assert!(is_direct_amiibo_identity_lookup(0xC1FF_FF00_0000_0000));
    assert!(profile_for_ui_chara_hash(0).is_none());
}

#[test]
fn rollout_enables_every_verified_item_backing_but_not_giga_bowser() {
    let galleom = profile_for_ui_chara_id("ui_chara_galleom").unwrap();
    assert!(profile_rollout_enabled(&galleom));

    let rathalos = profile_for_ui_chara_id("ui_chara_lioleus").unwrap();
    assert_eq!(
        rathalos.item_acquire_recipe,
        ItemPresentationAcquireRecipe::WolRathalosStaged
    );
    assert!(rathalos.item_acquire_recipe.uses_deferred_observation());

    let routes = preview_routes();
    let item_profiles = routes
        .iter()
        .filter(|profile| profile.preview_kind == BossAmiiboPreviewKind::ItemPresentation)
        .collect::<Vec<_>>();
    assert_eq!(item_profiles.len(), 10);
    assert!(item_profiles
        .iter()
        .all(|profile| profile_rollout_enabled(profile)));

    let giga_bowser = profile_for_ui_chara_id("ui_chara_koopag").unwrap();
    assert_eq!(
        giga_bowser.preview_kind,
        BossAmiiboPreviewKind::NativeFighterPresentation
    );
    assert!(!profile_rollout_enabled(&giga_bowser));
}

#[test]
fn rathalos_acquisition_probe_is_bounded() {
    let mut probe = RathalosAcquireProbe::empty();
    assert!(probe.can_retry());
    assert!(!probe.host_settled());
    assert!(!probe.observation_window_elapsed());

    probe.host_settle_frames = RATHALOS_HOST_SETTLE_FRAMES - 1;
    assert!(!probe.host_settled());
    probe.host_settle_frames = RATHALOS_HOST_SETTLE_FRAMES;
    assert!(probe.host_settled());

    probe.request_count = 1;
    probe.frames_since_request = RATHALOS_ACQUIRE_SETTLE_FRAMES - 1;
    assert!(probe.can_retry());
    assert!(!probe.observation_window_elapsed());

    probe.frames_since_request = RATHALOS_ACQUIRE_SETTLE_FRAMES;
    assert!(probe.observation_window_elapsed());
    probe.request_count = RATHALOS_MAX_ACQUIRE_REQUESTS;
    assert!(!probe.can_retry());
}

#[test]
fn rathalos_acquisition_settles_requests_twice_then_gives_up() {
    let mut probe = RathalosAcquireProbe::empty();
    assert_eq!(
        rathalos_acquire_step(&mut probe, false, false),
        RathalosAcquireDecision::AwaitHostSettle { first: true }
    );
    for _ in 1..RATHALOS_HOST_SETTLE_FRAMES - 1 {
        assert_eq!(
            rathalos_acquire_step(&mut probe, false, false),
            RathalosAcquireDecision::AwaitHostSettle { first: false }
        );
    }
    assert_eq!(
        rathalos_acquire_step(&mut probe, false, false),
        RathalosAcquireDecision::RequestInitial
    );
    assert_eq!(probe.request_count, 1);
    assert_eq!(probe.frames_since_request, 0);
    for _ in 0..RATHALOS_ACQUIRE_SETTLE_FRAMES - 1 {
        assert_eq!(
            rathalos_acquire_step(&mut probe, false, false),
            RathalosAcquireDecision::WaitForItem
        );
    }
    assert_eq!(
        rathalos_acquire_step(&mut probe, false, false),
        RathalosAcquireDecision::RequestRetry
    );
    assert_eq!(probe.request_count, 2);
    for _ in 0..RATHALOS_ACQUIRE_SETTLE_FRAMES - 1 {
        assert_eq!(
            rathalos_acquire_step(&mut probe, false, false),
            RathalosAcquireDecision::WaitForItem
        );
    }
    assert_eq!(
        rathalos_acquire_step(&mut probe, false, false),
        RathalosAcquireDecision::ExhaustedAfterRequests
    );
    assert_eq!(probe, RathalosAcquireProbe::empty());
}

#[test]
fn rathalos_activates_once_the_item_is_held_and_yields_to_a_foreign_item() {
    let mut probe = RathalosAcquireProbe { request_count: 1, host_settle_frames: 16, frames_since_request: 3 };
    assert_eq!(rathalos_acquire_step(&mut probe, true, false), RathalosAcquireDecision::Activate);
    let mut settling = RathalosAcquireProbe { request_count: 0, host_settle_frames: 15, frames_since_request: 0 };
    assert_eq!(
        rathalos_acquire_step(&mut settling, false, true),
        RathalosAcquireDecision::ExhaustedForeignBeforeInitial
    );
    assert_eq!(settling, RathalosAcquireProbe::empty());
    let mut waiting = RathalosAcquireProbe { request_count: 1, host_settle_frames: 16, frames_since_request: 15 };
    assert_eq!(
        rathalos_acquire_step(&mut waiting, false, true),
        RathalosAcquireDecision::ExhaustedForeignBeforeRetry
    );
}

#[test]
fn marx_amiibo_preview_is_rotatable_with_native_host_ownership() {
    let marx = profile_for_ui_chara_id("ui_chara_marx").unwrap();
    assert_eq!(marx.host_orientation_recipe, AmiiboHostOrientationRecipe::NativeHost);
    assert!(!marx.host_orientation_recipe.writes_host_posture());
    assert!(!marx.host_orientation_recipe.writes_host_root());
    assert_eq!(marx.host_orientation_recipe.posture_rotation_name(), "native");
    assert_eq!(marx.item_acquire_recipe, ItemPresentationAcquireRecipe::Direct);
    assert_eq!(
        AmiiboAttachmentMode::for_profile_key(marx.key),
        AmiiboAttachmentMode::ViewerAnchor
    );
    assert!(is_transform_proof_pair_profile(&marx));
}

#[test]
fn dracula_stage_135_acquisition_fails_closed_before_have_item() {
    let dracula = profile_for_ui_chara_id("ui_chara_dracula").unwrap();
    assert_eq!(dracula.preview_source, "item:dracula_blocked");
    assert_eq!(
        dracula.item_acquire_recipe,
        ItemPresentationAcquireRecipe::DraculaAllBackingsBlocked
    );
    assert!(!dracula.item_acquire_recipe.reaches_have_item());
    assert!(!dracula.item_acquire_recipe.allows_native_reacquire());
    assert!(!dracula.item_acquire_recipe.requires_empty_host_slots());
    assert!(!dracula.item_acquire_recipe.uses_tiny_host_before_request());
    assert!(!dracula.item_acquire_recipe.uses_deferred_observation());
    assert!(ItemPresentationAcquireRecipe::Direct.reaches_have_item());
    assert!(ItemPresentationAcquireRecipe::WolRathalosStaged.reaches_have_item());
    let backing = verified_presentation_backing(dracula.key).expect("typed item backing");
    assert_eq!(backing.kind, PreviewBackingKind::Item);
    assert_eq!(
        backing.source,
        "ITEM_KIND_DRACULA2 (blocked: stage 0x135 have_item crash)"
    );
}

#[test]
fn amiibo_host_orientation_recipes_are_not_silently_changed() {
    let expected = [
        ("master_hand", AmiiboHostOrientationRecipe::NativeHost),
        ("crazy_hand", AmiiboHostOrientationRecipe::RootOnly),
        ("wol_master_hand", AmiiboHostOrientationRecipe::RootOnly),
        ("galeem", AmiiboHostOrientationRecipe::GaleemDharkon),
        ("dharkon", AmiiboHostOrientationRecipe::GaleemDharkon),
        ("dracula", AmiiboHostOrientationRecipe::RootOnly),
        ("ganon_boss", AmiiboHostOrientationRecipe::RootOnly),
        ("galleom", AmiiboHostOrientationRecipe::RootOnly),
        ("rathalos", AmiiboHostOrientationRecipe::RootOnly),
        ("marx", AmiiboHostOrientationRecipe::NativeHost),
    ];
    let routes = preview_routes();
    for (key, recipe) in expected {
        let profile = routes
            .iter()
            .find(|profile| profile.key == key)
            .expect("missing item-backed preview profile");
        assert_eq!(profile.host_orientation_recipe, recipe);
    }
    assert!(!AmiiboHostOrientationRecipe::NativeHost.writes_host_posture());
    assert!(!AmiiboHostOrientationRecipe::NativeHost.writes_host_root());
    assert_eq!(AmiiboHostOrientationRecipe::NativeHost.posture_rotation_name(), "native");
    assert!(!AmiiboHostOrientationRecipe::RootOnly.writes_host_posture());
    assert!(AmiiboHostOrientationRecipe::RootOnly.writes_host_root());
    assert!(AmiiboHostOrientationRecipe::GaleemDharkon.writes_host_posture());
    assert!(AmiiboHostOrientationRecipe::GaleemDharkon.writes_host_root());
    assert!(!AmiiboHostOrientationRecipe::NativeFighter.writes_host_posture());
    assert!(!AmiiboHostOrientationRecipe::NativeFighter.writes_host_root());
}

#[test]
fn master_hand_uses_fully_native_host_with_boss_local_correction() {
    let master_hand = profile_for_ui_chara_id("ui_chara_masterhand").unwrap();
    assert_eq!(master_hand.key, "master_hand");
    assert_eq!(master_hand.ui_chara_id, "ui_chara_masterhand");
    assert_eq!(master_hand.preview_kind, BossAmiiboPreviewKind::ItemPresentation);
    assert_eq!(master_hand.preview_source, "item:masterhand");
    assert_eq!(master_hand.host_orientation_recipe, AmiiboHostOrientationRecipe::NativeHost);
    assert_eq!(master_hand.host_orientation_recipe.posture_rotation_name(), "native");
    assert_eq!(
        AmiiboAttachmentMode::for_profile_key(master_hand.key),
        AmiiboAttachmentMode::ViewerAnchor
    );
    let backing = verified_presentation_backing(master_hand.key).expect("item backing");
    assert_eq!(backing.kind, PreviewBackingKind::Item);
    assert_eq!(backing.source, "ITEM_KIND_MASTERHAND");
}

#[test]
fn proof_pair_stable_maintenance_never_owns_host_posture() {
    let master_hand = profile_for_ui_chara_id("ui_chara_masterhand").unwrap();
    let marx = profile_for_ui_chara_id("ui_chara_marx").unwrap();
    let crazy_hand = profile_for_ui_chara_id("ui_chara_crazyhand").unwrap();
    assert!(is_transform_proof_pair_profile(&master_hand));
    assert!(is_transform_proof_pair_profile(&marx));
    assert!(!is_transform_proof_pair_profile(&crazy_hand));
    assert_eq!(INTERACTIVE_TRANSFORM_CHANGE_SAMPLES, TRANSFORM_COMPARISON_SAMPLE_FRAMES);
    assert!(!master_hand.host_orientation_recipe.writes_host_posture());
    assert!(!marx.host_orientation_recipe.writes_host_root());
    assert!(crazy_hand.host_orientation_recipe.writes_host_root());
}

#[test]
fn calibration_harness_is_scoped_and_resets_between_generations() {
    assert!(is_transform_proof_pair_profile(&profile_for_ui_chara_id("ui_chara_masterhand").unwrap()));
    assert!(is_transform_proof_pair_profile(&profile_for_ui_chara_id("ui_chara_marx").unwrap()));
    assert!(!is_transform_proof_pair_profile(&profile_for_ui_chara_id("ui_chara_galleom").unwrap()));
    assert!(!is_transform_proof_pair_profile(&profile_for_ui_chara_id("ui_chara_dracula").unwrap()));
    assert!(!is_transform_proof_pair_profile(&profile_for_ui_chara_id("ui_chara_koopag").unwrap()));
    assert_eq!(CalibrationTarget::ItemRoot.next(), CalibrationTarget::ItemPosture);
    assert_eq!(CalibrationTarget::ItemPosture.next(), CalibrationTarget::HostRoot);
    assert_eq!(CalibrationTarget::HostRoot.next(), CalibrationTarget::ItemRoot);
    assert_eq!(CalibrationTarget::ItemRoot.name(), "item_root");
    assert_eq!(CalibrationTarget::ItemPosture.name(), "item_posture");
    assert_eq!(CalibrationTarget::HostRoot.name(), "host_root");
    assert_eq!(CalibrationTarget::HostRoot.index(), 2);
    assert_eq!(calibration_axis_name(0), "x");
    assert_eq!(calibration_axis_name(2), "z");
}

#[test]
fn mapping_runtime_status_reports_dracula_blocked() {
    let dracula = profile_for_ui_chara_id("ui_chara_dracula").unwrap();
    let backing = verified_presentation_backing(dracula.key);
    assert!(backing.is_some());
    assert_eq!(
        mapping_runtime_status(&dracula, backing),
        "acquisition_blocked_all_known_item_backings_crash_fail_closed"
    );
    let galleom = profile_for_ui_chara_id("ui_chara_galleom").unwrap();
    let galleom_backing = verified_presentation_backing(galleom.key);
    assert_eq!(mapping_runtime_status(&galleom, galleom_backing), "stage_135_runtime_enabled");
    let giga = profile_for_ui_chara_id("ui_chara_koopag").unwrap();
    assert_eq!(
        mapping_runtime_status(&giga, verified_presentation_backing(giga.key)),
        "native_fighter_presentation_hardware_verification_required"
    );
    assert_eq!(
        mapping_runtime_status(&galleom, verified_presentation_backing("unknown")),
        "verified_presentation_backing_missing"
    );
}

#[test]
fn transform_comparison_is_scoped_to_master_hand_and_marx() {
    let master_hand = profile_for_ui_chara_id("ui_chara_masterhand").unwrap();
    let marx = profile_for_ui_chara_id("ui_chara_marx").unwrap();
    let galleom = profile_for_ui_chara_id("ui_chara_galleom").unwrap();
    assert!(is_transform_comparison_profile(&master_hand));
    assert!(is_transform_comparison_profile(&marx));
    assert!(!is_transform_comparison_profile(&galleom));
    assert_eq!(TRANSFORM_COMPARISON_SAMPLE_FRAMES, 4);
}

#[test]
fn native_held_attachment_probe_is_bounded_and_scoped_to_galleom() {
    let probe = NativeHeldAttachmentProbe::empty();
    assert_eq!(
        AmiiboAttachmentMode::for_profile_key("master_hand"),
        AmiiboAttachmentMode::ViewerAnchor
    );
    assert_eq!(
        AmiiboAttachmentMode::for_profile_key("galleom"),
        AmiiboAttachmentMode::NativeHeldDiagnostic
    );
    assert_eq!(
        AmiiboAttachmentMode::for_profile_key("crazy_hand"),
        AmiiboAttachmentMode::ViewerAnchor
    );
    assert!(probe.preserves_native_attachment(true));
    assert!(!probe.preserves_native_attachment(false));
    assert_eq!(NATIVE_HELD_DIAGNOSTIC_FRAMES, 16);
    let mut done = probe;
    done.observed_frames = NATIVE_HELD_DIAGNOSTIC_FRAMES;
    assert!(!done.preserves_native_attachment(true));
    assert!(observing_native_held_attachment(AmiiboAttachmentMode::NativeHeldDiagnostic, probe, true));
    assert!(!observing_native_held_attachment(AmiiboAttachmentMode::ViewerAnchor, probe, true));
}

#[test]
fn routes_are_found_by_their_character_hash() {
    let hash = Hash40::new("ui_chara_galleom").0;
    let route = profile_for_ui_chara_hash(hash).expect("galleom route");
    assert_eq!(route.key, "galleom");
    let upper = Hash40::new("UI_CHARA_GALLEOM").0;
    assert_eq!(profile_for_ui_chara_hash(upper).map(|r| r.key), Some("galleom"));
}

#[test]
fn the_preview_allowlist_holds_the_configured_bosses() {
    let mut file = AmiiboFile::new();
    file.insert(
        "galleom".to_string(),
        AmiiboEntry { amiibo_id: Some("0x2106000003601202".to_string()), default_color: None, remap_existing: false },
    );
    let settings = LoadedAmiiboFile { path: None, file, parse_error: None };
    let mappings = configured_mappings(&settings);
    let allowlist = PreviewAllowlist::configure_mapping_profiles(&mappings);
    assert_eq!(allowlist.hashes, vec![Hash40::new("ui_chara_galleom").0]);
    assert!(allowlist.configured_for_preview(Hash40::new("ui_chara_galleom").0));
    assert!(!allowlist.configured_for_preview(Hash40::new("ui_chara_marx").0));
    let empty = PreviewAllowlist::configure_mapping_profiles(&[]);
    assert!(!empty.configured_for_preview(0));
}

fn galleom_allowlist() -> PreviewAllowlist {
    let mut file = AmiiboFile::new();
    file.insert(
        "galleom".to_string(),
        AmiiboEntry { amiibo_id: Some("0x2106000003601202".to_string()), default_color: None, remap_existing: false },
    );
    let settings = LoadedAmiiboFile { path: None, file, parse_error: None };
    PreviewAllowlist::configure_mapping_profiles(&configured_mappings(&settings))
}

#[test]
fn direct_lookup_of_a_configured_boss_captures_its_identity_once() {
    let allowlist = galleom_allowlist();
    let galleom = Hash40::new("ui_chara_galleom").0;
    let mut identity = PreviewSession::new();
    let outcome = identity.observe_logical_identity_lookup(&allowlist, 0xC1FF_FF00_0000_0000 | 0x13, galleom);
    match outcome {
        IdentityLookupOutcome::Locked { route } => assert_eq!(route.key, "galleom"),
        other => panic!("expected a capture, got {:?}", other),
    }
    assert_eq!(identity.phase, AmiiboPreviewPhase::IdentityCaptured);
    assert_eq!(identity.logical_ui_hash, galleom);
    assert_eq!(identity.identity_source, AmiiboPreviewIdentitySource::ProvisionalDirectUiLookup);
    let again = identity.observe_logical_identity_lookup(&allowlist, 0xC1FF_FF00_0000_0000, galleom);
    assert!(matches!(again, IdentityLookupOutcome::AlreadyLocked));
    assert_eq!(identity.phase, AmiiboPreviewPhase::IdentityCaptured);
}

#[test]
fn catalogue_lookups_are_logged_once_per_route_and_never_capture() {
    let allowlist = galleom_allowlist();
    let galleom = Hash40::new("ui_chara_galleom").0;
    let mut identity = PreviewSession::new();
    let first = identity.observe_logical_identity_lookup(&allowlist, 0xC100_5100_0000_0000, galleom);
    match first {
        IdentityLookupOutcome::IgnoredLogged { route, reason } => {
            assert_eq!(route.key, "galleom");
            assert_eq!(reason, "generic_ui_enumeration_no_scan_provenance");
        }
        other => panic!("expected a logged catalogue lookup, got {:?}", other),
    }
    assert_eq!(identity.phase, AmiiboPreviewPhase::Inactive);
    assert_eq!(identity.logical_ui_hash, 0);
    assert_ne!(identity.ignored_lookup_mask, 0);
    let second = identity.observe_logical_identity_lookup(&allowlist, 0xC100_5100_0000_0000, galleom);
    assert!(matches!(second, IdentityLookupOutcome::IgnoredQuiet));
    assert_eq!(identity.phase, AmiiboPreviewPhase::Inactive);
}

#[test]
fn unconfigured_or_unknown_lookups_change_nothing() {
    let allowlist = galleom_allowlist();
    let mut identity = PreviewSession::new();
    let marx = Hash40::new("ui_chara_marx").0;
    let before = identity;
    assert!(matches!(
        identity.observe_logical_identity_lookup(&allowlist, 0xC1FF_FF00_0000_0000, marx),
        IdentityLookupOutcome::NotPreviewed
    ));
    assert!(matches!(
        identity.observe_logical_identity_lookup(&allowlist, 0xC1FF_FF00_0000_0000, Hash40::new("ui_chara_mario").0),
        IdentityLookupOutcome::NotPreviewed
    ));
    assert_eq!(identity, before);
}

#[test]
fn selection_callbacks_discard_only_unbound_early_identities() {
    let allowlist = galleom_allowlist();
    let galleom = Hash40::new("ui_chara_galleom").0;
    let mut bound = PreviewSession::new();
    bound.observe_logical_identity_lookup(&allowlist, 0xC1FF_FF00_0000_0000, galleom);
    assert!(!bound.discard_unbound_identity_from_raw_selection_callback());
    assert_eq!(bound.logical_ui_hash, galleom);

    let mut unbound = PreviewSession::new();
    unbound.phase = AmiiboPreviewPhase::WaitingForViewerHost;
    unbound.logical_ui_hash = galleom;
    assert!(unbound.discard_unbound_identity_from_raw_selection_callback());
    assert_eq!(unbound.phase, AmiiboPreviewPhase::Inactive);
    assert_eq!(unbound.logical_ui_hash, 0);
}

#[test]
fn a_new_capture_forgets_the_last_generation_but_keeps_its_objects() {
    let allowlist = galleom_allowlist();
    let galleom = Hash40::new("ui_chara_galleom").0;
    let mut session = PreviewSession::new();
    session.create_attempted = true;
    session.viewer_generation = 4;
    session.presentation_object_id = 0x55;
    session.transform_ready_logged = true;
    session.last_item_visible = Some(true);
    session.attachment_mode = AmiiboAttachmentMode::NativeHeldDiagnostic;
    session.observe_logical_identity_lookup(&allowlist, 0xC1FF_FF00_0000_0000, galleom);
    assert!(!session.create_attempted);
    assert!(!session.transform_ready_logged);
    assert_eq!(session.last_item_visible, None);
    assert_eq!(session.attachment_mode, AmiiboAttachmentMode::ViewerAnchor);
    assert_eq!(session.viewer_generation, 4);
    assert_eq!(session.presentation_object_id, 0x55);

    session.reset_preview_state();
    assert_eq!(session.phase, AmiiboPreviewPhase::Inactive);
    assert_eq!(session.logical_ui_hash, 0);
    assert_eq!(session.identity_source, AmiiboPreviewIdentitySource::Unset);
    assert_eq!(session.presentation_object_id, 0x55);
}

#[test]
fn the_native_held_probe_counts_its_window_then_completes() {
    let mut probe = NativeHeldAttachmentProbe::empty();
    let mode = AmiiboAttachmentMode::NativeHeldDiagnostic;
    assert_eq!(
        probe.observe(AmiiboAttachmentMode::ViewerAnchor, true, true, false),
        NativeHeldProbeEvent::NotDiagnostic
    );
    assert_eq!(
        probe.observe(mode, true, true, true),
        NativeHeldProbeEvent::Observed { frame: 0, creation: true, window_complete: false }
    );
    assert_eq!(probe.observed_frames, 0);
    for expected in 1..NATIVE_HELD_DIAGNOSTIC_FRAMES {
        assert_eq!(
            probe.observe(mode, true, true, false),
            NativeHeldProbeEvent::Observed { frame: expected, creation: false, window_complete: false }
        );
    }
    assert_eq!(
        probe.observe(mode, true, true, false),
        NativeHeldProbeEvent::Observed { frame: NATIVE_HELD_DIAGNOSTIC_FRAMES, creation: false, window_complete: true }
    );
    assert!(probe.observation_complete);
    assert_eq!(probe.observe(mode, true, false, false), NativeHeldProbeEvent::NotObserving);
}

#[test]
fn a_detached_item_ends_the_native_held_window_once() {
    let mut probe = NativeHeldAttachmentProbe::empty();
    let mode = AmiiboAttachmentMode::NativeHeldDiagnostic;
    assert_eq!(probe.observe(mode, false, true, false), NativeHeldProbeEvent::Detached { first: true });
    assert!(probe.observation_complete);
    assert!(probe.detachment_logged);
    assert_eq!(probe.observe(mode, false, false, false), NativeHeldProbeEvent::NotObserving);
}

#[test]
fn only_the_requested_kind_is_adopted_as_the_presentation() {
    let mut session = PreviewSession::new();
    session.rathalos_acquire_probe.request_count = 1;
    session.host_hidden = true;
    assert!(!session.activate_verified_item_presentation(10, 11, 0, 0x77));
    assert_eq!(session.phase, AmiiboPreviewPhase::DeferredUntilSupported);
    assert!(!session.host_hidden);
    assert_eq!(session.rathalos_acquire_probe.request_count, 0);
    assert_eq!(session.presentation_object_id, 0);

    let mut session = PreviewSession::new();
    session.ready_visual_logged = true;
    assert!(session.activate_verified_item_presentation(10, 10, 2, 0x77));
    assert_eq!(session.phase, AmiiboPreviewPhase::Ready);
    assert_eq!(session.presentation_object_id, 0x77);
    assert_eq!(session.expected_item_kind, 10);
    assert_eq!(session.presentation_slot, 2);
    assert_eq!(session.ownership, AmiiboPreviewOwnership::HostSlot);
    assert_eq!(session.transform_stabilization_frames_remaining, 16);
    assert!(session.host_hidden);
    assert!(!session.ready_visual_logged);
}

#[test]
fn a_presentation_is_removed_only_when_it_is_the_created_kind() {
    let mut session = PreviewSession::new();
    assert_eq!(
        session.presentation_removal(5, PresentationItemRead::Readable { kind: 10 }, Some(0)),
        PresentationRemoval::NotActive
    );
    assert!(session.activate_verified_item_presentation(10, 10, 0, 0x77));
    session.host_object_id = 5;
    let read = PresentationItemRead::Readable { kind: 10 };
    assert_eq!(session.presentation_removal(5, read, Some(1)), PresentationRemoval::RemoveHostSlot { slot: 1 });
    assert_eq!(session.presentation_removal(5, read, None), PresentationRemoval::RemoveDetachedNativeOwned);
    assert_eq!(session.presentation_removal(6, read, Some(1)), PresentationRemoval::RemoveDetachedWithoutHost);
    assert_eq!(session.presentation_removal(0, read, Some(1)), PresentationRemoval::RemoveDetachedWithoutHost);
    assert_eq!(
        session.presentation_removal(5, PresentationItemRead::Readable { kind: 11 }, Some(1)),
        PresentationRemoval::RefuseKindMismatch
    );
    assert_eq!(
        session.presentation_removal(5, PresentationItemRead::Unreadable, Some(1)),
        PresentationRemoval::ModuleAccessorUnavailable
    );
    assert_eq!(PresentationRemoval::RefuseKindMismatch.name(), "refuse_kind_mismatch");
    assert!(!PresentationRemoval::RefuseKindMismatch.removal_requested());
    assert!(PresentationRemoval::RemoveHostSlot { slot: 0 }.removal_requested());
    assert!(session.restores_viewer_host(5));
    assert!(!session.restores_viewer_host(6));

    session.forget_presentation();
    assert_eq!(session.presentation_object_id, 0);
    assert_eq!(session.expected_item_kind, -1);
    assert_eq!(session.presentation_slot, -1);
    assert_eq!(session.ownership, AmiiboPreviewOwnership::Unowned);
    assert!(!session.host_hidden);
    assert_eq!(session.phase, AmiiboPreviewPhase::Ready);
    session.defer_current_viewer_presentation();
    assert_eq!(session.phase, AmiiboPreviewPhase::DeferredUntilSupported);
    assert!(session.create_attempted);
}

#[test]
fn visibility_changes_are_seen_and_reasserted_once() {
    let mut session = PreviewSession::new();
    assert!(session.observe_presentation_visibility(true, true));
    assert!(!session.observe_presentation_visibility(true, true));
    assert!(session.observe_presentation_visibility(true, false));
    assert!(!session.take_visibility_reassertion(true, true));
    assert!(session.take_visibility_reassertion(true, false));
    assert!(session.visibility_reassertion_used);
    assert!(!session.take_visibility_reassertion(false, false));
}

#[test]
fn the_transform_comparison_takes_its_window_of_samples_once() {
    let mut session = PreviewSession::new();
    assert_eq!(session.transform_comparison_sample(false, true), None);
    assert_eq!(session.transform_comparison_sample(true, false), None);
    let samples: Vec<Option<u8>> = (0..TRANSFORM_COMPARISON_SAMPLE_FRAMES + 1)
        .map(|_| session.transform_comparison_sample(true, true))
        .collect();
    assert_eq!(samples, vec![Some(1), Some(2), Some(3), Some(4), None]);
    assert!(session.transform_comparison_complete);
    assert_eq!(session.transform_comparison_samples_remaining, 0);
}

#[test]
fn galeem_and_dharkon_presentations_share_the_native_wait_motion() {
    let routes = preview_routes();
    let galeem = routes.iter().find(|route| route.key == "galeem").expect("missing Galeem preview profile");
    let dharkon = routes.iter().find(|route| route.key == "dharkon").expect("missing Dharkon preview profile");
    assert_eq!(galeem.idle_motion, "wait");
    assert_eq!(dharkon.idle_motion, "wait");
    assert_eq!(galeem.idle_motion, dharkon.idle_motion);
}

#[test]
fn proof_pair_static_corrections_ship_uncalibrated() {
    for key in ["master_hand", "marx"] {
        let route = preview_routes().into_iter().find(|route| route.key == key).unwrap();
        assert!(!route.host_orientation_recipe.writes_host_posture());
        assert!(!route.host_orientation_recipe.writes_host_root());
    }
}

#[test]
fn idle_motions_follow_each_boss() {
    let routes = preview_routes();
    let motion = |key: &str| routes.iter().find(|route| route.key == key).unwrap().idle_motion;
    assert_eq!(motion("ganon_boss"), "body_attack_start");
    assert_eq!(motion("rathalos"), "hovering_move");
    assert_eq!(motion("master_hand"), "wait");
}

#[test]
fn a_viewer_generation_binds_its_host_and_starts_over() {
    let allowlist = galleom_allowlist();
    let galleom = Hash40::new("ui_chara_galleom").0;
    let mut session = PreviewSession::new();
    session.observe_logical_identity_lookup(&allowlist, 0xC1FF_FF00_0000_0000, galleom);
    assert!(!session.viewer_host_replaced(7));
    session.viewer_generation = u32::MAX;
    session.visibility_reassertion_used = true;
    session.begin_viewer_generation(7, AmiiboAttachmentMode::for_profile_key("galleom"));
    assert_eq!(session.viewer_generation, 0);
    assert_eq!(session.host_object_id, 7);
    assert_eq!(session.phase, AmiiboPreviewPhase::WaitingForViewerHost);
    assert_eq!(session.attachment_mode, AmiiboAttachmentMode::NativeHeldDiagnostic);
    assert!(!session.visibility_reassertion_used);
    assert!(session.viewer_host_replaced(8));
    assert!(!session.viewer_host_replaced(7));
    session.stabilization_reacquire_used = true;
    session.rebind_after_host_replacement();
    assert!(!session.stabilization_reacquire_used);
    assert_eq!(session.phase, AmiiboPreviewPhase::IdentityCaptured);
}

#[test]
fn a_lost_presentation_is_reacquired_once() {
    let mut session = PreviewSession::new();
    assert!(!session.take_stabilization_reacquire(false, true));
    assert!(!session.take_stabilization_reacquire(true, false));
    assert!(session.take_stabilization_reacquire(true, true));
    assert!(!session.take_stabilization_reacquire(true, true));
    session.create_attempted = true;
    session.restart_capture_for_reacquire();
    assert_eq!(session.phase, AmiiboPreviewPhase::IdentityCaptured);
    assert!(!session.create_attempted);
}

#[test]
fn ready_and_blocked_lines_are_written_once() {
    let mut session = PreviewSession::new();
    assert_eq!(session.ready_visual_line(false, true, true), ReadyVisualLine::Quiet);
    assert_eq!(session.ready_visual_line(false, false, true), ReadyVisualLine::Blocked);
    assert_eq!(session.ready_visual_line(false, false, true), ReadyVisualLine::Quiet);
    assert_eq!(session.ready_visual_line(true, true, true), ReadyVisualLine::Ready);
    assert_eq!(session.ready_visual_line(true, true, true), ReadyVisualLine::Quiet);
}
