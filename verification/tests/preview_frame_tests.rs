use playable_bosses::preview::{
    interactive_probe_step, preview_frame_step, profile_for_ui_chara_id, AmiiboPreviewPhase,
    InteractiveProbeEmit, InteractiveTransformProbe, PreviewFrameAction, PreviewFrameEvent,
    PreviewRoute, PreviewSession, RathalosAcquireProbe, INTERACTIVE_TRANSFORM_CHANGE_SAMPLES,
};

fn route(ui: &str) -> PreviewRoute {
    profile_for_ui_chara_id(ui).unwrap()
}

fn waiting_session() -> PreviewSession {
    let mut session = PreviewSession::new();
    session.phase = AmiiboPreviewPhase::WaitingForViewerHost;
    session.host_hidden = true;
    session
}

fn frame(ui: &str, foreign: bool) -> PreviewFrameEvent {
    PreviewFrameEvent { route: route(ui), host_has_foreign_item: foreign }
}

const QUIET: InteractiveProbeEmit =
    InteractiveProbeEmit { capture_posture: false, stable_line: false, change_sample: None };

#[test]
fn a_waiting_viewer_requests_the_item_of_a_direct_recipe() {
    let mut session = waiting_session();
    let action = preview_frame_step(&mut session, &frame("ui_chara_galleom", false));
    assert_eq!(action, PreviewFrameAction::RequestItem { clear_host_slots: false });
    assert_eq!(session.phase, AmiiboPreviewPhase::CreatingPresentation);
    assert!(session.create_attempted);
    assert!(session.host_hidden);
}

#[test]
fn a_foreign_item_defers_the_viewer_before_creation() {
    let mut session = waiting_session();
    let action = preview_frame_step(&mut session, &frame("ui_chara_galleom", true));
    assert_eq!(action, PreviewFrameAction::DeferForeignItem);
    assert_eq!(session.phase, AmiiboPreviewPhase::DeferredUntilSupported);
    assert!(!session.create_attempted);
}

#[test]
fn dracula_is_deferred_before_any_item_request() {
    let mut session = waiting_session();
    let action = preview_frame_step(&mut session, &frame("ui_chara_dracula", false));
    assert_eq!(action, PreviewFrameAction::DeferBlockedRecipe);
    assert_eq!(session.phase, AmiiboPreviewPhase::DeferredUntilSupported);
    assert!(session.create_attempted);
    assert_eq!(preview_frame_step(&mut session, &frame("ui_chara_dracula", false)), PreviewFrameAction::Idle);
}

#[test]
fn rathalos_awaits_its_staged_acquisition_then_polls() {
    let mut session = waiting_session();
    let action = preview_frame_step(&mut session, &frame("ui_chara_lioleus", false));
    assert_eq!(action, PreviewFrameAction::AwaitRathalos);
    assert_eq!(session.phase, AmiiboPreviewPhase::AwaitingRathalosAcquire);
    assert_eq!(session.rathalos_acquire_probe, RathalosAcquireProbe::empty());
    assert!(session.create_attempted);
    assert!(!session.host_hidden);
    assert_eq!(
        preview_frame_step(&mut session, &frame("ui_chara_lioleus", false)),
        PreviewFrameAction::PollRathalos
    );
    assert_eq!(session.phase, AmiiboPreviewPhase::AwaitingRathalosAcquire);
}

#[test]
fn a_ready_viewer_is_maintained_and_other_phases_idle() {
    let mut session = waiting_session();
    session.phase = AmiiboPreviewPhase::Ready;
    assert_eq!(
        preview_frame_step(&mut session, &frame("ui_chara_galleom", true)),
        PreviewFrameAction::MaintainReady
    );
    assert_eq!(session.phase, AmiiboPreviewPhase::Ready);
    session.phase = AmiiboPreviewPhase::CreatingPresentation;
    assert_eq!(preview_frame_step(&mut session, &frame("ui_chara_galleom", false)), PreviewFrameAction::Idle);
    assert_eq!(session.phase, AmiiboPreviewPhase::CreatingPresentation);
}

#[test]
fn a_failed_item_request_shows_the_host_and_defers() {
    let mut session = waiting_session();
    preview_frame_step(&mut session, &frame("ui_chara_galleom", false));
    session.item_request_failed();
    assert_eq!(session.phase, AmiiboPreviewPhase::DeferredUntilSupported);
    assert!(!session.host_hidden);
    assert!(session.create_attempted);
}

#[test]
fn the_interactive_probe_is_closed_without_its_gate() {
    let master_hand = route("ui_chara_masterhand");
    let galleom = route("ui_chara_galleom");
    let mut probe = InteractiveTransformProbe::empty();
    assert_eq!(interactive_probe_step(&mut probe, &master_hand, false, true, true), QUIET);
    assert_eq!(interactive_probe_step(&mut probe, &master_hand, true, false, true), QUIET);
    assert_eq!(interactive_probe_step(&mut probe, &galleom, true, true, true), QUIET);
    assert_eq!(probe, InteractiveTransformProbe::empty());
}

#[test]
fn the_interactive_probe_logs_the_stable_state_then_samples_changes() {
    let marx = route("ui_chara_marx");
    let mut probe = InteractiveTransformProbe::empty();
    assert_eq!(
        interactive_probe_step(&mut probe, &marx, true, true, true),
        InteractiveProbeEmit { capture_posture: true, stable_line: true, change_sample: None }
    );
    assert!(probe.stable_phase_entered && probe.stable_state_logged && probe.has_last_host_posture);
    assert_eq!(probe.change_samples_remaining, INTERACTIVE_TRANSFORM_CHANGE_SAMPLES);
    assert_eq!(interactive_probe_step(&mut probe, &marx, true, true, false), QUIET);
    for sample in 1..=INTERACTIVE_TRANSFORM_CHANGE_SAMPLES {
        assert_eq!(
            interactive_probe_step(&mut probe, &marx, true, true, true),
            InteractiveProbeEmit { capture_posture: true, stable_line: false, change_sample: Some(sample) }
        );
    }
    assert_eq!(probe.change_samples_remaining, 0);
    assert_eq!(interactive_probe_step(&mut probe, &marx, true, true, true), QUIET);
}

#[test]
fn a_new_generation_starts_the_interactive_probe_over() {
    let marx = route("ui_chara_marx");
    let mut session = PreviewSession::new();
    assert_eq!(session.interactive_probe, InteractiveTransformProbe::empty());
    interactive_probe_step(&mut session.interactive_probe, &marx, true, true, false);
    assert!(session.interactive_probe.stable_state_logged);
    session.forget_presentation();
    assert_eq!(session.interactive_probe, InteractiveTransformProbe::empty());
    interactive_probe_step(&mut session.interactive_probe, &marx, true, true, false);
    session.begin_viewer_generation(3, session.attachment_mode);
    assert_eq!(session.interactive_probe, InteractiveTransformProbe::empty());
}
