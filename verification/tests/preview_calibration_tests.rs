use playable_bosses::preview::{
    viewer_frame_start, process_transform_calibration_input, profile_for_ui_chara_id, PreviewRoute,
    AmiiboPreviewPhase, CalibrationInput, CalibrationInputState, CalibrationTarget,
    ViewerFrameStart, CALIBRATION_INPUT_PROBE_SAMPLES, CALIBRATION_RESET_HOLD_FRAMES,
};

fn master_hand() -> PreviewRoute {
    profile_for_ui_chara_id("ui_chara_masterhand").unwrap()
}

fn input(raw: i32, chord: bool, attack: bool) -> CalibrationInput {
    CalibrationInput {
        raw_buttons: raw,
        guard: chord,
        catch: chord,
        attack,
        jump_pressed: false,
        appeal_hi_pressed: false,
        appeal_lw_pressed: false,
        appeal_s_r_pressed: false,
        appeal_s_l_pressed: false,
    }
}

#[test]
fn calibration_starts_fresh_each_generation() {
    let empty = CalibrationInputState::empty();
    assert_eq!(empty.target, CalibrationTarget::ItemRoot);
    assert_eq!(empty.axis, 0);
    assert!(!empty.chord_engaged);
    assert_eq!(empty.attack_hold_frames, 0);
    assert_eq!(empty.input_probe_samples_remaining, CALIBRATION_INPUT_PROBE_SAMPLES);
}

#[test]
fn the_chord_snapshots_once_and_a_short_press_cycles_the_axis() {
    let mut state = CalibrationInputState::empty();
    let first = process_transform_calibration_input(&mut state, &master_hand(), true, true, &input(3, true, false));
    assert!(first.log_input);
    assert!(first.snapshot);
    let second = process_transform_calibration_input(&mut state, &master_hand(), true, true, &input(4, true, true));
    assert!(!second.snapshot);
    assert!(second.log_input);
    let release = process_transform_calibration_input(&mut state, &master_hand(), true, true, &input(3, true, false));
    assert!(release.axis_cycled);
    assert_eq!(state.axis, 1);
    let mut jump = input(3, true, false);
    jump.jump_pressed = true;
    jump.appeal_hi_pressed = true;
    jump.appeal_s_l_pressed = true;
    let turned = process_transform_calibration_input(&mut state, &master_hand(), true, true, &jump);
    assert!(turned.target_cycled);
    assert_eq!(state.target, CalibrationTarget::ItemPosture);
    assert_eq!(turned.delta_degrees, 10);
    let off = process_transform_calibration_input(&mut state, &master_hand(), true, true, &input(0, false, true));
    assert!(!off.snapshot && off.delta_degrees == 0);
    assert!(!state.chord_engaged);
}

#[test]
fn a_long_hold_resets_once_and_does_not_cycle() {
    let mut state = CalibrationInputState::empty();
    let mut resets = 0;
    for _ in 0..(CALIBRATION_RESET_HOLD_FRAMES + 10) {
        if process_transform_calibration_input(&mut state, &master_hand(), true, true, &input(1, true, true)).reset_target {
            resets += 1;
        }
    }
    assert_eq!(resets, 1);
    let release = process_transform_calibration_input(&mut state, &master_hand(), true, true, &input(1, true, false));
    assert!(!release.axis_cycled);
    assert_eq!(state.axis, 0);
}

#[test]
fn the_input_log_is_bounded() {
    let mut state = CalibrationInputState::empty();
    let mut logged = 0;
    for raw in 0..100 {
        if process_transform_calibration_input(&mut state, &master_hand(), true, true, &input(raw, false, false)).log_input {
            logged += 1;
        }
    }
    assert_eq!(logged, CALIBRATION_INPUT_PROBE_SAMPLES as i32);
}

#[test]
fn the_viewer_start_defers_what_cannot_be_shown() {
    let galleom = profile_for_ui_chara_id("ui_chara_galleom");
    let giga = profile_for_ui_chara_id("ui_chara_koopag");
    assert_eq!(
        viewer_frame_start(0x135, AmiiboPreviewPhase::IdentityCaptured, true, galleom),
        ViewerFrameStart::Proceed
    );
    assert_eq!(
        viewer_frame_start(0x135, AmiiboPreviewPhase::IdentityCaptured, true, giga),
        ViewerFrameStart::Defer { newly: true }
    );
    assert_eq!(
        viewer_frame_start(0x135, AmiiboPreviewPhase::DeferredUntilSupported, true, giga),
        ViewerFrameStart::Defer { newly: false }
    );
    assert_eq!(
        viewer_frame_start(0x135, AmiiboPreviewPhase::Ready, true, None),
        ViewerFrameStart::ResetMissingProfile
    );
    assert_eq!(
        viewer_frame_start(0x135, AmiiboPreviewPhase::Inactive, true, galleom),
        ViewerFrameStart::Idle
    );
    assert_eq!(
        viewer_frame_start(0x135, AmiiboPreviewPhase::Ready, false, galleom),
        ViewerFrameStart::Idle
    );
    assert_eq!(
        viewer_frame_start(0x136, AmiiboPreviewPhase::Ready, true, galleom),
        ViewerFrameStart::LeaveViewer
    );
    assert_eq!(
        viewer_frame_start(0x136, AmiiboPreviewPhase::Inactive, true, galleom),
        ViewerFrameStart::Idle
    );
}

#[test]
fn calibration_input_is_read_only_behind_its_gate() {
    let marx = profile_for_ui_chara_id("ui_chara_marx").unwrap();
    let galleom = profile_for_ui_chara_id("ui_chara_galleom").unwrap();
    let start = CalibrationInputState::empty();
    for (route, debug, present) in [(marx, false, true), (marx, true, false), (galleom, true, true)] {
        let mut state = start;
        let effects = process_transform_calibration_input(&mut state, &route, debug, present, &input(3, true, true));
        assert_eq!(state, start);
        assert!(!effects.log_input && !effects.snapshot && !effects.reset_target);
        assert!(!effects.axis_cycled && !effects.target_cycled);
        assert_eq!(effects.delta_degrees, 0);
    }
    let mut state = start;
    let effects = process_transform_calibration_input(&mut state, &marx, true, true, &input(3, true, false));
    assert!(effects.log_input && effects.snapshot);
    assert!(state.chord_engaged);
}
