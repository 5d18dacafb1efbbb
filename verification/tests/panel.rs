use tiny4linux::camera::{V4L2_CID_PAN_ABSOLUTE, V4L2_CID_TILT_ABSOLUTE};
use tiny4linux::panel::{CameraReadings, PanelEffect, PanelEvent, PanelState};
use tiny4linux::{
    AIMode, CameraCall, CameraCommand, CameraStatus, CustomPreset, CustomPresetStore, ExposureMode,
    SleepMode, T4lError, TrackingSpeed, WindowMode,
};

fn readings() -> CameraReadings {
    CameraReadings {
        status: Ok(CameraStatus {
            awake: SleepMode::Sleep,
            ai_mode: AIMode::Group,
            speed: TrackingSpeed::Sport,
            hdr_on: true,
        }),
        zoom_range: Ok((100, 400)),
        zoom: Ok(150),
        pan_range: Ok((0, 0)),
        pan: Ok(-1200),
        tilt_range: Ok((-1000, 1000)),
        tilt: Err(T4lError::InvalidSetting),
        presets: vec![CustomPreset::new("Desk", 1, 2, 3)],
    }
}

fn panel() -> PanelState {
    PanelState::init(WindowMode::Dashboard, Some(readings())).0
}

fn camera_calls(effects: &[PanelEffect]) -> Vec<&CameraCall> {
    effects
        .iter()
        .map(|e| match e {
            PanelEffect::Camera(c) => c,
            other => panic!("not a camera effect: {:?}", other),
        })
        .collect()
}

#[test]
fn init_from_readings() {
    let p = panel();
    assert!(p.camera.is_some());
    assert_eq!(p.awake, SleepMode::Sleep);
    assert_eq!(p.tracking, AIMode::Group);
    assert_eq!(p.tracking_speed, TrackingSpeed::Sport);
    assert!(p.hdr_on);
    assert_eq!((p.zoom, p.zoom_min, p.zoom_max), (Some(150), 100, 400));
    assert_eq!(p.zoom_text, "150");
    assert_eq!((p.pan, p.pan_min, p.pan_max), (Some(-1200), -648_000, 648_000));
    assert_eq!(p.pan_text, "-1200");
    assert_eq!((p.tilt, p.tilt_min, p.tilt_max), (None, -1000, 1000));
    assert_eq!(p.tilt_text, "");
    assert_eq!(p.custom_presets, vec![CustomPreset::new("Desk", 1, 2, 3)]);
    assert!(!p.debugging_on);
    assert_eq!(p.check_interval_secs(), 20);
}

#[test]
fn init_asks_for_main_window_id() {
    let (_, effects) = PanelState::init(WindowMode::Dashboard, Some(readings()));
    assert!(matches!(effects[..], [PanelEffect::RequestMainWindowId]));
    let (_, effects) = PanelState::init(WindowMode::Widget, None);
    assert!(matches!(effects[..], [PanelEffect::RequestMainWindowId]));
}

#[test]
fn init_without_camera() {
    let p = PanelState::init(WindowMode::Widget, None).0;
    assert!(p.camera.is_none());
    assert_eq!(p.window_mode, WindowMode::Widget);
    assert_eq!(p.awake, SleepMode::Awake);
    assert_eq!((p.zoom_min, p.zoom_max, p.pan_min, p.pan_max), (0, 0, 0, 0));
    assert!(p.custom_presets.is_empty());
    assert_eq!(p.check_interval_secs(), 4);
}

#[test]
fn failed_check_drops_camera_and_ignores_event() {
    let mut p = panel();
    let mut store = CustomPresetStore::new();
    let effects = p.update(PanelEvent::ChangeHDR(false), false, &mut store);
    assert!(effects.is_empty());
    assert!(p.camera.is_none());
    assert!(p.hdr_on);
}

#[test]
fn no_camera_and_none_found_ignores_event() {
    let mut p = PanelState::init(WindowMode::Dashboard, None).0;
    let mut store = CustomPresetStore::new();
    let effects = p.update(PanelEvent::ApplyWindowMode(WindowMode::Widget), false, &mut store);
    assert!(effects.is_empty());
    assert_eq!(p.window_mode, WindowMode::Dashboard);
}

#[test]
fn reconnected_camera_starts_without_logging() {
    let mut p = panel();
    let mut store = CustomPresetStore::new();
    p.update(PanelEvent::ChangeDebugging(true), true, &mut store);
    assert!(p.debugging_on);
    assert!(p.camera.unwrap().is_debugging());
    p.update(PanelEvent::CheckCamera, false, &mut store);
    p.update(PanelEvent::CheckCamera, true, &mut store);
    assert!(p.debugging_on);
    assert!(!p.camera.unwrap().is_debugging());
}

#[test]
fn change_sleeping_sends_sleep_command() {
    let mut p = panel();
    let mut store = CustomPresetStore::new();
    let effects = p.update(PanelEvent::ChangeSleeping(false), true, &mut store);
    assert_eq!(p.awake, SleepMode::Awake);
    let calls = camera_calls(&effects);
    assert_eq!(calls.len(), 1);
    assert!(matches!(
        calls[0],
        CameraCall::SendCommand { unit: 0x2, selector: 0x2, command: CameraCommand::Sleep(SleepMode::Awake), .. }
    ));
}

#[test]
fn preset_position_stops_tracking_first() {
    let mut p = panel();
    let mut store = CustomPresetStore::new();
    let effects = p.update(PanelEvent::ChangePresetPosition(1), true, &mut store);
    assert_eq!(p.tracking, AIMode::NoTracking);
    assert_eq!(p.awake, SleepMode::Awake);
    let calls = camera_calls(&effects);
    assert_eq!(calls.len(), 2);
    assert!(matches!(calls[0], CameraCall::SendCommand { command: CameraCommand::AiMode(AIMode::NoTracking), .. }));
    assert!(matches!(calls[1], CameraCall::SendCommand { command: CameraCommand::GotoPresetPosition(1), .. }));
}

#[test]
fn exposure_changes_no_state() {
    let mut p = panel();
    let mut store = CustomPresetStore::new();
    let effects = p.update(PanelEvent::ChangeExposure(ExposureMode::Global), true, &mut store);
    assert_eq!(camera_calls(&effects).len(), 2);
}

#[test]
fn change_zoom_sets_text() {
    let mut p = panel();
    let mut store = CustomPresetStore::new();
    let effects = p.update(PanelEvent::ChangeZoom(275), true, &mut store);
    assert_eq!(p.zoom, Some(275));
    assert_eq!(p.zoom_text, "275");
    assert!(matches!(camera_calls(&effects)[0], CameraCall::SetZoomAbsolute(275)));
}

#[test]
fn change_pan_is_clamped() {
    let mut p = panel();
    let mut store = CustomPresetStore::new();
    let effects = p.update(PanelEvent::ChangePan(700_000), true, &mut store);
    assert_eq!(p.pan, Some(648_000));
    assert_eq!(p.pan_text, "648000");
    assert!(matches!(
        camera_calls(&effects)[0],
        CameraCall::SetControl { id, value: 648_000 } if *id == V4L2_CID_PAN_ABSOLUTE
    ));
    p.update(PanelEvent::ChangeTilt(-5000), true, &mut store);
    assert_eq!(p.tilt, Some(-1000));
    assert_eq!(p.tilt_text, "-1000");
    p.update(PanelEvent::ChangeTilt(42), true, &mut store);
    assert_eq!(p.tilt, Some(42));
}

#[test]
fn save_needs_name_and_position() {
    let mut p = panel();
    let mut store = CustomPresetStore::from_presets(p.custom_presets.clone());
    p.update(PanelEvent::CustomPresetName("   ".to_string()), true, &mut store);
    assert!(p.update(PanelEvent::SaveCustomPreset, true, &mut store).is_empty());
    p.update(PanelEvent::CustomPresetName("Window".to_string()), true, &mut store);
    // The tilt is not known yet.
    assert!(p.update(PanelEvent::SaveCustomPreset, true, &mut store).is_empty());
    assert_eq!(store.len(), 1);
    assert_eq!(p.custom_preset_name, "Window");
}

#[test]
fn save_then_recall() {
    let mut p = panel();
    let mut store = CustomPresetStore::from_presets(p.custom_presets.clone());
    p.update(PanelEvent::ChangeTilt(300), true, &mut store);
    p.update(PanelEvent::CustomPresetName("Window".to_string()), true, &mut store);
    let effects = p.update(PanelEvent::SaveCustomPreset, true, &mut store);
    assert!(matches!(effects[..], [PanelEffect::PersistPresets]));
    assert_eq!(p.custom_preset_name, "");
    assert_eq!(p.custom_presets.len(), 2);
    assert_eq!(p.custom_presets, store.load());
    assert_eq!(store.find("Window").unwrap(), CustomPreset::new("Window", -1200, 300, 150));

    p.update(PanelEvent::ChangeZoom(400), true, &mut store);
    p.update(PanelEvent::ChangeTracking(AIMode::Hand), true, &mut store);
    let effects = p.update(PanelEvent::RecallCustomPreset("Window".to_string()), true, &mut store);
    assert_eq!((p.pan, p.tilt, p.zoom), (Some(-1200), Some(300), Some(150)));
    assert_eq!(p.zoom_text, "150");
    assert_eq!(p.tracking, AIMode::NoTracking);
    let calls = camera_calls(&effects);
    assert_eq!(calls.len(), 4);
    assert!(matches!(calls[2], CameraCall::SetControl { id, value: 300 } if *id == V4L2_CID_TILT_ABSOLUTE));
}

#[test]
fn missing_presets_are_not_accepted() {
    let p = panel();
    let mut store = CustomPresetStore::new();
    assert!(!p.accepts(&PanelEvent::RecallCustomPreset("Nope".to_string()), &store));
    assert!(!p.accepts(&PanelEvent::DeleteCustomPreset("Nope".to_string()), &store));
    store.save(&CustomPreset::new("Yes", 0, 0, 0));
    assert!(p.accepts(&PanelEvent::RecallCustomPreset("Yes".to_string()), &store));
    assert!(p.accepts(&PanelEvent::DeleteCustomPreset("Yes".to_string()), &store));
    assert!(p.accepts(&PanelEvent::ChangePan(5), &store));
}

#[test]
fn delete_updates_list() {
    let mut p = panel();
    let mut store = CustomPresetStore::from_presets(p.custom_presets.clone());
    let effects = p.update(PanelEvent::DeleteCustomPreset("Desk".to_string()), true, &mut store);
    assert!(matches!(effects[..], [PanelEffect::PersistPresets]));
    assert!(p.custom_presets.is_empty());
    assert_eq!(store.len(), 0);
}

#[test]
fn send_command_decodes_hex() {
    let mut p = panel();
    let mut store = CustomPresetStore::new();
    p.update(PanelEvent::TextInput("0a0B".to_string()), true, &mut store);
    let effects = p.update(PanelEvent::SendCommand, true, &mut store);
    match &camera_calls(&effects)[..] {
        [CameraCall::SendRaw { unit, selector, data, .. }] => {
            assert_eq!((*unit, *selector), (0x2, 0x6));
            assert_eq!(data, &vec![0x0a, 0x0b]);
        }
        other => panic!("unexpected {:?}", other),
    }
    p.update(PanelEvent::TextInput02("ff00".to_string()), true, &mut store);
    let effects = p.update(PanelEvent::SendCommand02, true, &mut store);
    assert!(matches!(camera_calls(&effects)[0], CameraCall::SendRaw { selector: 0x2, .. }));
}

#[test]
fn bad_hex_is_not_accepted() {
    let mut p = panel();
    let mut store = CustomPresetStore::new();
    p.update(PanelEvent::TextInput("abc".to_string()), true, &mut store);
    assert!(!p.accepts(&PanelEvent::SendCommand, &store));
    p.update(PanelEvent::TextInput("0g".to_string()), true, &mut store);
    assert!(!p.accepts(&PanelEvent::SendCommand, &store));
    p.update(PanelEvent::TextInput("0a".to_string()), true, &mut store);
    assert!(p.accepts(&PanelEvent::SendCommand, &store));
    assert!(p.accepts(&PanelEvent::SendCommand02, &store));
}

#[test]
fn window_events() {
    let mut p = panel();
    let mut store = CustomPresetStore::new();
    let effects = p.update(PanelEvent::RequestWindowModeChange(WindowMode::Widget), true, &mut store);
    assert!(matches!(effects[..], [PanelEffect::ReopenWindow(WindowMode::Widget)]));
    assert_eq!(p.window_mode, WindowMode::Dashboard);
    p.update(PanelEvent::ApplyWindowMode(WindowMode::Widget), true, &mut store);
    assert_eq!(p.window_mode, WindowMode::Widget);
    let effects = p.update(PanelEvent::ChangeMainWindowId, true, &mut store);
    assert!(matches!(effects[..], [PanelEffect::StoreMainWindowId]));
}

#[test]
fn zoom_text_submission_parses() {
    let mut p = panel();
    let mut store = CustomPresetStore::new();
    p.update(PanelEvent::ChangeZoomText("-42".to_string()), true, &mut store);
    assert!(matches!(p.zoom_text_submission(), Some(PanelEvent::ChangeZoom(-42))));
    p.update(PanelEvent::ChangeZoomText("+7".to_string()), true, &mut store);
    assert!(matches!(p.zoom_text_submission(), Some(PanelEvent::ChangeZoom(7))));
    p.update(PanelEvent::ChangeZoomText(" 7".to_string()), true, &mut store);
    assert!(p.zoom_text_submission().is_none());
    p.update(PanelEvent::ChangeZoomText("3000000000".to_string()), true, &mut store);
    assert!(p.zoom_text_submission().is_none());
    assert_eq!(p.zoom_slider_value(), 150);
    let q = PanelState::init(WindowMode::Dashboard, None).0;
    assert_eq!(q.zoom_slider_value(), 0);
}
