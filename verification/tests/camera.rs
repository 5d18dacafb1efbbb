use tiny4linux::camera::{
    call_verdict, command_selector, CallRunner, pan_range, tilt_range, CAMERA_UNIT, V4L2_CID_PAN_ABSOLUTE,
    V4L2_CID_TILT_ABSOLUTE,
};
use tiny4linux::{
    AIMode, Camera, CameraCall, CameraCommand, CameraStatus, CustomPreset, CustomPresetStore,
    ExposureMode, SleepMode, T4lError, Tiny2Camera, TrackingSpeed,
};

fn command(c: &CameraCall) -> (u8, u8, CameraCommand, bool, bool) {
    match c {
        CameraCall::SendCommand { unit, selector, command, debugging, must_succeed } => {
            (*unit, *selector, *command, *debugging, *must_succeed)
        }
        other => panic!("not a command: {:?}", other),
    }
}

#[test]
fn pan_range_keeps_proper_range() {
    assert_eq!(pan_range(Ok((-100, 200))), (-100, 200));
}

#[test]
fn pan_range_falls_back_on_degenerate_range() {
    assert_eq!(pan_range(Ok((0, 0))), (-648_000, 648_000));
    assert_eq!(pan_range(Ok((5, -5))), (-648_000, 648_000));
    assert_eq!(pan_range(Err(T4lError::InvalidSetting)), (-648_000, 648_000));
}

#[test]
fn tilt_range_falls_back_on_degenerate_range() {
    assert_eq!(tilt_range(Ok((1, 1))), (-324_000, 324_000));
    assert_eq!(tilt_range(Err(T4lError::InvalidSetting)), (-324_000, 324_000));
    assert_eq!(tilt_range(Ok((-10, 10))), (-10, 10));
}

#[test]
fn command_selectors() {
    assert_eq!(command_selector(CameraCommand::Sleep(SleepMode::Sleep)), 0x2);
    assert_eq!(command_selector(CameraCommand::AiMode(AIMode::Group)), 0x6);
    assert_eq!(command_selector(CameraCommand::GotoPresetPosition(1)), 0x2);
    assert_eq!(command_selector(CameraCommand::TrackingSpeed(TrackingSpeed::Sport)), 0x2);
    assert_eq!(command_selector(CameraCommand::Hdr(true)), 0x6);
    assert_eq!(command_selector(CameraCommand::ExposureModeType(ExposureMode::Face)), 0x2);
    assert_eq!(command_selector(CameraCommand::ExposureMode(ExposureMode::Face)), 0x6);
}

#[test]
fn debugging_flag_travels_with_commands() {
    let mut camera = Camera::new();
    assert!(!camera.is_debugging());
    let calls = camera.set_hdr_mode(true);
    assert_eq!(command(&calls[0]), (CAMERA_UNIT, 0x6, CameraCommand::Hdr(true), false, true));

    camera.set_debugging(true);
    assert!(camera.is_debugging());
    let calls = camera.set_sleep_mode(SleepMode::Sleep);
    assert_eq!(calls.len(), 1);
    assert_eq!(command(&calls[0]), (0x2, 0x2, CameraCommand::Sleep(SleepMode::Sleep), true, true));
}

#[test]
fn send_cmd_carries_bytes() {
    let camera = Camera::new();
    match camera.send_cmd(0x2, 0x6, &[0x16, 0x02, 0x00]) {
        CameraCall::SendRaw { unit, selector, data, debugging } => {
            assert_eq!((unit, selector, debugging), (0x2, 0x6, false));
            assert_eq!(data, vec![0x16, 0x02, 0x00]);
        }
        other => panic!("unexpected {:?}", other),
    }
}

#[test]
fn tracking_speed_reads_status_first() {
    let camera = Camera::new();
    let calls = camera.set_tracking_speed(TrackingSpeed::Sport);
    assert_eq!(calls.len(), 3);
    assert!(matches!(
        calls[0],
        CameraCall::CheckCommand { command: CameraCommand::TrackingSpeed(TrackingSpeed::Sport) }
    ));
    assert!(matches!(calls[1], CameraCall::ReadStatus { debugging: false }));
    assert_eq!(
        command(&calls[2]),
        (0x2, 0x2, CameraCommand::TrackingSpeed(TrackingSpeed::Sport), false, true)
    );
}

#[test]
fn exposure_mode_sends_type_then_mode() {
    let camera = Camera::new();
    let calls = camera.set_exposure_mode(ExposureMode::Manual);
    assert_eq!(calls.len(), 2);
    assert_eq!(
        command(&calls[0]),
        (0x2, 0x2, CameraCommand::ExposureModeType(ExposureMode::Manual), false, true)
    );
    assert_eq!(
        command(&calls[1]),
        (0x2, 0x6, CameraCommand::ExposureMode(ExposureMode::Manual), false, false)
    );
}

#[test]
fn positions_go_to_controls() {
    let camera = Camera::new();
    assert!(matches!(
        camera.set_pan_absolute(3600)[0],
        CameraCall::SetControl { id, value: 3600 } if id == V4L2_CID_PAN_ABSOLUTE
    ));
    assert!(matches!(
        camera.set_tilt_absolute(-3600)[0],
        CameraCall::SetControl { id, value: -3600 } if id == V4L2_CID_TILT_ABSOLUTE
    ));
    assert!(matches!(camera.set_zoom_absolute(120)[0], CameraCall::SetZoomAbsolute(120)));
    assert!(matches!(camera.goto_preset_position(2)[0], CameraCall::SendCommand { .. }));
    assert!(matches!(camera.get_status(), CameraCall::ReadStatus { debugging: false }));
    assert!(matches!(camera.info(), CameraCall::Info));
    assert!(matches!(camera.dump(), CameraCall::Dump));
    assert!(matches!(camera.dump_02(), CameraCall::Dump02));
}

#[test]
fn recall_custom_preset_moves_camera() {
    let mut store = CustomPresetStore::new();
    Camera::save_custom_preset(&mut store, "Desk", 100, -200, 150);
    let camera = Camera::new();
    let calls = camera.recall_custom_preset(&store, "Desk").unwrap();
    assert_eq!(calls.len(), 4);
    assert_eq!(command(&calls[0]), (0x2, 0x6, CameraCommand::AiMode(AIMode::NoTracking), false, true));
    assert!(matches!(calls[1], CameraCall::SetControl { id, value: 100 } if id == V4L2_CID_PAN_ABSOLUTE));
    assert!(matches!(calls[2], CameraCall::SetControl { id, value: -200 } if id == V4L2_CID_TILT_ABSOLUTE));
    assert!(matches!(calls[3], CameraCall::SetZoomAbsolute(150)));
}

#[test]
fn recall_missing_preset_errors() {
    let store = CustomPresetStore::from_presets(vec![CustomPreset::new("Desk", 0, 0, 0)]);
    match Camera::new().recall_custom_preset(&store, "Board") {
        Err(T4lError::PresetNotFound(name)) => assert_eq!(name, "Board"),
        other => panic!("unexpected {:?}", other),
    }
}

#[test]
fn default_status() {
    let s = CameraStatus::default();
    assert_eq!(s.awake, SleepMode::Awake);
    assert_eq!(s.ai_mode, AIMode::NoTracking);
    assert_eq!(s.speed, TrackingSpeed::Standard);
    assert!(!s.hdr_on);
}

#[test]
fn run_stops_at_first_counted_failure() {
    let camera = Camera::new();
    let mut run = CallRunner::new(camera.set_tracking_speed(TrackingSpeed::Standard));
    assert!(matches!(run.next_call(), Some(CameraCall::CheckCommand { .. })));
    run.record(Ok(()));
    assert!(matches!(run.next_call(), Some(CameraCall::ReadStatus { .. })));
    run.record(Err(T4lError::InvalidSetting));
    assert!(run.next_call().is_none());
    assert!(matches!(run.finish(), Err(T4lError::InvalidSetting)));
}

#[test]
fn run_ignores_failure_of_optional_exchange() {
    let camera = Camera::new();
    let mut run = CallRunner::new(camera.set_exposure_mode(ExposureMode::Face));
    run.record(Ok(()));
    assert!(run.next_call().is_some());
    run.record(Err(T4lError::InvalidSetting));
    assert!(run.next_call().is_none());
    assert!(run.finish().is_ok());
}

#[test]
fn run_of_exposure_stops_when_type_fails() {
    let camera = Camera::new();
    let mut run = CallRunner::new(camera.set_exposure_mode(ExposureMode::Face));
    run.record(Err(T4lError::Io("gone".to_string())));
    assert!(run.next_call().is_none());
    assert!(matches!(run.finish(), Err(T4lError::Io(_))));
}

#[test]
fn run_of_recall_issues_all_on_success() {
    let mut store = CustomPresetStore::new();
    Camera::save_custom_preset(&mut store, "Desk", 1, 2, 3);
    let mut run = CallRunner::new(Camera::new().recall_custom_preset(&store, "Desk").unwrap());
    let mut issued = 0;
    while run.next_call().is_some() {
        run.record(Ok(()));
        issued += 1;
    }
    assert_eq!(issued, 4);
    assert!(run.finish().is_ok());
}

#[test]
fn verdicts() {
    let camera = Camera::new();
    let calls = camera.set_exposure_mode(ExposureMode::Global);
    assert!(call_verdict(&calls[0], Err(T4lError::InvalidSetting)).is_err());
    assert!(call_verdict(&calls[1], Err(T4lError::InvalidSetting)).is_ok());
    assert!(call_verdict(&calls[0], Ok(())).is_ok());
}

#[test]
fn status_getters_project_the_reading() {
    let camera = Camera::new();
    let status = CameraStatus {
        awake: SleepMode::Sleep,
        ai_mode: AIMode::DeskMode,
        speed: TrackingSpeed::Sport,
        hdr_on: false,
    };
    assert_eq!(camera.get_sleep_mode(Ok(status)).unwrap(), SleepMode::Sleep);
    assert_eq!(camera.get_ai_mode(Ok(status)).unwrap(), AIMode::DeskMode);
    assert_eq!(camera.get_tracking_speed(Ok(status)).unwrap(), TrackingSpeed::Sport);
    assert!(matches!(camera.get_sleep_mode(Err(T4lError::InvalidSetting)), Err(T4lError::InvalidSetting)));
}

#[test]
fn camera_preset_forwarding() {
    let camera = Camera::new();
    let mut store = CustomPresetStore::new();
    Camera::save_custom_preset(&mut store, "Desk", 1, 2, 3);
    assert_eq!(camera.get_custom_presets(&store), vec![CustomPreset::new("Desk", 1, 2, 3)]);
    assert!(camera.delete_custom_preset(&mut store, "Desk").is_ok());
    assert!(camera.delete_custom_preset(&mut store, "Desk").is_err());
    assert!(camera.get_custom_presets(&store).is_empty());
}
