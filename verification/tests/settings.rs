use tiny4linux::panel::PanelState;
use tiny4linux::settings::{exposure_modes, preset_positions, tracking_mode_rows, tracking_speeds};
use tiny4linux::{AIMode, ExposureMode, TrackingSpeed, WindowMode};

#[test]
fn reduced_layout_offers_common_modes() {
    assert_eq!(
        tracking_mode_rows(true),
        vec![
            vec![AIMode::NoTracking, AIMode::NormalTracking],
            vec![AIMode::Hand, AIMode::Whiteboard, AIMode::Group],
        ]
    );
}

#[test]
fn full_layout_offers_all_modes() {
    let rows = tracking_mode_rows(false);
    assert_eq!(rows.len(), 3);
    assert_eq!(rows.iter().map(|r| r.len()).sum::<usize>(), 10);
    assert_eq!(rows[1], vec![AIMode::CloseUp, AIMode::UpperBody, AIMode::Headless, AIMode::LowerBody]);
}

#[test]
fn offered_buttons() {
    assert_eq!(preset_positions(), vec![0, 1, 2]);
    assert_eq!(tracking_speeds(), vec![TrackingSpeed::Standard, TrackingSpeed::Sport]);
    assert_eq!(exposure_modes(), vec![ExposureMode::Manual, ExposureMode::Global, ExposureMode::Face]);
}

#[test]
fn layout_follows_panel() {
    let p = PanelState::init(WindowMode::Widget, None).0;
    assert!(p.reduced_layout());
    assert!(!p.shows_zoom());
    assert!(!p.shows_controls());
    let q = PanelState::init(WindowMode::Dashboard, None).0;
    assert!(!q.reduced_layout());
}
