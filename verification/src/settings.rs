use vstd::prelude::*;

use crate::enums::{AIMode, ExposureMode, TrackingSpeed};
use crate::panel::PanelState;
use crate::startup::WindowMode;

verus! {

/// The rows of tracking mode buttons: the reduced widget layout offers the
/// common modes only, the dashboard all of them.
pub open spec fn tracking_rows_spec(reduced: bool) -> Seq<Seq<AIMode>> {
    if reduced {
        seq![
            seq![AIMode::NoTracking, AIMode::NormalTracking],
            seq![AIMode::Hand, AIMode::Whiteboard, AIMode::Group],
        ]
    } else {
        seq![
            seq![AIMode::NoTracking, AIMode::NormalTracking],
            seq![AIMode::CloseUp, AIMode::UpperBody, AIMode::Headless, AIMode::LowerBody],
            seq![AIMode::DeskMode, AIMode::Whiteboard, AIMode::Hand, AIMode::Group],
        ]
    }
}

/// Whether `m` has a button in `rows`.
pub open spec fn offers(rows: Seq<Seq<AIMode>>, m: AIMode) -> bool {
    exists|i: int, j: int| 0 <= i < rows.len() && 0 <= j < rows[i].len() && #[trigger] rows[i][j] == m
}

/// The full layout offers a button for every tracking mode and no mode twice;
/// every mode the reduced layout offers, the full layout offers too.
pub proof fn law_tracking_rows_cover_modes(m: AIMode)
    ensures
        offers(tracking_rows_spec(false), m),
        offers(tracking_rows_spec(true), m) ==> offers(tracking_rows_spec(false), m),
        forall|i: int, j: int, k: int, l: int|
            0 <= i < tracking_rows_spec(false).len() && 0 <= j < tracking_rows_spec(false)[i].len()
                && 0 <= k < tracking_rows_spec(false).len() && 0 <= l < tracking_rows_spec(false)[k].len()
                && (i != k || j != l) ==> #[trigger] tracking_rows_spec(false)[i][j] != #[trigger] tracking_rows_spec(false)[k][l],
        forall|i: int, j: int, k: int, l: int|
            0 <= i < tracking_rows_spec(true).len() && 0 <= j < tracking_rows_spec(true)[i].len()
                && 0 <= k < tracking_rows_spec(true).len() && 0 <= l < tracking_rows_spec(true)[k].len()
                && (i != k || j != l) ==> #[trigger] tracking_rows_spec(true)[i][j] != #[trigger] tracking_rows_spec(true)[k][l],
{
    let full = tracking_rows_spec(false);
    let r0 = full[0];
    let r1 = full[1];
    let r2 = full[2];
    assert(full.len() == 3);
    assert(r0.len() == 2 && r1.len() == 4 && r2.len() == 4);
    match m {
        AIMode::NoTracking => assert(full[0][0] == m),
        AIMode::NormalTracking => assert(full[0][1] == m),
        AIMode::CloseUp => assert(full[1][0] == m),
        AIMode::UpperBody => assert(full[1][1] == m),
        AIMode::Headless => assert(full[1][2] == m),
        AIMode::LowerBody => assert(full[1][3] == m),
        AIMode::DeskMode => assert(full[2][0] == m),
        AIMode::Whiteboard => assert(full[2][1] == m),
        AIMode::Hand => assert(full[2][2] == m),
        AIMode::Group => assert(full[2][3] == m),
    }
    assert forall|i: int, j: int, k: int, l: int|
        0 <= i < full.len() && 0 <= j < full[i].len() && 0 <= k < full.len() && 0 <= l < full[k].len()
            && (i != k || j != l) implies #[trigger] full[i][j] != #[trigger] full[k][l] by {
        assert(i == 0 || i == 1 || i == 2);
        assert(k == 0 || k == 1 || k == 2);
    }
    let red = tracking_rows_spec(true);
    assert(red.len() == 2 && red[0].len() == 2 && red[1].len() == 3);
    assert forall|i: int, j: int, k: int, l: int|
        0 <= i < red.len() && 0 <= j < red[i].len() && 0 <= k < red.len() && 0 <= l < red[k].len()
            && (i != k || j != l) implies #[trigger] red[i][j] != #[trigger] red[k][l] by {
        assert(i == 0 || i == 1);
        assert(k == 0 || k == 1);
    }
}

/// The rows of tracking mode buttons for the reduced or the full layout.
pub fn tracking_mode_rows(reduced: bool) -> (rows: Vec<Vec<AIMode>>)
    ensures
        rows@.map_values(|r: Vec<AIMode>| r@) == tracking_rows_spec(reduced),
{
    let rows = if reduced {
        vec![
            vec![AIMode::NoTracking, AIMode::NormalTracking],
            vec![AIMode::Hand, AIMode::Whiteboard, AIMode::Group],
        ]
    } else {
        vec![
            vec![AIMode::NoTracking, AIMode::NormalTracking],
            vec![AIMode::CloseUp, AIMode::UpperBody, AIMode::Headless, AIMode::LowerBody],
            vec![AIMode::DeskMode, AIMode::Whiteboard, AIMode::Hand, AIMode::Group],
        ]
    };
    assert(rows@.map_values(|r: Vec<AIMode>| r@) =~= tracking_rows_spec(reduced));
    rows
}

/// The built-in preset positions offered, in button order; each button is
/// labelled with its position plus one.
pub fn preset_positions() -> (p: Vec<i8>)
    ensures
        p@ == seq![0i8, 1i8, 2i8],
{
    vec![0, 1, 2]
}

/// The tracking speeds offered, in button order.
pub fn tracking_speeds() -> (s: Vec<TrackingSpeed>)
    ensures
        s@ == seq![TrackingSpeed::Standard, TrackingSpeed::Sport],
{
    vec![TrackingSpeed::Standard, TrackingSpeed::Sport]
}

/// The exposure modes offered, in button order.
pub fn exposure_modes() -> (m: Vec<ExposureMode>)
    ensures
        m@ == seq![ExposureMode::Manual, ExposureMode::Global, ExposureMode::Face],
{
    vec![ExposureMode::Manual, ExposureMode::Global, ExposureMode::Face]
}

impl PanelState {
    /// Whether the settings use the reduced layout, which the widget window does.
    pub fn reduced_layout(&self) -> (r: bool)
        ensures
            r == (self.window_mode == WindowMode::Widget),
    {
        self.window_mode == WindowMode::Widget
    }

    /// Whether the zoom controls are shown: only while the zoom is known.
    pub fn shows_zoom(&self) -> (r: bool)
        ensures
            r == self.zoom is Some,
    {
        self.zoom.is_some()
    }

    /// Whether the controls are shown at all: only while a camera is connected;
    /// otherwise the panel says that there is none.
    pub fn shows_controls(&self) -> (r: bool)
        ensures
            r == self.camera is Some,
    {
        self.camera.is_some()
    }
}

} // verus!
