use vstd::prelude::*;
use vstd::utf8::encode_utf8;

use crate::camera::{
    command_call, pan_range, tilt_range, Camera, CameraCall, CameraCommand, CAMERA_UNIT,
    PAN_FALLBACK_LIMIT, TILT_FALLBACK_LIMIT, V4L2_CID_PAN_ABSOLUTE, V4L2_CID_TILT_ABSOLUTE,
    range_or_fallback, Tiny2Camera,
};
use crate::enums::{AIMode, CameraStatus, ExposureMode, SleepMode, TrackingSpeed};
use crate::error::T4lError;
use crate::hexinput::{hex_decode, hex_decode_spec};
use crate::presets::{
    deleted_spec, find_spec, has_name, saved_spec, CustomPreset, CustomPresetStore, PresetView,
};
use crate::startup::WindowMode;
use crate::text::{i32_decimal, i32_to_string, is_blank, is_blank_text, parse_i32, parse_i32_spec};

verus! {

/// The state of the control panel.
pub struct PanelState {
    /// The connected camera, if any.
    pub camera: Option<Camera>,
    pub window_mode: WindowMode,
    pub awake: SleepMode,
    pub tracking: AIMode,
    pub tracking_speed: TrackingSpeed,
    pub hdr_on: bool,
    pub zoom: Option<i32>,
    pub zoom_min: i32,
    pub zoom_max: i32,
    pub zoom_text: String,
    pub pan: Option<i32>,
    pub pan_min: i32,
    pub pan_max: i32,
    pub pan_text: String,
    pub tilt: Option<i32>,
    pub tilt_min: i32,
    pub tilt_max: i32,
    pub tilt_text: String,
    pub custom_presets: Vec<CustomPreset>,
    pub custom_preset_name: String,
    pub debugging_on: bool,
    /// Hex bytes to send to selector 0x6.
    pub text_input: String,
    /// Hex bytes to send to selector 0x2.
    pub text_input_02: String,
}

/// The mathematical value of the panel state; `camera` is the connected
/// camera's logging flag.
pub struct PanelView {
    pub camera: Option<bool>,
    pub window_mode: WindowMode,
    pub awake: SleepMode,
    pub tracking: AIMode,
    pub tracking_speed: TrackingSpeed,
    pub hdr_on: bool,
    pub zoom: Option<i32>,
    pub zoom_min: i32,
    pub zoom_max: i32,
    pub zoom_text: Seq<char>,
    pub pan: Option<i32>,
    pub pan_min: i32,
    pub pan_max: i32,
    pub pan_text: Seq<char>,
    pub tilt: Option<i32>,
    pub tilt_min: i32,
    pub tilt_max: i32,
    pub tilt_text: Seq<char>,
    pub custom_presets: Seq<PresetView>,
    pub custom_preset_name: Seq<char>,
    pub debugging_on: bool,
    pub text_input: Seq<char>,
    pub text_input_02: Seq<char>,
}

impl View for PanelState {
    type V = PanelView;

    open spec fn view(&self) -> PanelView {
        PanelView {
            camera: match self.camera {
                Some(c) => Some(c.spec_debugging()),
                None => None,
            },
            window_mode: self.window_mode,
            awake: self.awake,
            tracking: self.tracking,
            tracking_speed: self.tracking_speed,
            hdr_on: self.hdr_on,
            zoom: self.zoom,
            zoom_min: self.zoom_min,
            zoom_max: self.zoom_max,
            zoom_text: self.zoom_text@,
            pan: self.pan,
            pan_min: self.pan_min,
            pan_max: self.pan_max,
            pan_text: self.pan_text@,
            tilt: self.tilt,
            tilt_min: self.tilt_min,
            tilt_max: self.tilt_max,
            tilt_text: self.tilt_text@,
            custom_presets: self.custom_presets@.map_values(|p: CustomPreset| p@),
            custom_preset_name: self.custom_preset_name@,
            debugging_on: self.debugging_on,
            text_input: self.text_input@,
            text_input_02: self.text_input_02@,
        }
    }
}

/// What the user or the windowing layer asks of the panel.
#[derive(Debug)]
pub enum PanelEvent {
    RequestWindowModeChange(WindowMode),
    ApplyWindowMode(WindowMode),
    /// The windowing layer has a new main window id; the id itself stays there.
    ChangeMainWindowId,
    ChangeSleeping(bool),
    ChangeTracking(AIMode),
    ChangeTrackingSpeed(TrackingSpeed),
    ChangePresetPosition(i8),
    ChangeHDR(bool),
    ChangeExposure(ExposureMode),
    ChangeZoom(i32),
    ChangeZoomText(String),
    ChangePan(i32),
    ChangePanText(String),
    ChangeTilt(i32),
    ChangeTiltText(String),
    CustomPresetName(String),
    SaveCustomPreset,
    RecallCustomPreset(String),
    DeleteCustomPreset(String),
    ChangeDebugging(bool),
    TextInput(String),
    TextInput02(String),
    CheckCamera,
    SendCommand,
    SendCommand02,
    HexDump,
    HexDump02,
}

/// The mathematical value of an event.
pub enum EventView {
    RequestWindowModeChange(WindowMode),
    ApplyWindowMode(WindowMode),
    ChangeMainWindowId,
    ChangeSleeping(bool),
    ChangeTracking(AIMode),
    ChangeTrackingSpeed(TrackingSpeed),
    ChangePresetPosition(i8),
    ChangeHDR(bool),
    ChangeExposure(ExposureMode),
    ChangeZoom(i32),
    ChangeZoomText(Seq<char>),
    ChangePan(i32),
    ChangePanText(Seq<char>),
    ChangeTilt(i32),
    ChangeTiltText(Seq<char>),
    CustomPresetName(Seq<char>),
    SaveCustomPreset,
    RecallCustomPreset(Seq<char>),
    DeleteCustomPreset(Seq<char>),
    ChangeDebugging(bool),
    TextInput(Seq<char>),
    TextInput02(Seq<char>),
    CheckCamera,
    SendCommand,
    SendCommand02,
    HexDump,
    HexDump02,
}

impl View for PanelEvent {
    type V = EventView;

    open spec fn view(&self) -> EventView {
        match self {
            PanelEvent::RequestWindowModeChange(m) => EventView::RequestWindowModeChange(*m),
            PanelEvent::ApplyWindowMode(m) => EventView::ApplyWindowMode(*m),
            PanelEvent::ChangeMainWindowId => EventView::ChangeMainWindowId,
            PanelEvent::ChangeSleeping(b) => EventView::ChangeSleeping(*b),
            PanelEvent::ChangeTracking(t) => EventView::ChangeTracking(*t),
            PanelEvent::ChangeTrackingSpeed(s) => EventView::ChangeTrackingSpeed(*s),
            PanelEvent::ChangePresetPosition(n) => EventView::ChangePresetPosition(*n),
            PanelEvent::ChangeHDR(b) => EventView::ChangeHDR(*b),
            PanelEvent::ChangeExposure(m) => EventView::ChangeExposure(*m),
            PanelEvent::ChangeZoom(v) => EventView::ChangeZoom(*v),
            PanelEvent::ChangeZoomText(s) => EventView::ChangeZoomText(s@),
            PanelEvent::ChangePan(v) => EventView::ChangePan(*v),
            PanelEvent::ChangePanText(s) => EventView::ChangePanText(s@),
            PanelEvent::ChangeTilt(v) => EventView::ChangeTilt(*v),
            PanelEvent::ChangeTiltText(s) => EventView::ChangeTiltText(s@),
            PanelEvent::CustomPresetName(s) => EventView::CustomPresetName(s@),
            PanelEvent::SaveCustomPreset => EventView::SaveCustomPreset,
            PanelEvent::RecallCustomPreset(s) => EventView::RecallCustomPreset(s@),
            PanelEvent::DeleteCustomPreset(s) => EventView::DeleteCustomPreset(s@),
            PanelEvent::ChangeDebugging(b) => EventView::ChangeDebugging(*b),
            PanelEvent::TextInput(s) => EventView::TextInput(s@),
            PanelEvent::TextInput02(s) => EventView::TextInput02(s@),
            PanelEvent::CheckCamera => EventView::CheckCamera,
            PanelEvent::SendCommand => EventView::SendCommand,
            PanelEvent::SendCommand02 => EventView::SendCommand02,
            PanelEvent::HexDump => EventView::HexDump,
            PanelEvent::HexDump02 => EventView::HexDump02,
        }
    }
}

/// What the panel asks its surroundings to do, in order. Every effect must
/// succeed, a camera exchange as `call_verdict` judges it: the panel has no way
/// to recover from a failed one.
#[derive(Debug)]
pub enum PanelEffect {
    /// Carry out an exchange with the camera.
    Camera(CameraCall),
    /// Close the main window, open one laid out for the mode, then deliver
    /// `ApplyWindowMode` with it.
    ReopenWindow(WindowMode),
    /// Keep the id that came with `ChangeMainWindowId` as the main window's.
    StoreMainWindowId,
    /// Ask the windowing layer for the id of the latest window and deliver it
    /// with `ChangeMainWindowId`.
    RequestMainWindowId,
    /// Write the preset store to the preset file.
    PersistPresets,
}

/// The mathematical value of a camera exchange.
pub enum CallView {
    SendCommand { unit: u8, selector: u8, command: CameraCommand, debugging: bool, must_succeed: bool },
    SendRaw { unit: u8, selector: u8, data: Seq<u8>, debugging: bool },
    CheckCommand { command: CameraCommand },
    ReadStatus { debugging: bool },
    SetControl { id: u32, value: i32 },
    SetZoomAbsolute(i32),
    Info,
    Dump,
    Dump02,
}

impl View for CameraCall {
    type V = CallView;

    open spec fn view(&self) -> CallView {
        match self {
            CameraCall::SendCommand { unit, selector, command, debugging, must_succeed } =>
                CallView::SendCommand {
                unit: *unit,
                selector: *selector,
                command: *command,
                debugging: *debugging,
                must_succeed: *must_succeed,
            },
            CameraCall::SendRaw { unit, selector, data, debugging } => CallView::SendRaw {
                unit: *unit,
                selector: *selector,
                data: data@,
                debugging: *debugging,
            },
            CameraCall::CheckCommand { command } => CallView::CheckCommand { command: *command },
            CameraCall::ReadStatus { debugging } => CallView::ReadStatus { debugging: *debugging },
            CameraCall::SetControl { id, value } => CallView::SetControl { id: *id, value: *value },
            CameraCall::SetZoomAbsolute(v) => CallView::SetZoomAbsolute(*v),
            CameraCall::Info => CallView::Info,
            CameraCall::Dump => CallView::Dump,
            CameraCall::Dump02 => CallView::Dump02,
        }
    }
}

/// The mathematical value of an effect.
pub enum EffectView {
    Camera(CallView),
    ReopenWindow(WindowMode),
    StoreMainWindowId,
    RequestMainWindowId,
    PersistPresets,
}

impl View for PanelEffect {
    type V = EffectView;

    open spec fn view(&self) -> EffectView {
        match self {
            PanelEffect::Camera(c) => EffectView::Camera(c@),
            PanelEffect::ReopenWindow(m) => EffectView::ReopenWindow(*m),
            PanelEffect::StoreMainWindowId => EffectView::StoreMainWindowId,
            PanelEffect::RequestMainWindowId => EffectView::RequestMainWindowId,
            PanelEffect::PersistPresets => EffectView::PersistPresets,
        }
    }
}

/// Sending `command` to the camera, its failure to be reported.
pub open spec fn send(command: CameraCommand, debugging: bool) -> EffectView {
    EffectView::Camera(command_call(command, debugging)@)
}

/// `v` kept within `lo..=hi`.
pub open spec fn clamp_spec(v: i32, lo: i32, hi: i32) -> i32 {
    if v < lo {
        lo
    } else if v > hi {
        hi
    } else {
        v
    }
}

/// `v` kept within `lo..=hi`, as `Ord::clamp` keeps it; `Ord::clamp` panics
/// where `lo > hi`, which `requires` leaves out.
fn clamp_i32(v: i32, lo: i32, hi: i32) -> (r: i32)
    requires
        lo <= hi,
    ensures
        r == clamp_spec(v, lo, hi),
{
    if v < lo {
        lo
    } else if v > hi {
        hi
    } else {
        v
    }
}

/// The outcome of a step: the panel after it, its effects in order, and the preset store after it.
pub struct StepView {
    pub panel: PanelView,
    pub effects: Seq<EffectView>,
    pub store: Seq<PresetView>,
}

/// The events that the panel can handle once the camera check has passed: the
/// pan and tilt ranges must be ordered to clamp to them, a preset must be stored
/// to be recalled or deleted, and the command text must be valid hex to be sent.
pub open spec fn accepts_spec(s: PanelView, e: EventView, store: Seq<PresetView>) -> bool {
    match e {
        EventView::ChangePan(_) => s.pan_min <= s.pan_max,
        EventView::ChangeTilt(_) => s.tilt_min <= s.tilt_max,
        EventView::RecallCustomPreset(name) => has_name(store, name),
        EventView::DeleteCustomPreset(name) => has_name(store, name),
        EventView::SendCommand => hex_decode_spec(encode_utf8(s.text_input)) is Ok,
        EventView::SendCommand02 => hex_decode_spec(encode_utf8(s.text_input_02)) is Ok,
        _ => true,
    }
}

/// How the panel handles `e` once a camera is connected; `debugging` is that camera's logging flag.
pub open spec fn handle_spec(s: PanelView, debugging: bool, e: EventView, store: Seq<PresetView>) -> StepView {
    let same = |effects: Seq<EffectView>| StepView { panel: s, effects, store };
    let set = |panel: PanelView, effects: Seq<EffectView>| StepView { panel, effects, store };
    match e {
        EventView::RequestWindowModeChange(m) => same(seq![EffectView::ReopenWindow(m)]),
        EventView::ApplyWindowMode(m) => set(PanelView { window_mode: m, ..s }, seq![]),
        EventView::ChangeMainWindowId => same(seq![EffectView::StoreMainWindowId]),
        EventView::ChangeSleeping(sleep) => {
            let mode = if sleep {
                SleepMode::Sleep
            } else {
                SleepMode::Awake
            };
            set(PanelView { awake: mode, ..s }, seq![send(CameraCommand::Sleep(mode), debugging)])
        },
        EventView::ChangeTracking(t) => set(
            PanelView { tracking: t, ..s },
            seq![send(CameraCommand::AiMode(t), debugging)],
        ),
        EventView::ChangeTrackingSpeed(speed) => set(
            PanelView { tracking_speed: speed, ..s },
            seq![
                EffectView::Camera(CallView::CheckCommand { command: CameraCommand::TrackingSpeed(speed) }),
                EffectView::Camera(CallView::ReadStatus { debugging }),
                send(CameraCommand::TrackingSpeed(speed), debugging),
            ],
        ),
        EventView::ChangePresetPosition(n) => set(
            PanelView { tracking: AIMode::NoTracking, awake: SleepMode::Awake, ..s },
            seq![
                send(CameraCommand::AiMode(AIMode::NoTracking), debugging),
                send(CameraCommand::GotoPresetPosition(n), debugging),
            ],
        ),
        EventView::ChangeHDR(on) => set(
            PanelView { hdr_on: on, ..s },
            seq![send(CameraCommand::Hdr(on), debugging)],
        ),
        EventView::ChangeExposure(m) => same(
            seq![
                send(CameraCommand::ExposureModeType(m), debugging),
                EffectView::Camera(
                    CallView::SendCommand {
                        unit: CAMERA_UNIT,
                        selector: 0x6,
                        command: CameraCommand::ExposureMode(m),
                        debugging,
                        must_succeed: false,
                    },
                ),
            ],
        ),
        EventView::ChangeZoom(v) => set(
            PanelView { zoom: Some(v), zoom_text: i32_decimal(v), ..s },
            seq![EffectView::Camera(CallView::SetZoomAbsolute(v))],
        ),
        EventView::ChangeZoomText(t) => set(PanelView { zoom_text: t, ..s }, seq![]),
        EventView::ChangePan(v) => {
            let c = clamp_spec(v, s.pan_min, s.pan_max);
            set(
                PanelView { pan: Some(c), pan_text: i32_decimal(c), ..s },
                seq![EffectView::Camera(CallView::SetControl { id: V4L2_CID_PAN_ABSOLUTE, value: c })],
            )
        },
        EventView::ChangePanText(t) => set(PanelView { pan_text: t, ..s }, seq![]),
        EventView::ChangeTilt(v) => {
            let c = clamp_spec(v, s.tilt_min, s.tilt_max);
            set(
                PanelView { tilt: Some(c), tilt_text: i32_decimal(c), ..s },
                seq![EffectView::Camera(CallView::SetControl { id: V4L2_CID_TILT_ABSOLUTE, value: c })],
            )
        },
        EventView::ChangeTiltText(t) => set(PanelView { tilt_text: t, ..s }, seq![]),
        EventView::CustomPresetName(t) => set(PanelView { custom_preset_name: t, ..s }, seq![]),
        EventView::SaveCustomPreset => {
            if !is_blank(s.custom_preset_name) && s.pan is Some && s.tilt is Some && s.zoom is Some {
                let p = PresetView {
                    name: s.custom_preset_name,
                    pan: s.pan.unwrap(),
                    tilt: s.tilt.unwrap(),
                    zoom: s.zoom.unwrap(),
                };
                let st = saved_spec(store, p);
                StepView {
                    panel: PanelView { custom_presets: st, custom_preset_name: Seq::empty(), ..s },
                    effects: seq![EffectView::PersistPresets],
                    store: st,
                }
            } else {
                same(seq![])
            }
        },
        EventView::RecallCustomPreset(name) => match find_spec(store, name) {
            None => same(seq![]),
            Some(p) => set(
                PanelView {
                    tracking: AIMode::NoTracking,
                    awake: SleepMode::Awake,
                    pan: Some(p.pan),
                    pan_text: i32_decimal(p.pan),
                    tilt: Some(p.tilt),
                    tilt_text: i32_decimal(p.tilt),
                    zoom: Some(p.zoom),
                    zoom_text: i32_decimal(p.zoom),
                    ..s
                },
                seq![
                    send(CameraCommand::AiMode(AIMode::NoTracking), debugging),
                    EffectView::Camera(CallView::SetControl { id: V4L2_CID_PAN_ABSOLUTE, value: p.pan }),
                    EffectView::Camera(CallView::SetControl { id: V4L2_CID_TILT_ABSOLUTE, value: p.tilt }),
                    EffectView::Camera(CallView::SetZoomAbsolute(p.zoom)),
                ],
            ),
        },
        EventView::DeleteCustomPreset(name) => {
            if has_name(store, name) {
                let st = deleted_spec(store, name);
                StepView {
                    panel: PanelView { custom_presets: st, ..s },
                    effects: seq![EffectView::PersistPresets],
                    store: st,
                }
            } else {
                same(seq![])
            }
        },
        EventView::ChangeDebugging(on) => set(
            PanelView { debugging_on: on, camera: Some(on), ..s },
            seq![],
        ),
        EventView::TextInput(t) => set(PanelView { text_input: t, ..s }, seq![]),
        EventView::TextInput02(t) => set(PanelView { text_input_02: t, ..s }, seq![]),
        EventView::CheckCamera => same(seq![]),
        EventView::SendCommand => match hex_decode_spec(encode_utf8(s.text_input)) {
            Ok(bytes) => same(
                seq![EffectView::Camera(CallView::SendRaw { unit: 0x2, selector: 0x6, data: bytes, debugging })],
            ),
            Err(_) => same(seq![]),
        },
        EventView::SendCommand02 => match hex_decode_spec(encode_utf8(s.text_input_02)) {
            Ok(bytes) => same(
                seq![EffectView::Camera(CallView::SendRaw { unit: 0x2, selector: 0x2, data: bytes, debugging })],
            ),
            Err(_) => same(seq![]),
        },
        EventView::HexDump => same(seq![EffectView::Camera(CallView::Dump)]),
        EventView::HexDump02 => same(seq![EffectView::Camera(CallView::Dump02)]),
    }
}

/// How the panel handles `e`. `probe` is what the camera check before every
/// event found: with no camera connected, whether one could be opened; with one
/// connected, whether its status could be read. A failed check drops the
/// camera and ignores the event; a newly opened camera starts with logging off.
pub open spec fn step_spec(s: PanelView, e: EventView, probe: bool, store: Seq<PresetView>) -> StepView {
    if !probe {
        StepView { panel: PanelView { camera: None, ..s }, effects: seq![], store }
    } else {
        let debugging = match s.camera {
            Some(d) => d,
            None => false,
        };
        handle_spec(PanelView { camera: Some(debugging), ..s }, debugging, e, store)
    }
}

/// What the camera reported when the panel was opened.
pub struct CameraReadings {
    pub status: Result<CameraStatus, T4lError>,
    pub zoom_range: Result<(i32, i32), T4lError>,
    pub zoom: Result<i32, T4lError>,
    pub pan_range: Result<(i32, i32), T4lError>,
    pub pan: Result<i32, T4lError>,
    pub tilt_range: Result<(i32, i32), T4lError>,
    pub tilt: Result<i32, T4lError>,
    /// The stored custom presets.
    pub presets: Vec<CustomPreset>,
}

/// The reading's value, if the read succeeded.
pub open spec fn ok_spec<T>(r: Result<T, T4lError>) -> Option<T> {
    match r {
        Ok(v) => Some(v),
        Err(_) => None,
    }
}

/// The decimal text of a reading, empty where there is none.
pub open spec fn reading_text(v: Option<i32>) -> Seq<char> {
    match v {
        Some(x) => i32_decimal(x),
        None => Seq::empty(),
    }
}

/// The panel as it opens in `window_mode`, from what the camera reported, if one was found.
pub open spec fn init_spec(window_mode: WindowMode, r: Option<(CameraStatus, Option<(i32, i32)>, Option<i32>, (i32, i32), Option<i32>, (i32, i32), Option<i32>, Seq<PresetView>)>) -> PanelView {
    let status = match r {
        Some(x) => x.0,
        None => CameraStatus {
            awake: SleepMode::Awake,
            ai_mode: AIMode::NoTracking,
            speed: TrackingSpeed::Standard,
            hdr_on: false,
        },
    };
    let zoom_range = match r {
        Some(x) => x.1,
        None => None,
    };
    let zoom = match r {
        Some(x) => x.2,
        None => None,
    };
    let pan_range = match r {
        Some(x) => Some(x.3),
        None => None,
    };
    let pan = match r {
        Some(x) => x.4,
        None => None,
    };
    let tilt_range = match r {
        Some(x) => Some(x.5),
        None => None,
    };
    let tilt = match r {
        Some(x) => x.6,
        None => None,
    };
    PanelView {
        camera: match r {
            Some(_) => Some(false),
            None => None,
        },
        window_mode,
        awake: status.awake,
        tracking: status.ai_mode,
        tracking_speed: status.speed,
        hdr_on: status.hdr_on,
        zoom,
        zoom_min: match zoom_range { Some(z) => z.0, None => 0 },
        zoom_max: match zoom_range { Some(z) => z.1, None => 0 },
        zoom_text: reading_text(zoom),
        pan,
        pan_min: match pan_range { Some(z) => z.0, None => 0 },
        pan_max: match pan_range { Some(z) => z.1, None => 0 },
        pan_text: reading_text(pan),
        tilt,
        tilt_min: match tilt_range { Some(z) => z.0, None => 0 },
        tilt_max: match tilt_range { Some(z) => z.1, None => 0 },
        tilt_text: reading_text(tilt),
        custom_presets: match r {
            Some(x) => x.7,
            None => Seq::empty(),
        },
        custom_preset_name: Seq::empty(),
        debugging_on: false,
        text_input: Seq::empty(),
        text_input_02: Seq::empty(),
    }
}

/// The plain values of a set of readings: failed reads become `None`, except
/// the status, which falls back to the default, and the pan and tilt ranges,
/// which fall back to their safe limits.
pub open spec fn readings_spec(r: CameraReadings) -> (CameraStatus, Option<(i32, i32)>, Option<i32>, (i32, i32), Option<i32>, (i32, i32), Option<i32>, Seq<PresetView>) {
    (
        match r.status {
            Ok(st) => st,
            Err(_) => CameraStatus {
                awake: SleepMode::Awake,
                ai_mode: AIMode::NoTracking,
                speed: TrackingSpeed::Standard,
                hdr_on: false,
            },
        },
        ok_spec(r.zoom_range),
        ok_spec(r.zoom),
        range_or_fallback(r.pan_range, PAN_FALLBACK_LIMIT),
        ok_spec(r.pan),
        range_or_fallback(r.tilt_range, TILT_FALLBACK_LIMIT),
        ok_spec(r.tilt),
        r.presets@.map_values(|p: CustomPreset| p@),
    )
}

fn reading_to_text(v: Option<i32>) -> (s: String)
    ensures
        s@ == reading_text(v),
{
    match v {
        Some(x) => i32_to_string(x),
        None => String::new(),
    }
}

fn ok_value<T>(r: Result<T, T4lError>) -> (v: Option<T>)
    ensures
        v == ok_spec(r),
{
    match r {
        Ok(v) => Some(v),
        Err(_) => None,
    }
}


fn one(e: PanelEffect) -> (v: Vec<PanelEffect>)
    ensures
        v@.map_values(|x: PanelEffect| x@) == seq![e@],
{
    let v = vec![e];
    assert(v@.map_values(|x: PanelEffect| x@) =~= seq![e@]);
    v
}

fn camera_effects(calls: Vec<CameraCall>) -> (v: Vec<PanelEffect>)
    ensures
        v@.map_values(|x: PanelEffect| x@) == calls@.map_values(|c: CameraCall| EffectView::Camera(c@)),
{
    let ghost all = calls@.map_values(|c: CameraCall| EffectView::Camera(c@));
    let mut v: Vec<PanelEffect> = Vec::new();
    let mut calls = calls;
    while calls.len() > 0
        invariant
            v@.map_values(|x: PanelEffect| x@) + calls@.map_values(|c: CameraCall| EffectView::Camera(c@)) == all,
        decreases calls.len(),
    {
        let ghost before = v@;
        let ghost pending = calls@;
        let c = calls.remove(0);
        v.push(PanelEffect::Camera(c));
        assert(v@.map_values(|x: PanelEffect| x@) + calls@.map_values(|c: CameraCall| EffectView::Camera(c@))
            =~= before.map_values(|x: PanelEffect| x@) + pending.map_values(|c: CameraCall| EffectView::Camera(c@)));
    }
    assert(calls@.map_values(|c: CameraCall| EffectView::Camera(c@)) =~= Seq::<EffectView>::empty());
    assert(v@.map_values(|x: PanelEffect| x@) =~= all);
    v
}

impl PanelState {
    /// Ranges that the panel clamps to are well ordered.
    pub open spec fn ranges_ordered(&self) -> bool {
        self.pan_min <= self.pan_max && self.tilt_min <= self.tilt_max
    }

    /// The panel as it opens in `window_mode`, with the request for the main
    /// window's id; `readings` is what the camera reported, where one was found.
    pub fn init(window_mode: WindowMode, readings: Option<CameraReadings>) -> (r: (PanelState, Vec<PanelEffect>))
        ensures
            r.0@ == init_spec(
                window_mode,
                match readings {
                    Some(x) => Some(readings_spec(x)),
                    None => None,
                },
            ),
            r.0.ranges_ordered(),
            r.1@.map_values(|e: PanelEffect| e@) == seq![EffectView::RequestMainWindowId],
    {
        let p = Self::initial_state(window_mode, readings);
        (p, one(PanelEffect::RequestMainWindowId))
    }

    /// The panel state as it opens in `window_mode`.
    fn initial_state(window_mode: WindowMode, readings: Option<CameraReadings>) -> (p: PanelState)
        ensures
            p@ == init_spec(
                window_mode,
                match readings {
                    Some(r) => Some(readings_spec(r)),
                    None => None,
                },
            ),
            p.ranges_ordered(),
    {
        match readings {
            None => {
                let status = CameraStatus::default();
                let p = PanelState {
                    camera: None,
                    window_mode,
                    awake: status.awake,
                    tracking: status.ai_mode,
                    tracking_speed: status.speed,
                    hdr_on: status.hdr_on,
                    zoom: None,
                    zoom_min: 0,
                    zoom_max: 0,
                    zoom_text: String::new(),
                    pan: None,
                    pan_min: 0,
                    pan_max: 0,
                    pan_text: String::new(),
                    tilt: None,
                    tilt_min: 0,
                    tilt_max: 0,
                    tilt_text: String::new(),
                    custom_presets: Vec::new(),
                    custom_preset_name: String::new(),
                    debugging_on: false,
                    text_input: String::new(),
                    text_input_02: String::new(),
                };
                assert(p@.custom_presets =~= Seq::<PresetView>::empty());
                p
            },
            Some(r) => {
                let status = match r.status {
                    Ok(st) => st,
                    Err(_) => CameraStatus::default(),
                };
                let zoom_range = ok_value(r.zoom_range);
                let zoom = ok_value(r.zoom);
                let pans = pan_range(r.pan_range);
                let pan = ok_value(r.pan);
                let tilts = tilt_range(r.tilt_range);
                let tilt = ok_value(r.tilt);
                let (zoom_min, zoom_max) = match zoom_range {
                    Some(z) => (z.0, z.1),
                    None => (0, 0),
                };
                let p = PanelState {
                    camera: Some(Camera::new()),
                    window_mode,
                    awake: status.awake,
                    tracking: status.ai_mode,
                    tracking_speed: status.speed,
                    hdr_on: status.hdr_on,
                    zoom,
                    zoom_min,
                    zoom_max,
                    zoom_text: reading_to_text(zoom),
                    pan,
                    pan_min: pans.0,
                    pan_max: pans.1,
                    pan_text: reading_to_text(pan),
                    tilt,
                    tilt_min: tilts.0,
                    tilt_max: tilts.1,
                    tilt_text: reading_to_text(tilt),
                    custom_presets: r.presets,
                    custom_preset_name: String::new(),
                    debugging_on: false,
                    text_input: String::new(),
                    text_input_02: String::new(),
                };
                
                p
            },
        }
    }

    /// Whether the panel can handle `event` once the camera check has passed
    /// (see `accepts_spec`); where it cannot, the request fails.
    pub fn accepts(&self, event: &PanelEvent, store: &CustomPresetStore) -> (r: bool)
        ensures
            r == accepts_spec(self@, event@, store@),
    {
        match event {
            PanelEvent::ChangePan(_) => self.pan_min <= self.pan_max,
            PanelEvent::ChangeTilt(_) => self.tilt_min <= self.tilt_max,
            PanelEvent::RecallCustomPreset(name) => {
                proof {
                    crate::presets::lemma_name_index(store@, name@);
                }
                store.position(name.as_str()).is_some()
            },
            PanelEvent::DeleteCustomPreset(name) => {
                proof {
                    crate::presets::lemma_name_index(store@, name@);
                }
                store.position(name.as_str()).is_some()
            },
            PanelEvent::SendCommand => hex_decode(self.text_input.as_str().as_bytes()).is_ok(),
            PanelEvent::SendCommand02 => hex_decode(self.text_input_02.as_str().as_bytes()).is_ok(),
            _ => true,
        }
    }

    /// Handles `event`. `probe` is what the camera check before the event found:
    /// with no camera connected, whether one could be opened; with one connected,
    /// whether its status could be read. `store` holds the custom presets.
    pub fn update(&mut self, event: PanelEvent, probe: bool, store: &mut CustomPresetStore) -> (effects: Vec<PanelEffect>)
        requires
            probe ==> accepts_spec(old(self)@, event@, old(store)@),
        ensures
            old(self).ranges_ordered() ==> final(self).ranges_ordered(),
            final(self)@ == step_spec(old(self)@, event@, probe, old(store)@).panel,
            effects@.map_values(|e: PanelEffect| e@) == step_spec(old(self)@, event@, probe, old(store)@).effects,
            final(store)@ == step_spec(old(self)@, event@, probe, old(store)@).store,
    {
        if self.camera.is_none() {
            if !probe {
                assert(self@ =~= step_spec(old(self)@, event@, probe, old(store)@).panel);
                return Vec::new();
            }
            self.camera = Some(Camera::new());
        } else if !probe {
            self.camera = None;
            assert(self@ =~= step_spec(old(self)@, event@, probe, old(store)@).panel);
            return Vec::new();
        }
        let camera = match self.camera {
            Some(c) => c,
            None => Camera::new(),
        };
        self.handle(event, camera, store)
    }

    /// Handles `event` once `camera` is known to be connected.
    fn handle(&mut self, event: PanelEvent, camera: Camera, store: &mut CustomPresetStore) -> (effects: Vec<PanelEffect>)
        requires
            old(self).camera == Some(camera),
            accepts_spec(old(self)@, event@, old(store)@),
        ensures
            final(self)@ == handle_spec(old(self)@, camera.spec_debugging(), event@, old(store)@).panel,
            effects@.map_values(|e: PanelEffect| e@) == handle_spec(old(self)@, camera.spec_debugging(), event@, old(store)@).effects,
            final(store)@ == handle_spec(old(self)@, camera.spec_debugging(), event@, old(store)@).store,
    {
        match event {
            PanelEvent::SaveCustomPreset => self.save_preset(store),
            PanelEvent::RecallCustomPreset(name) => self.recall_preset(camera, name, store),
            PanelEvent::DeleteCustomPreset(name) => self.delete_preset(name, store),
            PanelEvent::SendCommand => self.send_hex(camera, false),
            PanelEvent::SendCommand02 => self.send_hex(camera, true),
            other => self.handle_simple(other, camera, store),
        }
    }

    /// Handles the events that leave the preset store alone.
    fn handle_simple(&mut self, event: PanelEvent, camera: Camera, store: &CustomPresetStore) -> (effects: Vec<PanelEffect>)
        requires
            old(self).camera == Some(camera),
            !(event matches PanelEvent::SaveCustomPreset),
            !(event matches PanelEvent::RecallCustomPreset(_)),
            !(event matches PanelEvent::DeleteCustomPreset(_)),
            !(event matches PanelEvent::SendCommand),
            !(event matches PanelEvent::SendCommand02),
            event matches PanelEvent::ChangePan(_) ==> old(self).pan_min <= old(self).pan_max,
            event matches PanelEvent::ChangeTilt(_) ==> old(self).tilt_min <= old(self).tilt_max,
        ensures
            final(self)@ == handle_spec(old(self)@, camera.spec_debugging(), event@, store@).panel,
            effects@.map_values(|e: PanelEffect| e@) == handle_spec(old(self)@, camera.spec_debugging(), event@, store@).effects,
            handle_spec(old(self)@, camera.spec_debugging(), event@, store@).store == store@,
    {
        match event {
            PanelEvent::RequestWindowModeChange(m) => one(PanelEffect::ReopenWindow(m)),
            PanelEvent::ApplyWindowMode(m) => {
                self.window_mode = m;
                Vec::new()
            },
            PanelEvent::ChangeMainWindowId => one(PanelEffect::StoreMainWindowId),
            PanelEvent::ChangeZoomText(t) => {
                self.zoom_text = t;
                Vec::new()
            },
            PanelEvent::ChangePanText(t) => {
                self.pan_text = t;
                Vec::new()
            },
            PanelEvent::ChangeTiltText(t) => {
                self.tilt_text = t;
                Vec::new()
            },
            PanelEvent::CustomPresetName(t) => {
                self.custom_preset_name = t;
                Vec::new()
            },
            PanelEvent::ChangeDebugging(on) => {
                self.debugging_on = on;
                let mut c = camera;
                c.set_debugging(on);
                self.camera = Some(c);
                Vec::new()
            },
            PanelEvent::TextInput(t) => {
                self.text_input = t;
                Vec::new()
            },
            PanelEvent::TextInput02(t) => {
                self.text_input_02 = t;
                Vec::new()
            },
            PanelEvent::CheckCamera => Vec::new(),
            PanelEvent::HexDump => one(PanelEffect::Camera(camera.dump())),
            PanelEvent::HexDump02 => one(PanelEffect::Camera(camera.dump_02())),
            other => self.apply_setting(other, camera, store),
        }
    }

    /// Handles the events that change a camera setting.
    fn apply_setting(&mut self, event: PanelEvent, camera: Camera, store: &CustomPresetStore) -> (effects: Vec<PanelEffect>)
        requires
            old(self).camera == Some(camera),
            event matches PanelEvent::ChangeSleeping(_) || event matches PanelEvent::ChangeTracking(_)
                || event matches PanelEvent::ChangeTrackingSpeed(_) || event matches PanelEvent::ChangePresetPosition(_)
                || event matches PanelEvent::ChangeHDR(_) || event matches PanelEvent::ChangeExposure(_)
                || event matches PanelEvent::ChangeZoom(_) || event matches PanelEvent::ChangePan(_)
                || event matches PanelEvent::ChangeTilt(_),
            event matches PanelEvent::ChangePan(_) ==> old(self).pan_min <= old(self).pan_max,
            event matches PanelEvent::ChangeTilt(_) ==> old(self).tilt_min <= old(self).tilt_max,
        ensures
            final(self)@ == handle_spec(old(self)@, camera.spec_debugging(), event@, store@).panel,
            effects@.map_values(|e: PanelEffect| e@) == handle_spec(old(self)@, camera.spec_debugging(), event@, store@).effects,
            handle_spec(old(self)@, camera.spec_debugging(), event@, store@).store == store@,
    {
        match event {
            PanelEvent::ChangeSleeping(sleep) => {
                let mode = if sleep {
                    SleepMode::Sleep
                } else {
                    SleepMode::Awake
                };
                self.awake = mode;
                camera_effects(camera.set_sleep_mode(mode))
            },
            PanelEvent::ChangeTracking(t) => {
                self.tracking = t;
                camera_effects(camera.set_ai_mode(t))
            },
            PanelEvent::ChangeTrackingSpeed(speed) => {
                self.tracking_speed = speed;
                camera_effects(camera.set_tracking_speed(speed))
            },
            PanelEvent::ChangePresetPosition(n) => {
                self.tracking = AIMode::NoTracking;
                self.awake = SleepMode::Awake;
                let mut calls = camera.set_ai_mode(AIMode::NoTracking);
                let mut more = camera.goto_preset_position(n);
                calls.append(&mut more);
                camera_effects(calls)
            },
            PanelEvent::ChangeHDR(on) => {
                self.hdr_on = on;
                camera_effects(camera.set_hdr_mode(on))
            },
            PanelEvent::ChangeExposure(m) => camera_effects(camera.set_exposure_mode(m)),
            PanelEvent::ChangeZoom(v) => {
                self.zoom = Some(v);
                self.zoom_text = i32_to_string(v);
                camera_effects(camera.set_zoom_absolute(v))
            },
            PanelEvent::ChangePan(v) => {
                let c = clamp_i32(v, self.pan_min, self.pan_max);
                self.pan = Some(c);
                self.pan_text = i32_to_string(c);
                camera_effects(camera.set_pan_absolute(c))
            },
            PanelEvent::ChangeTilt(v) => {
                let c = clamp_i32(v, self.tilt_min, self.tilt_max);
                self.tilt = Some(c);
                self.tilt_text = i32_to_string(c);
                camera_effects(camera.set_tilt_absolute(c))
            },
            _ => Vec::new(),
        }
    }

    /// Saves the panel's position under the name typed in, where the name is not
    /// blank and pan, tilt and zoom are all known.
    fn save_preset(&mut self, store: &mut CustomPresetStore) -> (effects: Vec<PanelEffect>)
        ensures
            final(self)@ == handle_spec(old(self)@, false, EventView::SaveCustomPreset, old(store)@).panel,
            effects@.map_values(|e: PanelEffect| e@) == handle_spec(old(self)@, false, EventView::SaveCustomPreset, old(store)@).effects,
            final(store)@ == handle_spec(old(self)@, false, EventView::SaveCustomPreset, old(store)@).store,
    {
        if is_blank_text(self.custom_preset_name.as_str()) {
            Vec::new()
        } else {
            match (self.pan, self.tilt, self.zoom) {
                (Some(pan), Some(tilt), Some(zoom)) => {
                    let preset = CustomPreset {
                        name: self.custom_preset_name.clone(),
                        pan,
                        tilt,
                        zoom,
                    };
                    store.save(&preset);
                    self.custom_presets = store.load();
                    self.custom_preset_name = String::new();
                    one(PanelEffect::PersistPresets)
                },
                _ => Vec::new(),
            }
        }
    }

    /// Moves the camera to the stored preset `name` and shows its position.
    fn recall_preset(&mut self, camera: Camera, name: String, store: &mut CustomPresetStore) -> (effects: Vec<PanelEffect>)
        requires
            has_name(old(store)@, name@),
        ensures
            final(self)@ == handle_spec(old(self)@, camera.spec_debugging(), EventView::RecallCustomPreset(name@), old(store)@).panel,
            effects@.map_values(|e: PanelEffect| e@) == handle_spec(old(self)@, camera.spec_debugging(), EventView::RecallCustomPreset(name@), old(store)@).effects,
            final(store)@ == old(store)@,
    {
        match camera.recall_custom_preset(store, name.as_str()) {
            Err(_) => Vec::new(),
            Ok(calls) => {
                match store.find(name.as_str()) {
                    Some(p) => {
                        self.tracking = AIMode::NoTracking;
                        self.awake = SleepMode::Awake;
                        self.pan = Some(p.pan);
                        self.pan_text = i32_to_string(p.pan);
                        self.tilt = Some(p.tilt);
                        self.tilt_text = i32_to_string(p.tilt);
                        self.zoom = Some(p.zoom);
                        self.zoom_text = i32_to_string(p.zoom);
                    },
                    None => {},
                }
                camera_effects(calls)
            },
        }
    }

    /// Deletes the stored preset `name`.
    fn delete_preset(&mut self, name: String, store: &mut CustomPresetStore) -> (effects: Vec<PanelEffect>)
        requires
            has_name(old(store)@, name@),
        ensures
            final(self)@ == handle_spec(old(self)@, false, EventView::DeleteCustomPreset(name@), old(store)@).panel,
            effects@.map_values(|e: PanelEffect| e@) == handle_spec(old(self)@, false, EventView::DeleteCustomPreset(name@), old(store)@).effects,
            final(store)@ == handle_spec(old(self)@, false, EventView::DeleteCustomPreset(name@), old(store)@).store,
    {
        match store.delete(name.as_str()) {
            Ok(()) => {
                self.custom_presets = store.load();
                one(PanelEffect::PersistPresets)
            },
            Err(_) => Vec::new(),
        }
    }

    /// Sends the bytes typed in as hex, to selector 0x2 where `selector_02`, else to 0x6.
    fn send_hex(&self, camera: Camera, selector_02: bool) -> (effects: Vec<PanelEffect>)
        requires
            hex_decode_spec(encode_utf8(if selector_02 { self.text_input_02@ } else { self.text_input@ })) is Ok,
        ensures
            effects@.map_values(|e: PanelEffect| e@) == handle_spec(
                self@,
                camera.spec_debugging(),
                if selector_02 { EventView::SendCommand02 } else { EventView::SendCommand },
                Seq::empty(),
            ).effects,
    {
        let text = if selector_02 {
            self.text_input_02.as_str()
        } else {
            self.text_input.as_str()
        };
        let selector: u8 = if selector_02 {
            0x2
        } else {
            0x6
        };
        match hex_decode(text.as_bytes()) {
            Ok(bytes) => one(PanelEffect::Camera(camera.send_cmd(0x2, selector, bytes.as_slice()))),
            Err(_) => Vec::new(),
        }
    }

    /// The position the zoom slider shows: the zoom where it is known, else the
    /// bottom of the zoom range.
    pub fn zoom_slider_value(&self) -> (v: i32)
        ensures
            v == match self.zoom {
                Some(z) => z,
                None => self.zoom_min,
            },
    {
        match self.zoom {
            Some(z) => z,
            None => self.zoom_min,
        }
    }

    /// The zoom that submitting the zoom text asks for: the text's value where it
    /// is a valid `i32`, else nothing to submit.
    pub fn zoom_text_submission(&self) -> (r: Option<PanelEvent>)
        ensures
            match parse_i32_spec(self.zoom_text@) {
                Some(v) => r matches Some(PanelEvent::ChangeZoom(w)) && w == v,
                None => r is None,
            },
    {
        match parse_i32(self.zoom_text.as_str()) {
            Some(v) => Some(PanelEvent::ChangeZoom(v)),
            None => None,
        }
    }

    /// How often, in seconds, the panel checks for its camera: often while none
    /// is connected, seldom while one is.
    pub fn check_interval_secs(&self) -> (secs: u64)
        ensures
            secs == if self.camera is None { 4u64 } else { 20u64 },
    {
        if self.camera.is_none() {
            4
        } else {
            20
        }
    }
}

/// No event changes the zoom, pan or tilt ranges of the panel.
pub proof fn law_step_keeps_ranges(s: PanelView, e: EventView, probe: bool, store: Seq<PresetView>)
    ensures
        step_spec(s, e, probe, store).panel.zoom_min == s.zoom_min,
        step_spec(s, e, probe, store).panel.zoom_max == s.zoom_max,
        step_spec(s, e, probe, store).panel.pan_min == s.pan_min,
        step_spec(s, e, probe, store).panel.pan_max == s.pan_max,
        step_spec(s, e, probe, store).panel.tilt_min == s.tilt_min,
        step_spec(s, e, probe, store).panel.tilt_max == s.tilt_max,
{
}

/// Where the panel's preset list shows the store, it still does after any event.
pub proof fn law_preset_list_mirrors_store(s: PanelView, e: EventView, probe: bool, store: Seq<PresetView>)
    requires
        s.custom_presets == store,
    ensures
        step_spec(s, e, probe, store).panel.custom_presets == step_spec(s, e, probe, store).store,
{
}

/// Moving the pan or tilt by value keeps the new position within its range.
pub proof fn law_pan_tilt_within_range(s: PanelView, v: i32, store: Seq<PresetView>)
    requires
        s.pan_min <= s.pan_max,
        s.tilt_min <= s.tilt_max,
    ensures
        step_spec(s, EventView::ChangePan(v), true, store).panel.pan matches Some(p) && s.pan_min <= p
            <= s.pan_max,
        step_spec(s, EventView::ChangeTilt(v), true, store).panel.tilt matches Some(t) && s.tilt_min
            <= t <= s.tilt_max,
{
}

/// A failed camera check disconnects the camera and leaves everything else as it was.
pub proof fn law_failed_check_ignores_event(s: PanelView, e: EventView, store: Seq<PresetView>)
    ensures
        step_spec(s, e, false, store).panel == (PanelView { camera: None, ..s }),
        step_spec(s, e, false, store).effects.len() == 0,
        step_spec(s, e, false, store).store == store,
{
}

/// Recalling a preset right after saving it under a fresh position shows that
/// position and sends it to the camera.
pub proof fn law_recall_after_save(s: PanelView, store: Seq<PresetView>, name: Seq<char>, pan: i32, tilt: i32, zoom: i32)
    requires
        !is_blank(name),
        s.custom_preset_name == name,
        s.pan == Some(pan),
        s.tilt == Some(tilt),
        s.zoom == Some(zoom),
    ensures
        ({
            let saved = step_spec(s, EventView::SaveCustomPreset, true, store);
            let recalled = step_spec(saved.panel, EventView::RecallCustomPreset(name), true, saved.store);
            &&& saved.store == saved_spec(store, PresetView { name, pan, tilt, zoom })
            &&& recalled.panel.pan == Some(pan)
            &&& recalled.panel.tilt == Some(tilt)
            &&& recalled.panel.zoom == Some(zoom)
            &&& recalled.effects.len() == 4
            &&& recalled.effects[1] == EffectView::Camera(CallView::SetControl { id: V4L2_CID_PAN_ABSOLUTE, value: pan })
            &&& recalled.effects[2] == EffectView::Camera(CallView::SetControl { id: V4L2_CID_TILT_ABSOLUTE, value: tilt })
            &&& recalled.effects[3] == EffectView::Camera(CallView::SetZoomAbsolute(zoom))
        }),
{
    crate::presets::law_save_then_find(store, PresetView { name, pan, tilt, zoom });
}

/// A setting changed from the panel is sent to the camera as it is shown: the
/// single command sent carries the event's value, which is also the panel's new
/// value of that setting, and it goes to the camera unit, to the command's own
/// selector, as an exchange that must succeed.
pub proof fn law_setting_command_agrees_with_panel(s: PanelView, store: Seq<PresetView>, sleep: bool, t: AIMode, on: bool)
    ensures
        ({
            let r = step_spec(s, EventView::ChangeHDR(on), true, store);
            &&& r.panel.hdr_on == on
            &&& r.effects.len() == 1
            &&& r.effects[0] matches EffectView::Camera(CallView::SendCommand { unit, selector, command: CameraCommand::Hdr(m), must_succeed, .. })
                && m == on && m == r.panel.hdr_on && unit == 0x2 && selector == 0x6 && must_succeed
        }),
        ({
            let r = step_spec(s, EventView::ChangeSleeping(sleep), true, store);
            &&& r.panel.awake == (if sleep { SleepMode::Sleep } else { SleepMode::Awake })
            &&& r.effects.len() == 1
            &&& r.effects[0] matches EffectView::Camera(CallView::SendCommand { unit, selector, command: CameraCommand::Sleep(m), must_succeed, .. })
                && m == r.panel.awake && unit == 0x2 && selector == 0x2 && must_succeed
        }),
        ({
            let r = step_spec(s, EventView::ChangeTracking(t), true, store);
            &&& r.panel.tracking == t
            &&& r.effects.len() == 1
            &&& r.effects[0] matches EffectView::Camera(CallView::SendCommand { unit, selector, command: CameraCommand::AiMode(m), must_succeed, .. })
                && m == t && unit == 0x2 && selector == 0x6 && must_succeed
        }),
{
}

/// Moving the tilt only ever writes the tilt control, with the panel's new tilt,
/// and leaves the pan alone; moving the pan only ever writes the pan control,
/// with the panel's new pan, and leaves the tilt alone. A value inside the range
/// is used as given.
pub proof fn law_pan_and_tilt_write_their_own_control(s: PanelView, v: i32, store: Seq<PresetView>)
    requires
        s.pan_min <= s.pan_max,
        s.tilt_min <= s.tilt_max,
    ensures
        ({
            let r = step_spec(s, EventView::ChangeTilt(v), true, store);
            &&& r.panel.tilt is Some
            &&& r.effects == seq![EffectView::Camera(CallView::SetControl { id: V4L2_CID_TILT_ABSOLUTE, value: r.panel.tilt.unwrap() })]
            &&& (s.tilt_min <= v <= s.tilt_max ==> r.panel.tilt == Some(v))
            &&& r.panel.pan == s.pan
            &&& forall|i: int| 0 <= i < r.effects.len() ==> !(#[trigger] r.effects[i] matches EffectView::Camera(CallView::SetControl { id, .. }) && id == V4L2_CID_PAN_ABSOLUTE)
        }),
        ({
            let r = step_spec(s, EventView::ChangePan(v), true, store);
            &&& r.panel.pan is Some
            &&& r.effects == seq![EffectView::Camera(CallView::SetControl { id: V4L2_CID_PAN_ABSOLUTE, value: r.panel.pan.unwrap() })]
            &&& (s.pan_min <= v <= s.pan_max ==> r.panel.pan == Some(v))
            &&& r.panel.tilt == s.tilt
            &&& forall|i: int| 0 <= i < r.effects.len() ==> !(#[trigger] r.effects[i] matches EffectView::Camera(CallView::SetControl { id, .. }) && id == V4L2_CID_TILT_ABSOLUTE)
        }),
{
    assert(V4L2_CID_PAN_ABSOLUTE != V4L2_CID_TILT_ABSOLUTE);
}

/// Opening the panel keeps every reading that succeeded: the zoom, pan and tilt
/// the camera reported are shown with their decimal text, a failed reading shows
/// nothing, and the reported status and presets are taken over.
pub proof fn law_init_keeps_readings(mode: WindowMode, r: CameraReadings)
    ensures
        ({
            let p = init_spec(mode, Some(readings_spec(r)));
            &&& (r.tilt matches Ok(t) ==> p.tilt == Some(t) && p.tilt_text == i32_decimal(t))
            &&& (r.tilt is Err ==> p.tilt is None && p.tilt_text.len() == 0)
            &&& (r.pan matches Ok(t) ==> p.pan == Some(t) && p.pan_text == i32_decimal(t))
            &&& (r.pan is Err ==> p.pan is None && p.pan_text.len() == 0)
            &&& (r.zoom matches Ok(t) ==> p.zoom == Some(t) && p.zoom_text == i32_decimal(t))
            &&& (r.zoom is Err ==> p.zoom is None && p.zoom_text.len() == 0)
            &&& (r.zoom_range matches Ok(z) ==> p.zoom_min == z.0 && p.zoom_max == z.1)
            &&& (r.status matches Ok(st) ==> p.awake == st.awake && p.tracking == st.ai_mode
                && p.tracking_speed == st.speed && p.hdr_on == st.hdr_on)
            &&& p.custom_presets == r.presets@.map_values(|x: CustomPreset| x@)
            &&& p.camera == Some(false)
            &&& p.window_mode == mode
        }),
{
}

/// Each send button sends the bytes of its own input box: `SendCommand02` sends
/// the hex decoding of the second box to selector 0x2 and `SendCommand` that of
/// the first box to selector 0x6, and neither depends on the other box.
pub proof fn law_send_uses_its_own_box(s: PanelView, other: Seq<char>, store: Seq<PresetView>)
    requires
        hex_decode_spec(encode_utf8(s.text_input)) is Ok,
        hex_decode_spec(encode_utf8(s.text_input_02)) is Ok,
    ensures
        ({
            let r = step_spec(s, EventView::SendCommand02, true, store);
            let d = hex_decode_spec(encode_utf8(s.text_input_02)).unwrap();
            &&& r.effects.len() == 1
            &&& r.effects[0] matches EffectView::Camera(CallView::SendRaw { unit, selector, data, .. })
                && unit == 0x2 && selector == 0x2 && data == d
            &&& r.effects == step_spec(PanelView { text_input: other, ..s }, EventView::SendCommand02, true, store).effects
        }),
        ({
            let r = step_spec(s, EventView::SendCommand, true, store);
            let d = hex_decode_spec(encode_utf8(s.text_input)).unwrap();
            &&& r.effects.len() == 1
            &&& r.effects[0] matches EffectView::Camera(CallView::SendRaw { unit, selector, data, .. })
                && unit == 0x2 && selector == 0x6 && data == d
            &&& r.effects == step_spec(PanelView { text_input_02: other, ..s }, EventView::SendCommand, true, store).effects
        }),
{
}

} // verus!
