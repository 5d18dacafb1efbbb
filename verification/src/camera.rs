use vstd::prelude::*;

use crate::enums::{AIMode, CameraStatus, ExposureMode, SleepMode, TrackingSpeed};
use crate::error::T4lError;
use crate::presets::{find_spec, CustomPreset, CustomPresetStore};

verus! {

/// The UVC extension unit that takes the camera's vendor commands.
pub const CAMERA_UNIT: u8 = 0x2;

/// The V4L2 control id of the absolute pan position.
pub const V4L2_CID_PAN_ABSOLUTE: u32 = 0x009a_0908;

/// The V4L2 control id of the absolute tilt position.
pub const V4L2_CID_TILT_ABSOLUTE: u32 = 0x009a_0909;

/// Pan limit used where the driver reports no usable pan range.
pub const PAN_FALLBACK_LIMIT: i32 = 648_000;

/// Tilt limit used where the driver reports no usable tilt range.
pub const TILT_FALLBACK_LIMIT: i32 = 324_000;

/// A vendor command of the camera, before it is encoded into bytes.
#[derive(Clone, Copy, Debug, PartialEq, Eq, Structural)]
pub enum CameraCommand {
    Sleep(SleepMode),
    AiMode(AIMode),
    GotoPresetPosition(i8),
    TrackingSpeed(TrackingSpeed),
    Hdr(bool),
    ExposureModeType(ExposureMode),
    ExposureMode(ExposureMode),
}

/// The UVC selector that a vendor command is sent to.
pub open spec fn selector_spec(command: CameraCommand) -> u8 {
    match command {
        CameraCommand::Sleep(_) => 0x2,
        CameraCommand::AiMode(_) => 0x6,
        CameraCommand::GotoPresetPosition(_) => 0x2,
        CameraCommand::TrackingSpeed(_) => 0x2,
        CameraCommand::Hdr(_) => 0x6,
        CameraCommand::ExposureModeType(_) => 0x2,
        CameraCommand::ExposureMode(_) => 0x6,
    }
}

/// The UVC selector that a vendor command is sent to.
pub fn command_selector(command: CameraCommand) -> (s: u8)
    ensures
        s == selector_spec(command),
{
    match command {
        CameraCommand::Sleep(_) => 0x2,
        CameraCommand::AiMode(_) => 0x6,
        CameraCommand::GotoPresetPosition(_) => 0x2,
        CameraCommand::TrackingSpeed(_) => 0x2,
        CameraCommand::Hdr(_) => 0x6,
        CameraCommand::ExposureModeType(_) => 0x2,
        CameraCommand::ExposureMode(_) => 0x6,
    }
}

/// One exchange with the camera, to be carried out by the device transport.
#[derive(Debug)]
pub enum CameraCall {
    /// Encode `command` and send it to `unit` and `selector`. Where `must_succeed`
    /// is false, a failure of this exchange is ignored, and so is a command that
    /// has no encoding for its argument.
    SendCommand { unit: u8, selector: u8, command: CameraCommand, debugging: bool, must_succeed: bool },
    /// Encode `command` without sending it; fails where the command has no encoding.
    CheckCommand { command: CameraCommand },
    /// Send the bytes `data` to `unit` and `selector`.
    SendRaw { unit: u8, selector: u8, data: Vec<u8>, debugging: bool },
    /// Read the camera's status report.
    ReadStatus { debugging: bool },
    /// Set a V4L2 control to `value`.
    SetControl { id: u32, value: i32 },
    /// Set the absolute zoom.
    SetZoomAbsolute(i32),
    /// Print the device information.
    Info,
    /// Dump the replies of selector 0x6.
    Dump,
    /// Dump the replies of selector 0x2.
    Dump02,
}

/// The exchange that sends `command` where its failure must be reported.
pub open spec fn command_call(command: CameraCommand, debugging: bool) -> CameraCall {
    CameraCall::SendCommand {
        unit: CAMERA_UNIT,
        selector: selector_spec(command),
        command,
        debugging,
        must_succeed: true,
    }
}

/// Whether a failure of exchange `c` fails the operation it belongs to: every
/// exchange but a command sent with `must_succeed` false.
pub open spec fn must_succeed_spec(c: CameraCall) -> bool {
    match c {
        CameraCall::SendCommand { must_succeed, .. } => must_succeed,
        _ => true,
    }
}

/// What the outcome `outcome` of exchange `c` means for its operation: the
/// outcome itself where the exchange must succeed, else success.
pub open spec fn verdict_spec(c: CameraCall, outcome: Result<(), T4lError>) -> Result<(), T4lError> {
    if must_succeed_spec(c) {
        outcome
    } else {
        Ok(())
    }
}

/// What the outcome of exchange `call` means for the operation it belongs to.
pub fn call_verdict(call: &CameraCall, outcome: Result<(), T4lError>) -> (r: Result<(), T4lError>)
    ensures
        r == verdict_spec(*call, outcome),
{
    match call {
        CameraCall::SendCommand { must_succeed, .. } => if *must_succeed {
            outcome
        } else {
            Ok(())
        },
        _ => outcome,
    }
}

/// A run of an operation's exchanges: they are issued in order, and the first
/// one whose failure counts (see `call_verdict`) stops the run with its error;
/// a run that issues every exchange without such a failure succeeds.
pub struct CallRunner {
    calls: Vec<CameraCall>,
    issued: usize,
    failure: Option<T4lError>,
}

impl CallRunner {
    /// The exchanges of the run, in order.
    pub closed spec fn spec_calls(&self) -> Seq<CameraCall> {
        self.calls@
    }

    /// How many exchanges have been issued.
    pub closed spec fn spec_issued(&self) -> nat {
        self.issued as nat
    }

    /// The failure that stopped the run, if one did.
    pub closed spec fn spec_failure(&self) -> Option<T4lError> {
        self.failure
    }

    /// Whether no exchange is left to issue: one failed, or all were issued.
    pub open spec fn spec_finished(&self) -> bool {
        self.spec_failure() is Some || self.spec_issued() >= self.spec_calls().len()
    }

    /// The runner's bookkeeping is consistent.
    pub closed spec fn wf(&self) -> bool {
        self.issued <= self.calls@.len()
    }

    /// A run of `calls` in which nothing has been issued yet.
    pub fn new(calls: Vec<CameraCall>) -> (r: CallRunner)
        ensures
            r.wf(),
            r.spec_calls() == calls@,
            r.spec_issued() == 0,
            r.spec_failure() is None,
    {
        CallRunner { calls, issued: 0, failure: None }
    }

    /// The exchange to issue next, or `None` once the run is finished.
    pub fn next_call(&self) -> (r: Option<&CameraCall>)
        requires
            self.wf(),
        ensures
            r is None <==> self.spec_finished(),
            r matches Some(c) ==> *c == self.spec_calls()[self.spec_issued() as int],
    {
        if self.failure.is_some() || self.issued >= self.calls.len() {
            None
        } else {
            Some(&self.calls[self.issued])
        }
    }

    /// Records the outcome of the exchange just issued.
    pub fn record(&mut self, outcome: Result<(), T4lError>)
        requires
            old(self).wf(),
            !old(self).spec_finished(),
        ensures
            final(self).wf(),
            final(self).spec_calls() == old(self).spec_calls(),
            final(self).spec_issued() == old(self).spec_issued() + 1,
            final(self).spec_failure() == match verdict_spec(old(self).spec_calls()[old(self).spec_issued() as int], outcome) {
                Ok(()) => None,
                Err(e) => Some(e),
            },
    {
        let n = self.calls.len();
        assert(self.issued < n);
        let verdict = call_verdict(&self.calls[self.issued], outcome);
        self.issued = self.issued + 1;
        match verdict {
            Ok(()) => {},
            Err(e) => {
                self.failure = Some(e);
            },
        }
    }

    /// The outcome of a finished run: the failure that stopped it, or success.
    pub fn finish(self) -> (r: Result<(), T4lError>)
        requires
            self.spec_finished(),
        ensures
            r == match self.spec_failure() {
                Some(e) => Err(e),
                None => Ok(()),
            },
    {
        match self.failure {
            Some(e) => Err(e),
            None => Ok(()),
        }
    }
}

/// The camera as the command logic sees it: the device is reached through
/// the transport that carries out the calls this type produces.
#[derive(Clone, Copy, Debug)]
pub struct Camera {
    debugging: bool,
}

impl Camera {
    /// Whether exchanges with this camera are logged.
    pub closed spec fn spec_debugging(&self) -> bool {
        self.debugging
    }

    /// A freshly opened camera; logging is off.
    pub fn new() -> (c: Camera)
        ensures
            !c.spec_debugging(),
    {
        Camera { debugging: false }
    }

    /// Whether exchanges with this camera are logged.
    pub fn is_debugging(&self) -> (b: bool)
        ensures
            b == self.spec_debugging(),
    {
        self.debugging
    }

    /// Turns logging of exchanges on or off.
    pub fn set_debugging(&mut self, debugging: bool)
        ensures
            final(self).spec_debugging() == debugging,
    {
        self.debugging = debugging;
    }

    /// Sends raw command bytes to `unit` and `selector`.
    pub fn send_cmd(&self, unit: u8, selector: u8, cmd: &[u8]) -> (r: CameraCall)
        ensures
            r matches CameraCall::SendRaw { unit: u, selector: s, data, debugging } && u == unit && s
                == selector && data@ == cmd@ && debugging == self.spec_debugging(),
    {
        let data = vstd::slice::slice_to_vec(cmd);
        CameraCall::SendRaw { unit, selector, data, debugging: self.debugging }
    }

    /// Reads the camera's status report.
    pub fn get_status(&self) -> (r: CameraCall)
        ensures
            r == (CameraCall::ReadStatus { debugging: self.spec_debugging() }),
    {
        CameraCall::ReadStatus { debugging: self.debugging }
    }

    /// Prints the device information.
    pub fn info(&self) -> (r: CameraCall)
        ensures
            r == CameraCall::Info,
    {
        CameraCall::Info
    }

    /// Dumps the replies of selector 0x6.
    pub fn dump(&self) -> (r: CameraCall)
        ensures
            r == CameraCall::Dump,
    {
        CameraCall::Dump
    }

    /// Dumps the replies of selector 0x2.
    pub fn dump_02(&self) -> (r: CameraCall)
        ensures
            r == CameraCall::Dump02,
    {
        CameraCall::Dump02
    }

    fn command(&self, command: CameraCommand) -> (r: CameraCall)
        ensures
            r == command_call(command, self.spec_debugging()),
    {
        CameraCall::SendCommand {
            unit: CAMERA_UNIT,
            selector: command_selector(command),
            command,
            debugging: self.debugging,
            must_succeed: true,
        }
    }

    /// Saves the current position, as read from the camera, as the custom preset `name`.
    pub fn save_custom_preset(store: &mut CustomPresetStore, name: &str, pan: i32, tilt: i32, zoom: i32)
        ensures
            final(store)@ == crate::presets::saved_spec(
                old(store)@,
                crate::presets::PresetView { name: name@, pan, tilt, zoom },
            ),
    {
        let preset = CustomPreset::new(name, pan, tilt, zoom);
        store.save(&preset);
    }
}

/// The operations of the Tiny 2 camera, each given as the exchanges it makes.
pub trait Tiny2Camera {
    fn set_sleep_mode(&self, mode: SleepMode) -> Vec<CameraCall>;

    fn set_ai_mode(&self, mode: AIMode) -> Vec<CameraCall>;

    fn goto_preset_position(&self, preset_nr: i8) -> Vec<CameraCall>;

    fn set_tracking_speed(&self, speed: TrackingSpeed) -> Vec<CameraCall>;

    fn set_hdr_mode(&self, mode: bool) -> Vec<CameraCall>;

    fn set_exposure_mode(&self, mode: ExposureMode) -> Vec<CameraCall>;

    fn set_pan_absolute(&self, value: i32) -> Vec<CameraCall>;

    fn set_tilt_absolute(&self, value: i32) -> Vec<CameraCall>;

    fn set_zoom_absolute(&self, value: i32) -> Vec<CameraCall>;

    fn recall_custom_preset(&self, store: &CustomPresetStore, name: &str) -> Result<Vec<CameraCall>, T4lError>;

    fn set_debugging(&mut self, debugging: bool);

    fn get_sleep_mode(&self, status: Result<CameraStatus, T4lError>) -> Result<SleepMode, T4lError>;

    fn get_ai_mode(&self, status: Result<CameraStatus, T4lError>) -> Result<AIMode, T4lError>;

    fn get_tracking_speed(&self, status: Result<CameraStatus, T4lError>) -> Result<TrackingSpeed, T4lError>;

    fn delete_custom_preset(&self, store: &mut CustomPresetStore, name: &str) -> Result<(), T4lError>;

    fn get_custom_presets(&self, store: &CustomPresetStore) -> Vec<CustomPreset>;
}

impl Tiny2Camera for Camera {
    /// Puts the camera to sleep or wakes it.
    fn set_sleep_mode(&self, mode: SleepMode) -> (r: Vec<CameraCall>)
        ensures
            r@ == seq![command_call(CameraCommand::Sleep(mode), self.spec_debugging())],
    {
        vec![self.command(CameraCommand::Sleep(mode))]
    }

    /// Selects the tracking mode.
    fn set_ai_mode(&self, mode: AIMode) -> (r: Vec<CameraCall>)
        ensures
            r@ == seq![command_call(CameraCommand::AiMode(mode), self.spec_debugging())],
    {
        vec![self.command(CameraCommand::AiMode(mode))]
    }

    /// Moves the camera to one of its built-in preset positions.
    fn goto_preset_position(&self, preset_nr: i8) -> (r: Vec<CameraCall>)
        ensures
            r@ == seq![command_call(CameraCommand::GotoPresetPosition(preset_nr), self.spec_debugging())],
    {
        vec![self.command(CameraCommand::GotoPresetPosition(preset_nr))]
    }

    /// Selects the tracking speed: the command is encoded first, then the status
    /// is read, then the command is sent; the first failure stops the change.
    fn set_tracking_speed(&self, speed: TrackingSpeed) -> (r: Vec<CameraCall>)
        ensures
            r@ == seq![
                CameraCall::CheckCommand { command: CameraCommand::TrackingSpeed(speed) },
                CameraCall::ReadStatus { debugging: self.spec_debugging() },
                command_call(CameraCommand::TrackingSpeed(speed), self.spec_debugging()),
            ],
    {
        vec![
            CameraCall::CheckCommand { command: CameraCommand::TrackingSpeed(speed) },
            self.get_status(),
            self.command(CameraCommand::TrackingSpeed(speed)),
        ]
    }

    /// Turns HDR on or off.
    fn set_hdr_mode(&self, mode: bool) -> (r: Vec<CameraCall>)
        ensures
            r@ == seq![command_call(CameraCommand::Hdr(mode), self.spec_debugging())],
    {
        vec![self.command(CameraCommand::Hdr(mode))]
    }

    /// Selects the exposure mode: the mode type is sent and must succeed; the
    /// mode itself follows, and its outcome is ignored.
    fn set_exposure_mode(&self, mode: ExposureMode) -> (r: Vec<CameraCall>)
        ensures
            r@ == seq![
                command_call(CameraCommand::ExposureModeType(mode), self.spec_debugging()),
                CameraCall::SendCommand {
                    unit: CAMERA_UNIT,
                    selector: 0x6,
                    command: CameraCommand::ExposureMode(mode),
                    debugging: self.spec_debugging(),
                    must_succeed: false,
                },
            ],
    {
        let second = CameraCall::SendCommand {
            unit: CAMERA_UNIT,
            selector: command_selector(CameraCommand::ExposureMode(mode)),
            command: CameraCommand::ExposureMode(mode),
            debugging: self.debugging,
            must_succeed: false,
        };
        vec![self.command(CameraCommand::ExposureModeType(mode)), second]
    }

    /// Sets the absolute pan position.
    fn set_pan_absolute(&self, value: i32) -> (r: Vec<CameraCall>)
        ensures
            r@ == seq![CameraCall::SetControl { id: V4L2_CID_PAN_ABSOLUTE, value }],
    {
        vec![CameraCall::SetControl { id: V4L2_CID_PAN_ABSOLUTE, value }]
    }

    /// Sets the absolute tilt position.
    fn set_tilt_absolute(&self, value: i32) -> (r: Vec<CameraCall>)
        ensures
            r@ == seq![CameraCall::SetControl { id: V4L2_CID_TILT_ABSOLUTE, value }],
    {
        vec![CameraCall::SetControl { id: V4L2_CID_TILT_ABSOLUTE, value }]
    }

    /// Sets the absolute zoom.
    fn set_zoom_absolute(&self, value: i32) -> (r: Vec<CameraCall>)
        ensures
            r@ == seq![CameraCall::SetZoomAbsolute(value)],
    {
        vec![CameraCall::SetZoomAbsolute(value)]
    }

    /// Moves the camera to the custom preset named `name`: tracking is turned off,
    /// then pan, tilt and zoom are set. Fails with `PresetNotFound(name)` where the
    /// store holds no preset of that name.
    fn recall_custom_preset(&self, store: &CustomPresetStore, name: &str) -> (r: Result<
        Vec<CameraCall>,
        T4lError,
    >)
        ensures
            r is Err <==> find_spec(store@, name@) is None,
            r matches Err(e) ==> e matches T4lError::PresetNotFound(n) && n@ == name@,
            r matches Ok(calls) ==> {
                let p = find_spec(store@, name@).unwrap();
                calls@ == seq![
                    command_call(CameraCommand::AiMode(AIMode::NoTracking), self.spec_debugging()),
                    CameraCall::SetControl { id: V4L2_CID_PAN_ABSOLUTE, value: p.pan },
                    CameraCall::SetControl { id: V4L2_CID_TILT_ABSOLUTE, value: p.tilt },
                    CameraCall::SetZoomAbsolute(p.zoom),
                ]
            },
    {
        match store.find(name) {
            None => Err(T4lError::PresetNotFound(name.to_owned())),
            Some(preset) => {
                let calls = vec![
                    self.command(CameraCommand::AiMode(AIMode::NoTracking)),
                    CameraCall::SetControl { id: V4L2_CID_PAN_ABSOLUTE, value: preset.pan },
                    CameraCall::SetControl { id: V4L2_CID_TILT_ABSOLUTE, value: preset.tilt },
                    CameraCall::SetZoomAbsolute(preset.zoom),
                ];
                Ok(calls)
            },
        }
    }

    /// Whether the camera is asleep, from a reading of its status.
    fn get_sleep_mode(&self, status: Result<CameraStatus, T4lError>) -> (r: Result<SleepMode, T4lError>)
        ensures
            r == match status {
                Ok(st) => Ok(st.awake),
                Err(e) => Err(e),
            },
    {
        match status {
            Ok(st) => Ok(st.awake),
            Err(e) => Err(e),
        }
    }

    /// The tracking mode, from a reading of the camera's status.
    fn get_ai_mode(&self, status: Result<CameraStatus, T4lError>) -> (r: Result<AIMode, T4lError>)
        ensures
            r == match status {
                Ok(st) => Ok(st.ai_mode),
                Err(e) => Err(e),
            },
    {
        match status {
            Ok(st) => Ok(st.ai_mode),
            Err(e) => Err(e),
        }
    }

    /// The tracking speed, from a reading of the camera's status.
    fn get_tracking_speed(&self, status: Result<CameraStatus, T4lError>) -> (r: Result<TrackingSpeed, T4lError>)
        ensures
            r == match status {
                Ok(st) => Ok(st.speed),
                Err(e) => Err(e),
            },
    {
        match status {
            Ok(st) => Ok(st.speed),
            Err(e) => Err(e),
        }
    }

    /// Deletes the stored custom preset `name`, as `CustomPresetStore::delete` does.
    fn delete_custom_preset(&self, store: &mut CustomPresetStore, name: &str) -> (r: Result<(), T4lError>)
        ensures
            r is Ok <==> crate::presets::has_name(old(store)@, name@),
            r is Ok ==> final(store)@ == crate::presets::deleted_spec(old(store)@, name@),
            r is Err ==> final(store)@ == old(store)@,
            r matches Err(e) ==> e matches T4lError::PresetNotFound(n) && n@ == name@,
    {
        store.delete(name)
    }

    /// The stored custom presets, in store order.
    fn get_custom_presets(&self, store: &CustomPresetStore) -> (r: Vec<CustomPreset>)
        ensures
            r@.map_values(|p: CustomPreset| p@) == store@,
    {
        store.load()
    }

    /// Turns logging of exchanges on or off.
    fn set_debugging(&mut self, debugging: bool)
        ensures
            final(self).spec_debugging() == debugging,
    {
        self.debugging = debugging;
    }
}

/// The range that a reading of a control's range gives: the reported range where
/// it is proper (its upper end above its lower end), else `-limit..=limit`.
pub open spec fn range_or_fallback(reading: Result<(i32, i32), T4lError>, limit: i32) -> (i32, i32) {
    match reading {
        Ok(range) => if range.1 > range.0 {
            range
        } else {
            (-limit as i32, limit)
        },
        Err(_) => (-limit as i32, limit),
    }
}

/// The pan range for a reading of the driver's pan range. The driver reports a
/// degenerate range for this camera, so a safe superset stands in for it; the
/// driver clamps values outside the real range.
pub fn pan_range(reading: Result<(i32, i32), T4lError>) -> (r: (i32, i32))
    ensures
        r == range_or_fallback(reading, PAN_FALLBACK_LIMIT),
        r.0 < r.1,
{
    match reading {
        Ok(range) => if range.1 > range.0 {
            range
        } else {
            (-PAN_FALLBACK_LIMIT, PAN_FALLBACK_LIMIT)
        },
        Err(_) => (-PAN_FALLBACK_LIMIT, PAN_FALLBACK_LIMIT),
    }
}

/// The tilt range for a reading of the driver's tilt range, with the same
/// fallback as `pan_range`.
pub fn tilt_range(reading: Result<(i32, i32), T4lError>) -> (r: (i32, i32))
    ensures
        r == range_or_fallback(reading, TILT_FALLBACK_LIMIT),
        r.0 < r.1,
{
    match reading {
        Ok(range) => if range.1 > range.0 {
            range
        } else {
            (-TILT_FALLBACK_LIMIT, TILT_FALLBACK_LIMIT)
        },
        Err(_) => (-TILT_FALLBACK_LIMIT, TILT_FALLBACK_LIMIT),
    }
}

} // verus!
