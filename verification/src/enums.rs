use vstd::prelude::*;

verus! {

/// Whether the camera is awake or asleep.
#[derive(Clone, Copy, Debug, PartialEq, Eq, Structural)]
pub enum SleepMode {
    Awake,
    Sleep,
}

/// The camera's subject tracking mode.
#[derive(Clone, Copy, Debug, PartialEq, Eq, Structural)]
pub enum AIMode {
    NoTracking,
    NormalTracking,
    UpperBody,
    CloseUp,
    Headless,
    LowerBody,
    DeskMode,
    Whiteboard,
    Hand,
    Group,
}

/// How fast the camera follows its subject.
#[derive(Clone, Copy, Debug, PartialEq, Eq, Structural)]
pub enum TrackingSpeed {
    Standard,
    Sport,
}

/// The camera's exposure metering mode.
#[derive(Clone, Copy, Debug, PartialEq, Eq, Structural)]
pub enum ExposureMode {
    Manual,
    Global,
    Face,
}

/// The part of the camera's state that its status report gives.
#[derive(Clone, Copy, Debug, PartialEq, Eq, Structural)]
pub struct CameraStatus {
    pub awake: SleepMode,
    pub ai_mode: AIMode,
    pub speed: TrackingSpeed,
    pub hdr_on: bool,
}

impl Default for CameraStatus {
    /// The status assumed while no camera has reported one.
    fn default() -> (s: CameraStatus)
        ensures
            s == (CameraStatus {
                awake: SleepMode::Awake,
                ai_mode: AIMode::NoTracking,
                speed: TrackingSpeed::Standard,
                hdr_on: false,
            }),
    {
        CameraStatus {
            awake: SleepMode::Awake,
            ai_mode: AIMode::NoTracking,
            speed: TrackingSpeed::Standard,
            hdr_on: false,
        }
    }
}

} // verus!
