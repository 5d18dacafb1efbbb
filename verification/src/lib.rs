//! Control library for the OBSBOT Tiny 2 webcam: the custom preset store,
//! the camera command rules and the state machine behind the control panel.

pub mod camera;
pub mod enums;
pub mod error;
pub mod hexinput;
pub mod panel;
pub mod presets;
pub mod settings;
pub mod startup;
pub mod text;

pub use camera::{Camera, CameraCall, CameraCommand, Tiny2Camera};
pub use enums::{AIMode, CameraStatus, ExposureMode, SleepMode, TrackingSpeed};
pub use error::T4lError;
pub use presets::{CustomPreset, CustomPresetStore};
pub use startup::{start_mode, WindowMode};
