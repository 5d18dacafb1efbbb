use vstd::prelude::*;

verus! {

/// Errors reported by the camera library.
#[derive(Debug)]
pub enum T4lError {
    /// No custom preset carries the given name.
    PresetNotFound(String),
    /// A setting could not be applied or encoded.
    InvalidSetting,
    /// Reading or writing persistent data failed; the text describes the failure.
    Io(String),
}

} // verus!
