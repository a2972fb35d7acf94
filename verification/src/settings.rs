//! Which audio devices the recorder is asked to use, and the paths it records to.
use vstd::prelude::*;

verus! {

/// A file system path, as std's `PathBuf`. The library only moves paths from where they
/// are given to where they are used and never looks inside one, so a path that is not
/// valid Unicode passes through unchanged.
#[verifier::external_type_specification]
#[verifier::external_body]
pub struct ExPathBuf(std::path::PathBuf);

/// `PathBuf`'s `clone`, which copies the path into a new buffer. Nothing is stated of the
/// copy: the library never relies on what a cloned path holds.
pub assume_specification[ <std::path::PathBuf as Clone>::clone ](p: &std::path::PathBuf) -> (r:
    std::path::PathBuf);

/// The name of an audio device, as the backend reports it.
#[derive(Debug, Clone, PartialEq, PartialOrd)]
pub struct DeviceName(pub String);

impl core::ops::Deref for DeviceName {
    type Target = str;

    /// The name as a string slice.
    fn deref(&self) -> (s: &str)
        ensures
            s@ == self.0@,
    {
        self.0.as_str()
    }
}

/// A device choice: the system default, or a device picked by name.
#[derive(Debug, Clone, PartialEq, PartialOrd)]
pub enum DeviceSelection {
    Default,
    Selected(DeviceName),
}

} // verus!
