//! What can go wrong around the settings file.
use vstd::prelude::*;

verus! {

/// A failure of loading or saving, with the text of its cause.
///
/// A failed reload comes after the file was written: the settings are saved,
/// the window manager has not taken them up.
#[derive(Debug, Clone, PartialEq, Eq)]
pub enum SettingsError {
    /// The settings file could not be read.
    Read(String),
    /// The settings file could not be written.
    Write(String),
    /// The file was written, and the window manager could not be told.
    Reload(String),
}

impl SettingsError {
    /// The message of this error: what failed, then the text of the cause.
    pub open spec fn text(&self) -> Seq<char> {
        match self {
            SettingsError::Read(cause) => "Failed to read config: "@ + cause@,
            SettingsError::Write(cause) => "Failed to write config: "@ + cause@,
            SettingsError::Reload(cause) => "Failed to reload Hyprland: "@ + cause@,
        }
    }

    /// The message of this error.
    pub fn message(&self) -> (s: String)
        ensures
            s@ == self.text(),
    {
        match self {
            SettingsError::Read(cause) => "Failed to read config: ".to_owned().concat(
                cause.as_str(),
            ),
            SettingsError::Write(cause) => "Failed to write config: ".to_owned().concat(
                cause.as_str(),
            ),
            SettingsError::Reload(cause) => "Failed to reload Hyprland: ".to_owned().concat(
                cause.as_str(),
            ),
        }
    }
}

} // verus!
