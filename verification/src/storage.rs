//! Loading from and saving to the settings file, as far as it is decided
//! here: where the file lies, what each step of reading and writing leads to,
//! and which error a failed step comes to. The steps themselves are the
//! caller's to take.
use crate::error::SettingsError;
use crate::loader::{loaded, parse_settings};
use crate::serializer::{render_settings, rendered};
use crate::settings::HyprlandSettings;
use vstd::prelude::*;

verus! {

/// Where the settings file lies below the home directory `home`.
pub open spec fn path_below(home: Seq<char>) -> Seq<char> {
    home + "/.config/hypr/custom/general.conf"@
}

/// Where the settings file lies below the home directory `home`.
pub fn config_path(home: &str) -> (path: String)
    ensures
        path@ == path_below(home@),
{
    home.to_owned().concat("/.config/hypr/custom/general.conf")
}

/// What loading comes to, given what reading the settings file gave: the
/// file's text, or the text of the reason why it could not be read. A file
/// that was read always gives a record. One that was not gives the error,
/// and no record of defaults in its place.
pub fn read_settings(file: Result<String, String>) -> (r: Result<HyprlandSettings, SettingsError>)
    ensures
        match file {
            Ok(content) => r is Ok && r->Ok_0@ == loaded(content@) && r->Ok_0.well_formed(),
            Err(cause) => r is Err && r->Err_0 is Read && r->Err_0->Read_0@ == cause@,
        },
{
    match file {
        Ok(content) => Ok(parse_settings(content.as_str())),
        Err(cause) => Err(SettingsError::Read(cause)),
    }
}

/// What is to be done next to save a record.
#[derive(Debug, Clone, PartialEq, Eq)]
pub enum SaveStep {
    /// Write this text to the settings file, in place of what the file held.
    Write(String),
    /// Tell the window manager to read its configuration again.
    Reload,
    /// Nothing: the record is saved and the window manager knows.
    Done,
}

/// The first step of saving `settings`: to write the text that the record is
/// written as.
pub fn save_settings(settings: &HyprlandSettings) -> (step: SaveStep)
    ensures
        step is Write,
        step->Write_0@ == rendered(settings@),
{
    SaveStep::Write(render_settings(settings))
}

/// What follows `step`, given how it went: `Ok`, or the text of the reason
/// why it failed. A write that failed ends the saving before any reload. A
/// reload that failed ends it too, with an error of its own, since by then
/// the file is written.
pub fn save_next(step: SaveStep, outcome: Result<(), String>) -> (r: Result<
    SaveStep,
    SettingsError,
>)
    ensures
        match (step, outcome) {
            (SaveStep::Write(_), Ok(_)) => r is Ok && r->Ok_0 is Reload,
            (SaveStep::Write(_), Err(cause)) => r is Err && r->Err_0 is Write
                && r->Err_0->Write_0@ == cause@,
            (SaveStep::Reload, Ok(_)) => r is Ok && r->Ok_0 is Done,
            (SaveStep::Reload, Err(cause)) => r is Err && r->Err_0 is Reload
                && r->Err_0->Reload_0@ == cause@,
            (SaveStep::Done, _) => r is Ok && r->Ok_0 is Done,
        },
{
    match step {
        SaveStep::Write(_) => match outcome {
            Ok(_) => Ok(SaveStep::Reload),
            Err(cause) => Err(SettingsError::Write(cause)),
        },
        SaveStep::Reload => match outcome {
            Ok(_) => Ok(SaveStep::Done),
            Err(cause) => Err(SettingsError::Reload(cause)),
        },
        SaveStep::Done => Ok(SaveStep::Done),
    }
}

} // verus!
