use hyprland_settings::error::SettingsError;
use hyprland_settings::serializer::render_settings;
use hyprland_settings::settings::HyprlandSettings;
use hyprland_settings::storage::{config_path, read_settings, save_next, save_settings, SaveStep};

#[test]
fn the_settings_file_lies_below_the_home_directory() {
    assert_eq!(config_path("/home/ann"), "/home/ann/.config/hypr/custom/general.conf");
    assert_eq!(config_path(""), "/.config/hypr/custom/general.conf");
}

#[test]
fn a_file_that_cannot_be_read_gives_a_read_error() {
    let r = read_settings(Err(String::from("No such file or directory (os error 2)")));
    assert_eq!(r, Err(SettingsError::Read(String::from("No such file or directory (os error 2)"))));
    assert_eq!(
        r.unwrap_err().message(),
        "Failed to read config: No such file or directory (os error 2)"
    );
}

#[test]
fn a_file_that_was_read_gives_its_record() {
    let r = read_settings(Ok(String::from("general:gaps_in = 10")));
    let mut expected = HyprlandSettings::defaults();
    expected.gaps_in = 10;
    assert_eq!(r, Ok(expected));
    assert_eq!(read_settings(Ok(String::new())), Ok(HyprlandSettings::defaults()));
}

#[test]
fn saving_writes_then_reloads() {
    let mut settings = HyprlandSettings::defaults();
    settings.rounding = 8;
    let first = save_settings(&settings);
    assert_eq!(first, SaveStep::Write(render_settings(&settings)));
    let second = save_next(first, Ok(()));
    assert_eq!(second, Ok(SaveStep::Reload));
    let third = save_next(SaveStep::Reload, Ok(()));
    assert_eq!(third, Ok(SaveStep::Done));
    assert_eq!(save_next(SaveStep::Done, Ok(())), Ok(SaveStep::Done));
    assert_eq!(save_next(SaveStep::Done, Err(String::from("late"))), Ok(SaveStep::Done));
}

#[test]
fn a_failed_write_ends_the_saving_before_the_reload() {
    let first = save_settings(&HyprlandSettings::defaults());
    let r = save_next(first, Err(String::from("Permission denied (os error 13)")));
    assert_eq!(r, Err(SettingsError::Write(String::from("Permission denied (os error 13)"))));
    assert_eq!(r.unwrap_err().message(), "Failed to write config: Permission denied (os error 13)");
}

#[test]
fn a_failed_reload_is_an_error_of_its_own() {
    let r = save_next(SaveStep::Reload, Err(String::from("No such file or directory (os error 2)")));
    assert_eq!(r, Err(SettingsError::Reload(String::from("No such file or directory (os error 2)"))));
    assert_eq!(
        r.unwrap_err().message(),
        "Failed to reload Hyprland: No such file or directory (os error 2)"
    );
}
