use hyprland_settings::fields::{Field, FIELD_COUNT};
use hyprland_settings::sections::Section;
use hyprland_settings::layout::{row_at, Row, ROW_COUNT};
use hyprland_settings::loader::parse_settings;
use hyprland_settings::serializer::{push_indent, push_row, render_settings};
use hyprland_settings::settings::HyprlandSettings;

fn default_lines() -> Vec<&'static str> {
    vec![
        "monitor = monitor=,preferred,auto,1",
        "",
        "input {",
        "    kb_layout = us",
        "    numlock_by_default = true",
        "    repeat_delay = 250",
        "    repeat_rate = 35",
        "    natural_scroll = true",
        "    scroll_factor = 0.5",
        "    follow_mouse = 1",
        "}",
        "",
        "binds {",
        "    scroll_event_delay = 0",
        "}",
        "",
        "gestures {",
        "    workspace_swipe = true",
        "    workspace_swipe_distance = 700",
        "    workspace_swipe_fingers = 4",
        "    workspace_swipe_cancel_ratio = 0.2",
        "    workspace_swipe_min_speed_to_force = 5",
        "    workspace_swipe_direction_lock = true",
        "    workspace_swipe_direction_lock_threshold = 10",
        "    workspace_swipe_create_new = true",
        "}",
        "",
        "general {",
        "    gaps_in = 2",
        "    gaps_out = 4",
        "    gaps_workspaces = 50",
        "    border_size = 1",
        "    active_border_color = rgba(0DB7D4FF)",
        "    inactive_border_color = rgba(31313600)",
        "    resize_on_border = true",
        "    no_focus_fallback = true",
        "    layout = dwindle",
        "    allow_tearing = true",
        "}",
        "",
        "dwindle {",
        "    preserve_split = true",
        "    smart_split = false",
        "    smart_resizing = false",
        "}",
        "",
        "decoration {",
        "    rounding = 0",
        "    blur {",
        "        enabled = true",
        "        xray = true",
        "        special = false",
        "        size = 5",
        "        passes = 4",
        "        brightness = 1",
        "        noise = 0.01",
        "        contrast = 1",
        "    }",
        "    dim_inactive = false",
        "    dim_strength = 0.1",
        "}",
        "",
        "animations {",
        "    enabled = true",
        "}",
        "",
        "misc {",
        "    vfr = 1",
        "    vrr = 1",
        "    animate_manual_resizes = false",
        "    animate_mouse_windowdragging = false",
        "    enable_swallow = false",
        "    swallow_regex = (foot|kitty|allacritty|Alacritty)",
        "    disable_hyprland_logo = true",
        "    force_default_wallpaper = 0",
        "    new_window_takes_over_fullscreen = 2",
        "    allow_session_lock_restore = true",
        "}",
        "",
        "plugin {",
        "    hyprexpo {",
        "        columns = 3",
        "        gap_size = 5",
        "        bg_col = rgb(000000)",
        "        workspace_method = first 1",
        "        enable_gesture = true",
        "        gesture_distance = 300",
        "        gesture_positive = false",
        "    }",
        "}",
    ]
}

#[test]
fn defaults_are_written_in_the_fixed_layout() {
    let text = render_settings(&HyprlandSettings::defaults());
    assert_eq!(text, default_lines().join("\n"));
}

#[test]
fn the_text_has_no_line_feed_at_its_end() {
    let text = render_settings(&HyprlandSettings::defaults());
    assert!(text.ends_with("    }\n}"));
    assert!(text.starts_with("monitor = monitor=,preferred,auto,1\n\ninput {\n    kb_layout = us\n"));
}

#[test]
fn the_layout_has_a_row_for_each_field() {
    let mut seen: Vec<Field> = Vec::new();
    for i in 0..ROW_COUNT {
        if let Row::Entry(field) = row_at(i) {
            assert!(!seen.contains(&field));
            seen.push(field);
        }
    }
    assert_eq!(seen.len(), 59);
    assert_eq!(ROW_COUNT, 90);
}

#[test]
fn rows_of_the_layout() {
    assert_eq!(row_at(0), Row::Entry(Field::Monitor));
    assert_eq!(row_at(1), Row::Blank);
    assert_eq!(row_at(2), Row::Open(Section::Input));
    assert_eq!(row_at(10), Row::Close(Section::Input));
    assert_eq!(row_at(32), Row::Entry(Field::ActiveBorderColor));
    assert_eq!(row_at(48), Row::Open(Section::Blur));
    assert_eq!(row_at(49), Row::Entry(Field::BlurEnabled));
    assert_eq!(row_at(57), Row::Close(Section::Blur));
    assert_eq!(row_at(79), Row::Open(Section::Plugin));
    assert_eq!(row_at(80), Row::Open(Section::Hyprexpo));
    assert_eq!(row_at(88), Row::Close(Section::Hyprexpo));
    assert_eq!(row_at(89), Row::Close(Section::Plugin));
}

#[test]
fn the_border_colours_are_written_under_their_names() {
    let text = render_settings(&HyprlandSettings::defaults());
    assert!(text.contains("\n    active_border_color = rgba(0DB7D4FF)\n"));
    assert!(text.contains("\n    inactive_border_color = rgba(31313600)\n"));
    assert!(!text.contains("col."));
}

#[test]
fn indentation_is_four_spaces_a_block() {
    let mut out = String::from("x");
    push_indent(&mut out, 0);
    assert_eq!(out, "x");
    push_indent(&mut out, 2);
    assert_eq!(out, "x        ");
}

#[test]
fn each_kind_of_row() {
    let mut settings = HyprlandSettings::defaults();
    settings.blur_size = 4294967295;
    settings.blur_xray = false;
    settings.blur_noise = String::from("-1.5e3");
    settings.layout = String::from("master  ");
    let mut out = String::new();
    push_row(&mut out, &settings, Row::Blank);
    assert_eq!(out, "");
    push_row(&mut out, &settings, Row::Open(Section::Blur));
    assert_eq!(out, "    blur {");
    out.clear();
    push_row(&mut out, &settings, Row::Open(Section::General));
    assert_eq!(out, "general {");
    out.clear();
    push_row(&mut out, &settings, Row::Close(Section::Blur));
    assert_eq!(out, "    }");
    out.clear();
    push_row(&mut out, &settings, Row::Close(Section::Plugin));
    assert_eq!(out, "}");
    out.clear();
    push_row(&mut out, &settings, Row::Entry(Field::BlurSize));
    assert_eq!(out, "        size = 4294967295");
    out.clear();
    push_row(&mut out, &settings, Row::Entry(Field::BlurXray));
    assert_eq!(out, "        xray = false");
    out.clear();
    push_row(&mut out, &settings, Row::Entry(Field::BlurNoise));
    assert_eq!(out, "        noise = -1.5e3");
    out.clear();
    push_row(&mut out, &settings, Row::Entry(Field::Layout));
    assert_eq!(out, "    layout = master  ");
    out.clear();
    push_row(&mut out, &settings, Row::Entry(Field::Monitor));
    assert_eq!(out, "monitor = monitor=,preferred,auto,1");
}

#[test]
fn edited_values_are_written_in_their_rows() {
    let mut settings = HyprlandSettings::defaults();
    settings.gaps_in = 10;
    settings.animation_enabled = false;
    settings.plugin_hyprexpo_bg_col = String::from("rgb(ffffff)");
    settings.dim_strength = String::from("0.25");
    let text = render_settings(&settings);
    let mut expected = default_lines();
    expected[28] = "    gaps_in = 10";
    expected[63] = "    enabled = false";
    expected[83] = "        bg_col = rgb(ffffff)";
    expected[59] = "    dim_strength = 0.25";
    assert_eq!(text, expected.join("\n"));
}

#[test]
fn a_written_record_of_defaults_loads_as_itself() {
    let settings = HyprlandSettings::defaults();
    assert_eq!(parse_settings(&render_settings(&settings)), settings);
}

fn edited() -> HyprlandSettings {
    HyprlandSettings {
        monitor: String::from("monitor=DP-1,1920x1080,0x0,1"),
        kb_layout: String::from("de"),
        numlock_by_default: false,
        repeat_delay: 0,
        repeat_rate: 4294967295,
        natural_scroll: false,
        scroll_factor: String::from("1.25"),
        follow_mouse: 2,
        scroll_event_delay: 300,
        workspace_swipe: false,
        workspace_swipe_distance: 1,
        workspace_swipe_fingers: 3,
        workspace_swipe_cancel_ratio: String::from("-0.75"),
        workspace_swipe_min_speed_to_force: 0,
        workspace_swipe_direction_lock: false,
        workspace_swipe_direction_lock_threshold: 99,
        workspace_swipe_create_new: false,
        gaps_in: 10,
        gaps_out: 20,
        gaps_workspaces: 0,
        border_size: 3,
        active_border_color: String::from("rgba(33ccffee) rgba(00ff99ee) 45deg"),
        inactive_border_color: String::from("rgba(595959aa)"),
        resize_on_border: false,
        no_focus_fallback: false,
        layout: String::from("master"),
        allow_tearing: false,
        preserve_split: false,
        smart_split: true,
        smart_resizing: true,
        rounding: 12,
        blur_enabled: false,
        blur_xray: false,
        blur_special: true,
        blur_size: 8,
        blur_passes: 1,
        blur_brightness: String::from("0.8172"),
        blur_noise: String::from("1e-3"),
        blur_contrast: String::from("inf"),
        dim_inactive: true,
        dim_strength: String::from(".5"),
        animation_enabled: false,
        vfr: 0,
        vrr: 2,
        animate_manual_resizes: true,
        animate_mouse_windowdragging: true,
        enable_swallow: true,
        swallow_regex: String::from("^(kitty|foot)$ = {x}"),
        disable_hyprland_logo: false,
        force_default_wallpaper: 2,
        new_window_takes_over_fullscreen: 1,
        allow_session_lock_restore: false,
        plugin_hyprexpo_columns: 4,
        plugin_hyprexpo_gap_size: 0,
        plugin_hyprexpo_bg_col: String::from("rgb(111111)"),
        plugin_hyprexpo_workspace_method: String::from("center current"),
        plugin_hyprexpo_enable_gesture: false,
        plugin_hyprexpo_gesture_distance: 150,
        plugin_hyprexpo_gesture_positive: true,
    }
}

#[test]
fn a_written_record_loads_as_itself() {
    let settings = edited();
    assert!(settings.is_well_formed());
    assert_eq!(parse_settings(&render_settings(&settings)), settings);
}

#[test]
fn written_values_are_read_back_from_their_blocks() {
    let mut settings = HyprlandSettings::defaults();
    settings.gaps_in = 10;
    settings.vfr = 0;
    settings.kb_layout = String::from("de");
    let loaded = parse_settings(&render_settings(&settings));
    assert_eq!(loaded.gaps_in, 10);
    assert_eq!(loaded.vfr, 0);
    assert_eq!(loaded.kb_layout, "de");
    assert_eq!(loaded, settings);
}

#[test]
fn each_field_alone_survives_writing_and_loading() {
    let other = edited();
    for i in 0..FIELD_COUNT {
        let field = Field::from_index(i);
        let mut text = String::new();
        other.push_value(&mut text, field);
        let mut settings = HyprlandSettings::defaults();
        settings.assign(field, &text);
        let loaded = parse_settings(&render_settings(&settings));
        assert_eq!(loaded, settings);
        let mut shown = String::new();
        loaded.push_value(&mut shown, field);
        assert_eq!(shown, text);
    }
}

#[test]
fn empty_texts_survive_writing_and_loading() {
    let mut settings = HyprlandSettings::defaults();
    settings.monitor = String::new();
    settings.swallow_regex = String::new();
    settings.plugin_hyprexpo_bg_col = String::new();
    assert_eq!(parse_settings(&render_settings(&settings)), settings);
}

#[test]
fn a_text_with_white_space_around_it_loads_trimmed() {
    let mut settings = HyprlandSettings::defaults();
    settings.monitor = String::from("  eDP-1  ");
    settings.layout = String::from("master\t");
    let loaded = parse_settings(&render_settings(&settings));
    assert_eq!(loaded.monitor, "eDP-1");
    assert_eq!(loaded.layout, "master");
}

#[test]
fn a_ratio_that_is_no_number_is_written_and_loads_as_the_default() {
    let mut settings = HyprlandSettings::defaults();
    settings.scroll_factor = String::from("fast");
    assert!(!settings.is_well_formed());
    let text = render_settings(&settings);
    assert!(text.contains("\n    scroll_factor = fast\n"));
    assert_eq!(parse_settings(&text).scroll_factor, "0.5");
    assert!(HyprlandSettings::defaults().is_well_formed());
    assert!(parse_settings(&text).is_well_formed());
}

#[test]
fn what_was_loaded_is_written_and_loaded_unchanged() {
    let text = "# settings\nmonitor =  HDMI-A-1, 2560x1440 = 60  \ninput {\n  kb_layout=de \n  repeat_rate = many\n  scroll_factor = 2e1\n}\ngeneral:layout =   \ndecoration {\n blur {\n  noise = -.25E-2\n  passes = +3\n }\n}\nmisc:swallow_regex = ^(a=b)$\n}\nplugin {\n hyprexpo {\n  workspace_method = center  current\n }\n";
    let loaded = parse_settings(text);
    assert_eq!(loaded.monitor, "HDMI-A-1, 2560x1440 = 60");
    assert_eq!(loaded.kb_layout, "de");
    assert_eq!(loaded.repeat_rate, 35);
    assert_eq!(loaded.scroll_factor, "2e1");
    assert_eq!(loaded.layout, "");
    assert_eq!(loaded.blur_noise, "-.25E-2");
    assert_eq!(loaded.blur_passes, 3);
    assert_eq!(loaded.swallow_regex, "^(a=b)$");
    assert_eq!(loaded.plugin_hyprexpo_workspace_method, "center  current");
    assert!(loaded.is_well_formed());
    let written = render_settings(&loaded);
    assert_eq!(parse_settings(&written), loaded);
    assert_eq!(render_settings(&parse_settings(&written)), written);
}
