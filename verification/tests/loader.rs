use hyprland_settings::fields::{field_of_key, Field, FIELD_COUNT};
use hyprland_settings::loader::{block_edge, parse_settings, split_assignment, Edge};
use hyprland_settings::sections::{Blocks, Section};
use hyprland_settings::settings::HyprlandSettings;

#[test]
fn a_text_without_recognized_keys_gives_the_defaults() {
    assert_eq!(parse_settings(""), HyprlandSettings::defaults());
    assert_eq!(parse_settings("\n\n# a comment\ngeneral {\n}\n"), HyprlandSettings::defaults());
    assert_eq!(parse_settings("gaps_in = 7\n"), HyprlandSettings::defaults());
}

#[test]
fn the_defaults() {
    let d = HyprlandSettings::defaults();
    assert_eq!(d.monitor, "monitor=,preferred,auto,1");
    assert_eq!(d.kb_layout, "us");
    assert!(d.numlock_by_default);
    assert_eq!(d.repeat_delay, 250);
    assert_eq!(d.repeat_rate, 35);
    assert!(d.natural_scroll);
    assert_eq!(d.scroll_factor, "0.5");
    assert_eq!(d.follow_mouse, 1);
    assert_eq!(d.scroll_event_delay, 0);
    assert!(d.workspace_swipe);
    assert_eq!(d.workspace_swipe_distance, 700);
    assert_eq!(d.workspace_swipe_fingers, 4);
    assert_eq!(d.workspace_swipe_cancel_ratio, "0.2");
    assert_eq!(d.workspace_swipe_min_speed_to_force, 5);
    assert!(d.workspace_swipe_direction_lock);
    assert_eq!(d.workspace_swipe_direction_lock_threshold, 10);
    assert!(d.workspace_swipe_create_new);
    assert_eq!(d.gaps_in, 2);
    assert_eq!(d.gaps_out, 4);
    assert_eq!(d.gaps_workspaces, 50);
    assert_eq!(d.border_size, 1);
    assert_eq!(d.active_border_color, "rgba(0DB7D4FF)");
    assert_eq!(d.inactive_border_color, "rgba(31313600)");
    assert!(d.resize_on_border);
    assert!(d.no_focus_fallback);
    assert_eq!(d.layout, "dwindle");
    assert!(d.allow_tearing);
    assert!(d.preserve_split);
    assert!(!d.smart_split);
    assert!(!d.smart_resizing);
    assert_eq!(d.rounding, 0);
    assert!(d.blur_enabled);
    assert!(d.blur_xray);
    assert!(!d.blur_special);
    assert_eq!(d.blur_size, 5);
    assert_eq!(d.blur_passes, 4);
    assert_eq!(d.blur_brightness.parse::<f32>(), Ok(1.0));
    assert_eq!(d.blur_noise.parse::<f32>(), Ok(0.01));
    assert_eq!(d.blur_contrast.parse::<f32>(), Ok(1.0));
    assert!(!d.dim_inactive);
    assert_eq!(d.dim_strength.parse::<f32>(), Ok(0.1));
    assert!(d.animation_enabled);
    assert_eq!(d.vfr, 1);
    assert_eq!(d.vrr, 1);
    assert!(!d.animate_manual_resizes);
    assert!(!d.animate_mouse_windowdragging);
    assert!(!d.enable_swallow);
    assert_eq!(d.swallow_regex, "(foot|kitty|allacritty|Alacritty)");
    assert!(d.disable_hyprland_logo);
    assert_eq!(d.force_default_wallpaper, 0);
    assert_eq!(d.new_window_takes_over_fullscreen, 2);
    assert!(d.allow_session_lock_restore);
    assert_eq!(d.plugin_hyprexpo_columns, 3);
    assert_eq!(d.plugin_hyprexpo_gap_size, 5);
    assert_eq!(d.plugin_hyprexpo_bg_col, "rgb(000000)");
    assert_eq!(d.plugin_hyprexpo_workspace_method, "first 1");
    assert!(d.plugin_hyprexpo_enable_gesture);
    assert_eq!(d.plugin_hyprexpo_gesture_distance, 300);
    assert!(!d.plugin_hyprexpo_gesture_positive);
}

#[test]
fn a_line_overrides_the_default_of_its_field_only() {
    let mut expected = HyprlandSettings::defaults();
    expected.gaps_in = 10;
    assert_eq!(parse_settings("general:gaps_in = 10"), expected);
}

#[test]
fn a_malformed_number_gives_the_default() {
    let loaded = parse_settings("general:gaps_in = notanumber");
    assert_eq!(loaded.gaps_in, 2);
    assert_eq!(loaded, HyprlandSettings::defaults());
}

#[test]
fn a_malformed_value_gives_the_default_and_not_the_value_before() {
    let loaded = parse_settings("general:gaps_in = 7\ngeneral:gaps_in = x\n");
    assert_eq!(loaded.gaps_in, 2);
    let loaded = parse_settings("dwindle:smart_split = true\ndwindle:smart_split = yes\n");
    assert!(!loaded.smart_split);
    let loaded = parse_settings("input:scroll_factor = 2.5\ninput:scroll_factor = fast\n");
    assert_eq!(loaded.scroll_factor, "0.5");
}

#[test]
fn an_unrecognized_key_is_passed_over() {
    assert_eq!(parse_settings("foo:bar = baz"), HyprlandSettings::defaults());
}

#[test]
fn the_last_line_for_a_key_decides() {
    let loaded = parse_settings("general:gaps_in = 1\ninput:kb_layout = de\ngeneral:gaps_in = 9\n");
    assert_eq!(loaded.gaps_in, 9);
    assert_eq!(loaded.kb_layout, "de");
}

#[test]
fn a_line_is_cut_at_its_first_equals_sign() {
    let loaded = parse_settings("monitor = monitor=DP-1,1920x1080,0x0,1\n");
    assert_eq!(loaded.monitor, "monitor=DP-1,1920x1080,0x0,1");
    let loaded = parse_settings("general:layout = x = y\nmonitor==\n");
    assert_eq!(loaded.layout, "x = y");
    assert_eq!(loaded.monitor, "=");
    let loaded = parse_settings("general:gaps_in = 5 = 6\n");
    assert_eq!(loaded.gaps_in, 2);
}

#[test]
fn keys_and_values_are_trimmed() {
    let loaded = parse_settings("  \t general:layout \t =   master  \r\n\tmonitor=DP-1, 1920x1080 \n");
    assert_eq!(loaded.layout, "master");
    assert_eq!(loaded.monitor, "DP-1, 1920x1080");
    let loaded = parse_settings("\u{a0}general:layout\u{3000}=\u{2003}master\u{85}");
    assert_eq!(loaded.layout, "master");
}

#[test]
fn a_text_value_may_be_empty() {
    let loaded = parse_settings("general:layout =\n");
    assert_eq!(loaded.layout, "");
    let loaded = parse_settings("general:layout=");
    assert_eq!(loaded.layout, "");
}

#[test]
fn keys_are_matched_exactly() {
    assert_eq!(parse_settings("General:gaps_in = 10"), HyprlandSettings::defaults());
    assert_eq!(parse_settings("general: gaps_in = 10"), HyprlandSettings::defaults());
    assert_eq!(parse_settings("general:gaps_in2 = 10"), HyprlandSettings::defaults());
    assert_eq!(parse_settings("animations:vfr = 0"), HyprlandSettings::defaults());
    assert_eq!(parse_settings("general.gaps_in = 10"), HyprlandSettings::defaults());
    assert_eq!(parse_settings("blur:size = 10"), HyprlandSettings::defaults());
}

#[test]
fn the_keys_of_the_sections() {
    let loaded = parse_settings("misc:vfr = 0\nmisc:vrr = 2\nanimations:enabled = false\n");
    assert_eq!(loaded.vfr, 0);
    assert_eq!(loaded.vrr, 2);
    assert!(!loaded.animation_enabled);
    let loaded = parse_settings("decoration.blur:size = 9\nplugin.hyprexpo:columns = 7\n");
    assert_eq!(loaded.blur_size, 9);
    assert_eq!(loaded.plugin_hyprexpo_columns, 7);
    let loaded = parse_settings("general:active_border_color = red\ngeneral:inactive_border_color = blue\n");
    assert_eq!(loaded.active_border_color, "red");
    assert_eq!(loaded.inactive_border_color, "blue");
}

#[test]
fn fields_are_read_from_the_blocks_of_their_sections() {
    let text = "monitor = eDP-1\n\ngeneral {\n    gaps_in = 10\n    active_border_color = red\n}\n\ndecoration {\n    rounding = 6\n    blur {\n        enabled = false\n        size = 9\n    }\n    dim_inactive = true\n}\n\nanimations {\n    enabled = false\n}\nplugin {\n    hyprexpo {\n        columns = 5\n    }\n}\nmisc {\n    vfr = 0\n}";
    let mut expected = HyprlandSettings::defaults();
    expected.monitor = String::from("eDP-1");
    expected.gaps_in = 10;
    expected.active_border_color = String::from("red");
    expected.rounding = 6;
    expected.blur_enabled = false;
    expected.blur_size = 9;
    expected.dim_inactive = true;
    expected.animation_enabled = false;
    expected.plugin_hyprexpo_columns = 5;
    expected.vfr = 0;
    assert_eq!(parse_settings(text), expected);
}

#[test]
fn a_name_counts_in_the_blocks_of_its_section_only() {
    assert_eq!(parse_settings("gaps_in = 7\n"), HyprlandSettings::defaults());
    assert_eq!(parse_settings("input {\n    gaps_in = 7\n}\n"), HyprlandSettings::defaults());
    assert_eq!(parse_settings("general {\n}\ngaps_in = 7\n"), HyprlandSettings::defaults());
    assert_eq!(parse_settings("decoration {\n    size = 7\n}\n"), HyprlandSettings::defaults());
    assert_eq!(parse_settings("blur {\n    size = 7\n}\n"), HyprlandSettings::defaults());
    assert_eq!(
        parse_settings("general {\n    extra {\n        gaps_in = 7\n    }\n}\n"),
        HyprlandSettings::defaults()
    );
    assert_eq!(parse_settings("general {\n    monitor = x\n}\n").monitor, "x");
    let loaded = parse_settings("animations {\n    enabled = false\n}\ndecoration {\n    blur {\n    }\n    enabled = false\n}\n");
    assert!(!loaded.animation_enabled);
    assert!(loaded.blur_enabled);
}

#[test]
fn blocks_nest_and_close() {
    let loaded = parse_settings("general {\n    extra {\n    }\n    gaps_in = 7\n}\n");
    assert_eq!(loaded.gaps_in, 7);
    let loaded = parse_settings("}\n}\ngeneral {\n    gaps_in = 7\n}\n");
    assert_eq!(loaded.gaps_in, 7);
    let loaded = parse_settings("  general{  \r\n\tgaps_in=7\r\n  }  \r\ninput   {\r\nkb_layout = de\r\n}");
    assert_eq!(loaded.gaps_in, 7);
    assert_eq!(loaded.kb_layout, "de");
    let loaded = parse_settings("general {\n    gaps_in = 7\n    general:gaps_out = 8\n    input:kb_layout = de\n}\n");
    assert_eq!(loaded.gaps_in, 7);
    assert_eq!(loaded.gaps_out, 8);
    assert_eq!(loaded.kb_layout, "de");
    let loaded = parse_settings("general {\n    gaps_in = 7\n}\ngeneral:gaps_in = 8\ngeneral {\n    gaps_in = 9\n}\n");
    assert_eq!(loaded.gaps_in, 9);
}

#[test]
fn what_a_line_does_to_the_blocks() {
    assert_eq!(block_edge("general {"), Edge::Open(vec!['g', 'e', 'n', 'e', 'r', 'a', 'l']));
    assert_eq!(block_edge("  blur{ "), Edge::Open(vec!['b', 'l', 'u', 'r']));
    assert_eq!(block_edge("{"), Edge::Open(vec![]));
    assert_eq!(block_edge("a b {"), Edge::Open(vec!['a', ' ', 'b']));
    assert_eq!(block_edge("}"), Edge::Close);
    assert_eq!(block_edge(" \t} \r"), Edge::Close);
    assert_eq!(block_edge(""), Edge::Neither);
    assert_eq!(block_edge("general"), Edge::Neither);
    assert_eq!(block_edge("general { x"), Edge::Neither);
    assert_eq!(block_edge("}}"), Edge::Neither);
    assert_eq!(block_edge("} x"), Edge::Neither);
    assert_eq!(block_edge("a = {"), Edge::Neither);
    assert_eq!(block_edge("a = }"), Edge::Neither);
    let mut blocks = Blocks::new();
    assert!(blocks.at(Section::Top));
    blocks.step("decoration {");
    assert!(blocks.at(Section::Decoration));
    assert!(!blocks.at(Section::Top));
    blocks.step("rounding = 3");
    assert!(blocks.at(Section::Decoration));
    blocks.step("blur {");
    assert!(blocks.at(Section::Blur));
    assert!(!blocks.at(Section::Decoration));
    assert!(!blocks.at(Section::Hyprexpo));
    blocks.step("}");
    assert!(blocks.at(Section::Decoration));
    blocks.step("}");
    blocks.step("}");
    assert!(blocks.at(Section::Top));
    blocks.step("hyprexpo {");
    assert!(!blocks.at(Section::Hyprexpo));
    blocks.close();
    blocks.open(vec!['p', 'l', 'u', 'g', 'i', 'n']);
    blocks.step("hyprexpo {");
    assert!(blocks.at(Section::Hyprexpo));
}

#[test]
fn sections_and_their_blocks() {
    assert_eq!(Section::Top.block_name(), "");
    assert_eq!(Section::Blur.block_name(), "blur");
    assert_eq!(Section::Blur.outer(), Section::Decoration);
    assert_eq!(Section::Hyprexpo.outer(), Section::Plugin);
    assert_eq!(Section::General.outer(), Section::Top);
    assert_eq!(Section::Top.level(), 0);
    assert_eq!(Section::Misc.level(), 1);
    assert_eq!(Section::Hyprexpo.level(), 2);
    assert_eq!(Field::BlurSize.section_of(), Section::Blur);
    assert_eq!(Field::BlurSize.name_str(), "size");
    assert_eq!(Field::BlurSize.key_name(), "decoration.blur:size");
    assert_eq!(Field::Vfr.section_of(), Section::Misc);
    assert_eq!(Field::Monitor.section_of(), Section::Top);
    assert_eq!(Field::Monitor.key_name(), "monitor");
    assert_eq!(Field::ActiveBorderColor.name_str(), "active_border_color");
    for i in 0..FIELD_COUNT {
        let field = Field::from_index(i);
        let section = field.section_of();
        let mut key = String::new();
        if section.level() == 2 {
            key.push_str(section.outer().block_name());
            key.push('.');
        }
        key.push_str(section.block_name());
        if section.level() > 0 {
            key.push(':');
        }
        key.push_str(field.name_str());
        assert_eq!(field.key_name(), key);
    }
}

#[test]
fn flags_are_true_or_false_in_lower_case() {
    let loaded = parse_settings("input:natural_scroll = false\ndwindle:smart_split = true\n");
    assert!(!loaded.natural_scroll);
    assert!(loaded.smart_split);
    let loaded = parse_settings("input:natural_scroll = False\ndwindle:smart_split = TRUE\n");
    assert!(loaded.natural_scroll);
    assert!(!loaded.smart_split);
    let loaded = parse_settings("input:natural_scroll = 0\ndwindle:smart_split = 1\n");
    assert!(loaded.natural_scroll);
    assert!(!loaded.smart_split);
}

#[test]
fn each_key_sets_its_field() {
    let text = "monitor = m\ninput:kb_layout = k\ninput:numlock_by_default = false\ninput:repeat_delay = 101\ninput:repeat_rate = 102\ninput:natural_scroll = false\ninput:scroll_factor = 1.25\ninput:follow_mouse = 103\nbinds:scroll_event_delay = 104\ngestures:workspace_swipe = false\ngestures:workspace_swipe_distance = 105\ngestures:workspace_swipe_fingers = 106\ngestures:workspace_swipe_cancel_ratio = 2.25\ngestures:workspace_swipe_min_speed_to_force = 107\ngestures:workspace_swipe_direction_lock = false\ngestures:workspace_swipe_direction_lock_threshold = 108\ngestures:workspace_swipe_create_new = false\ngeneral:gaps_in = 109\ngeneral:gaps_out = 110\ngeneral:gaps_workspaces = 111\ngeneral:border_size = 112\ngeneral:active_border_color = a\ngeneral:inactive_border_color = i\ngeneral:resize_on_border = false\ngeneral:no_focus_fallback = false\ngeneral:layout = l\ngeneral:allow_tearing = false\ndwindle:preserve_split = false\ndwindle:smart_split = true\ndwindle:smart_resizing = true\ndecoration:rounding = 113\ndecoration.blur:enabled = false\ndecoration.blur:xray = false\ndecoration.blur:special = true\ndecoration.blur:size = 114\ndecoration.blur:passes = 115\ndecoration.blur:brightness = 3.25\ndecoration.blur:noise = 4.25\ndecoration.blur:contrast = 5.25\ndecoration:dim_inactive = true\ndecoration:dim_strength = 6.25\nanimations:enabled = false\nmisc:vfr = 116\nmisc:vrr = 117\nmisc:animate_manual_resizes = true\nmisc:animate_mouse_windowdragging = true\nmisc:enable_swallow = true\nmisc:swallow_regex = s\nmisc:disable_hyprland_logo = false\nmisc:force_default_wallpaper = 118\nmisc:new_window_takes_over_fullscreen = 119\nmisc:allow_session_lock_restore = false\nplugin.hyprexpo:columns = 120\nplugin.hyprexpo:gap_size = 121\nplugin.hyprexpo:bg_col = b\nplugin.hyprexpo:workspace_method = w\nplugin.hyprexpo:enable_gesture = false\nplugin.hyprexpo:gesture_distance = 122\nplugin.hyprexpo:gesture_positive = true\n";
    let s = parse_settings(text);
    let expected = HyprlandSettings {
        monitor: String::from("m"),
        kb_layout: String::from("k"),
        numlock_by_default: false,
        repeat_delay: 101,
        repeat_rate: 102,
        natural_scroll: false,
        scroll_factor: String::from("1.25"),
        follow_mouse: 103,
        scroll_event_delay: 104,
        workspace_swipe: false,
        workspace_swipe_distance: 105,
        workspace_swipe_fingers: 106,
        workspace_swipe_cancel_ratio: String::from("2.25"),
        workspace_swipe_min_speed_to_force: 107,
        workspace_swipe_direction_lock: false,
        workspace_swipe_direction_lock_threshold: 108,
        workspace_swipe_create_new: false,
        gaps_in: 109,
        gaps_out: 110,
        gaps_workspaces: 111,
        border_size: 112,
        active_border_color: String::from("a"),
        inactive_border_color: String::from("i"),
        resize_on_border: false,
        no_focus_fallback: false,
        layout: String::from("l"),
        allow_tearing: false,
        preserve_split: false,
        smart_split: true,
        smart_resizing: true,
        rounding: 113,
        blur_enabled: false,
        blur_xray: false,
        blur_special: true,
        blur_size: 114,
        blur_passes: 115,
        blur_brightness: String::from("3.25"),
        blur_noise: String::from("4.25"),
        blur_contrast: String::from("5.25"),
        dim_inactive: true,
        dim_strength: String::from("6.25"),
        animation_enabled: false,
        vfr: 116,
        vrr: 117,
        animate_manual_resizes: true,
        animate_mouse_windowdragging: true,
        enable_swallow: true,
        swallow_regex: String::from("s"),
        disable_hyprland_logo: false,
        force_default_wallpaper: 118,
        new_window_takes_over_fullscreen: 119,
        allow_session_lock_restore: false,
        plugin_hyprexpo_columns: 120,
        plugin_hyprexpo_gap_size: 121,
        plugin_hyprexpo_bg_col: String::from("b"),
        plugin_hyprexpo_workspace_method: String::from("w"),
        plugin_hyprexpo_enable_gesture: false,
        plugin_hyprexpo_gesture_distance: 122,
        plugin_hyprexpo_gesture_positive: true,
    };
    assert_eq!(s, expected);
}

#[test]
fn lines_split_at_their_first_equals_sign() {
    assert_eq!(split_assignment(" a = b "), Some(("a", "b")));
    assert_eq!(split_assignment("="), Some(("", "")));
    assert_eq!(split_assignment("key=v w"), Some(("key", "v w")));
    assert_eq!(split_assignment("no sign"), None);
    assert_eq!(split_assignment(""), None);
    assert_eq!(split_assignment("a=b=c"), Some(("a", "b=c")));
    assert_eq!(split_assignment(" a == "), Some(("a", "=")));
    assert_eq!(split_assignment("\u{e9}t\u{e9} = \u{4e2d}\u{6587} "), Some(("\u{e9}t\u{e9}", "\u{4e2d}\u{6587}")));
}

#[test]
fn keys_name_their_fields() {
    assert_eq!(FIELD_COUNT, 59);
    let top = Blocks::new();
    let mut blur = Blocks::new();
    blur.step("decoration {");
    blur.step("blur {");
    for i in 0..FIELD_COUNT {
        let field = Field::from_index(i);
        assert_eq!(field_of_key(&top, field.key_name()), Some(field));
        assert_eq!(field_of_key(&blur, field.key_name()), Some(field));
        let mut own = Blocks::new();
        let section = field.section_of();
        if section.level() == 2 {
            own.open(section.outer().block_name().chars().collect());
        }
        if section.level() > 0 {
            own.open(section.block_name().chars().collect());
        }
        assert_eq!(field_of_key(&own, field.name_str()), Some(field));
    }
    assert_eq!(field_of_key(&top, "monitor"), Some(Field::Monitor));
    assert_eq!(field_of_key(&blur, "monitor"), Some(Field::Monitor));
    assert_eq!(field_of_key(&top, "misc:vfr"), Some(Field::Vfr));
    assert_eq!(field_of_key(&top, "plugin.hyprexpo:gesture_positive"), Some(Field::PluginHyprexpoGesturePositive));
    assert_eq!(field_of_key(&top, "general:active_border_color"), Some(Field::ActiveBorderColor));
    assert_eq!(field_of_key(&blur, "enabled"), Some(Field::BlurEnabled));
    assert_eq!(field_of_key(&blur, "size"), Some(Field::BlurSize));
    assert_eq!(field_of_key(&top, "enabled"), None);
    assert_eq!(field_of_key(&top, "size"), None);
    assert_eq!(field_of_key(&blur, "rounding"), None);
    assert_eq!(field_of_key(&top, "col.active_border"), None);
    assert_eq!(field_of_key(&top, ""), None);
    assert_eq!(field_of_key(&top, "monitor "), None);
    assert_eq!(field_of_key(&top, "monito"), None);
}

#[test]
fn assigning_a_field_leaves_the_others() {
    let mut settings = HyprlandSettings::defaults();
    settings.assign(Field::BorderSize, "3");
    settings.assign(Field::SwallowRegex, "(kitty)");
    settings.assign(Field::DimInactive, "true");
    settings.assign(Field::BlurNoise, ".5");
    let mut expected = HyprlandSettings::defaults();
    expected.border_size = 3;
    expected.swallow_regex = String::from("(kitty)");
    expected.dim_inactive = true;
    expected.blur_noise = String::from(".5");
    assert_eq!(settings, expected);
    settings.assign(Field::BorderSize, "-3");
    settings.assign(Field::DimInactive, "maybe");
    settings.assign(Field::BlurNoise, "half");
    expected.border_size = 1;
    expected.dim_inactive = false;
    expected.blur_noise = String::from("0.01");
    assert_eq!(settings, expected);
}

#[test]
fn a_line_is_applied_to_a_record() {
    let top = Blocks::new();
    let mut misc = Blocks::new();
    misc.step("misc {");
    let mut settings = HyprlandSettings::defaults();
    settings.apply_line(&top, "  animations:vfr = 0");
    settings.apply_line(&top, "vfr = 0");
    assert_eq!(settings, HyprlandSettings::defaults());
    settings.apply_line(&top, "  misc:vfr = 0");
    assert_eq!(settings.vfr, 0);
    settings.apply_line(&top, "}");
    settings.apply_line(&misc, "vfr = 3 = 1");
    assert_eq!(settings.vfr, 1);
    settings.apply_line(&misc, "vfr = 3");
    assert_eq!(settings.vfr, 3);
}
