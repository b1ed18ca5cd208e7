//! The settings record.
use crate::fields::{default_settings, Field, Kind, Value};
use crate::values::{count_or, flag_or, flag_str, is_ratio, push_count, ratio_or};
use vstd::prelude::*;

verus! {

/// The settings of the window manager: one value for each [`Field`].
///
/// A ratio is held as the text of a decimal number, as it stands in the
/// configuration text. The type itself lets a ratio hold any text:
/// [`well_formed`](HyprlandSettings::well_formed) says that every ratio
/// holds the text of a number, and
/// [`is_well_formed`](HyprlandSettings::is_well_formed) tests it. What is
/// loaded is well formed. What is written is written as it stands, so a
/// record that is to be read back unchanged has to be well formed.
#[derive(Debug, Clone, PartialEq, Eq)]
pub struct HyprlandSettings {
    /// Set by the key `monitor`.
    pub monitor: String,
    /// Set by the key `input:kb_layout`.
    pub kb_layout: String,
    /// Set by the key `input:numlock_by_default`.
    pub numlock_by_default: bool,
    /// Set by the key `input:repeat_delay`.
    pub repeat_delay: u32,
    /// Set by the key `input:repeat_rate`.
    pub repeat_rate: u32,
    /// Set by the key `input:natural_scroll`.
    pub natural_scroll: bool,
    /// Set by the key `input:scroll_factor`.
    pub scroll_factor: String,
    /// Set by the key `input:follow_mouse`.
    pub follow_mouse: u32,
    /// Set by the key `binds:scroll_event_delay`.
    pub scroll_event_delay: u32,
    /// Set by the key `gestures:workspace_swipe`.
    pub workspace_swipe: bool,
    /// Set by the key `gestures:workspace_swipe_distance`.
    pub workspace_swipe_distance: u32,
    /// Set by the key `gestures:workspace_swipe_fingers`.
    pub workspace_swipe_fingers: u32,
    /// Set by the key `gestures:workspace_swipe_cancel_ratio`.
    pub workspace_swipe_cancel_ratio: String,
    /// Set by the key `gestures:workspace_swipe_min_speed_to_force`.
    pub workspace_swipe_min_speed_to_force: u32,
    /// Set by the key `gestures:workspace_swipe_direction_lock`.
    pub workspace_swipe_direction_lock: bool,
    /// Set by the key `gestures:workspace_swipe_direction_lock_threshold`.
    pub workspace_swipe_direction_lock_threshold: u32,
    /// Set by the key `gestures:workspace_swipe_create_new`.
    pub workspace_swipe_create_new: bool,
    /// Set by the key `general:gaps_in`.
    pub gaps_in: u32,
    /// Set by the key `general:gaps_out`.
    pub gaps_out: u32,
    /// Set by the key `general:gaps_workspaces`.
    pub gaps_workspaces: u32,
    /// Set by the key `general:border_size`.
    pub border_size: u32,
    /// Set by the key `general:active_border_color`.
    pub active_border_color: String,
    /// Set by the key `general:inactive_border_color`.
    pub inactive_border_color: String,
    /// Set by the key `general:resize_on_border`.
    pub resize_on_border: bool,
    /// Set by the key `general:no_focus_fallback`.
    pub no_focus_fallback: bool,
    /// Set by the key `general:layout`.
    pub layout: String,
    /// Set by the key `general:allow_tearing`.
    pub allow_tearing: bool,
    /// Set by the key `dwindle:preserve_split`.
    pub preserve_split: bool,
    /// Set by the key `dwindle:smart_split`.
    pub smart_split: bool,
    /// Set by the key `dwindle:smart_resizing`.
    pub smart_resizing: bool,
    /// Set by the key `decoration:rounding`.
    pub rounding: u32,
    /// Set by the key `decoration.blur:enabled`.
    pub blur_enabled: bool,
    /// Set by the key `decoration.blur:xray`.
    pub blur_xray: bool,
    /// Set by the key `decoration.blur:special`.
    pub blur_special: bool,
    /// Set by the key `decoration.blur:size`.
    pub blur_size: u32,
    /// Set by the key `decoration.blur:passes`.
    pub blur_passes: u32,
    /// Set by the key `decoration.blur:brightness`.
    pub blur_brightness: String,
    /// Set by the key `decoration.blur:noise`.
    pub blur_noise: String,
    /// Set by the key `decoration.blur:contrast`.
    pub blur_contrast: String,
    /// Set by the key `decoration:dim_inactive`.
    pub dim_inactive: bool,
    /// Set by the key `decoration:dim_strength`.
    pub dim_strength: String,
    /// Set by the key `animations:enabled`.
    pub animation_enabled: bool,
    /// Set by the key `misc:vfr`.
    pub vfr: u32,
    /// Set by the key `misc:vrr`.
    pub vrr: u32,
    /// Set by the key `misc:animate_manual_resizes`.
    pub animate_manual_resizes: bool,
    /// Set by the key `misc:animate_mouse_windowdragging`.
    pub animate_mouse_windowdragging: bool,
    /// Set by the key `misc:enable_swallow`.
    pub enable_swallow: bool,
    /// Set by the key `misc:swallow_regex`.
    pub swallow_regex: String,
    /// Set by the key `misc:disable_hyprland_logo`.
    pub disable_hyprland_logo: bool,
    /// Set by the key `misc:force_default_wallpaper`.
    pub force_default_wallpaper: u32,
    /// Set by the key `misc:new_window_takes_over_fullscreen`.
    pub new_window_takes_over_fullscreen: u32,
    /// Set by the key `misc:allow_session_lock_restore`.
    pub allow_session_lock_restore: bool,
    /// Set by the key `plugin.hyprexpo:columns`.
    pub plugin_hyprexpo_columns: u32,
    /// Set by the key `plugin.hyprexpo:gap_size`.
    pub plugin_hyprexpo_gap_size: u32,
    /// Set by the key `plugin.hyprexpo:bg_col`.
    pub plugin_hyprexpo_bg_col: String,
    /// Set by the key `plugin.hyprexpo:workspace_method`.
    pub plugin_hyprexpo_workspace_method: String,
    /// Set by the key `plugin.hyprexpo:enable_gesture`.
    pub plugin_hyprexpo_enable_gesture: bool,
    /// Set by the key `plugin.hyprexpo:gesture_distance`.
    pub plugin_hyprexpo_gesture_distance: u32,
    /// Set by the key `plugin.hyprexpo:gesture_positive`.
    pub plugin_hyprexpo_gesture_positive: bool,
}

impl View for HyprlandSettings {
    type V = Map<Field, Value>;

    /// The record as a map from each field to its value.
    open spec fn view(&self) -> Map<Field, Value> {
        Map::new(|f: Field| true, |f: Field| self.value_of(f))
    }
}

impl HyprlandSettings {
    /// The value of `field` in this record.
    pub open spec fn value_of(&self, field: Field) -> Value {
        match field {
            Field::Monitor => Value::Text(self.monitor@),
            Field::KbLayout => Value::Text(self.kb_layout@),
            Field::NumlockByDefault => Value::Flag(self.numlock_by_default),
            Field::RepeatDelay => Value::Count(self.repeat_delay),
            Field::RepeatRate => Value::Count(self.repeat_rate),
            Field::NaturalScroll => Value::Flag(self.natural_scroll),
            Field::ScrollFactor => Value::Ratio(self.scroll_factor@),
            Field::FollowMouse => Value::Count(self.follow_mouse),
            Field::ScrollEventDelay => Value::Count(self.scroll_event_delay),
            Field::WorkspaceSwipe => Value::Flag(self.workspace_swipe),
            Field::WorkspaceSwipeDistance => Value::Count(self.workspace_swipe_distance),
            Field::WorkspaceSwipeFingers => Value::Count(self.workspace_swipe_fingers),
            Field::WorkspaceSwipeCancelRatio => Value::Ratio(self.workspace_swipe_cancel_ratio@),
            Field::WorkspaceSwipeMinSpeedToForce => Value::Count(self.workspace_swipe_min_speed_to_force),
            Field::WorkspaceSwipeDirectionLock => Value::Flag(self.workspace_swipe_direction_lock),
            Field::WorkspaceSwipeDirectionLockThreshold => Value::Count(self.workspace_swipe_direction_lock_threshold),
            Field::WorkspaceSwipeCreateNew => Value::Flag(self.workspace_swipe_create_new),
            Field::GapsIn => Value::Count(self.gaps_in),
            Field::GapsOut => Value::Count(self.gaps_out),
            Field::GapsWorkspaces => Value::Count(self.gaps_workspaces),
            Field::BorderSize => Value::Count(self.border_size),
            Field::ActiveBorderColor => Value::Text(self.active_border_color@),
            Field::InactiveBorderColor => Value::Text(self.inactive_border_color@),
            Field::ResizeOnBorder => Value::Flag(self.resize_on_border),
            Field::NoFocusFallback => Value::Flag(self.no_focus_fallback),
            Field::Layout => Value::Text(self.layout@),
            Field::AllowTearing => Value::Flag(self.allow_tearing),
            Field::PreserveSplit => Value::Flag(self.preserve_split),
            Field::SmartSplit => Value::Flag(self.smart_split),
            Field::SmartResizing => Value::Flag(self.smart_resizing),
            Field::Rounding => Value::Count(self.rounding),
            Field::BlurEnabled => Value::Flag(self.blur_enabled),
            Field::BlurXray => Value::Flag(self.blur_xray),
            Field::BlurSpecial => Value::Flag(self.blur_special),
            Field::BlurSize => Value::Count(self.blur_size),
            Field::BlurPasses => Value::Count(self.blur_passes),
            Field::BlurBrightness => Value::Ratio(self.blur_brightness@),
            Field::BlurNoise => Value::Ratio(self.blur_noise@),
            Field::BlurContrast => Value::Ratio(self.blur_contrast@),
            Field::DimInactive => Value::Flag(self.dim_inactive),
            Field::DimStrength => Value::Ratio(self.dim_strength@),
            Field::AnimationEnabled => Value::Flag(self.animation_enabled),
            Field::Vfr => Value::Count(self.vfr),
            Field::Vrr => Value::Count(self.vrr),
            Field::AnimateManualResizes => Value::Flag(self.animate_manual_resizes),
            Field::AnimateMouseWindowdragging => Value::Flag(self.animate_mouse_windowdragging),
            Field::EnableSwallow => Value::Flag(self.enable_swallow),
            Field::SwallowRegex => Value::Text(self.swallow_regex@),
            Field::DisableHyprlandLogo => Value::Flag(self.disable_hyprland_logo),
            Field::ForceDefaultWallpaper => Value::Count(self.force_default_wallpaper),
            Field::NewWindowTakesOverFullscreen => Value::Count(self.new_window_takes_over_fullscreen),
            Field::AllowSessionLockRestore => Value::Flag(self.allow_session_lock_restore),
            Field::PluginHyprexpoColumns => Value::Count(self.plugin_hyprexpo_columns),
            Field::PluginHyprexpoGapSize => Value::Count(self.plugin_hyprexpo_gap_size),
            Field::PluginHyprexpoBgCol => Value::Text(self.plugin_hyprexpo_bg_col@),
            Field::PluginHyprexpoWorkspaceMethod => Value::Text(self.plugin_hyprexpo_workspace_method@),
            Field::PluginHyprexpoEnableGesture => Value::Flag(self.plugin_hyprexpo_enable_gesture),
            Field::PluginHyprexpoGestureDistance => Value::Count(self.plugin_hyprexpo_gesture_distance),
            Field::PluginHyprexpoGesturePositive => Value::Flag(self.plugin_hyprexpo_gesture_positive),
        }
    }

    /// Whether every ratio of this record holds the text of a number.
    pub open spec fn well_formed(&self) -> bool {
        forall|f: Field| (#[trigger] self@[f]).sound()
    }

    /// Whether every ratio of this record holds the text of a number.
    pub fn is_well_formed(&self) -> (b: bool)
        ensures
            b == self.well_formed(),
    {
        let b = is_ratio(self.scroll_factor.as_str()) && is_ratio(self.workspace_swipe_cancel_ratio.as_str()) && is_ratio(self.blur_brightness.as_str()) && is_ratio(self.blur_noise.as_str()) && is_ratio(self.blur_contrast.as_str()) && is_ratio(self.dim_strength.as_str());
        proof {
            if b {
                assert forall|f: Field| (#[trigger] self@[f]).sound() by {}
            } else {
                assert(self@[Field::ScrollFactor] == self.value_of(Field::ScrollFactor));
                assert(self@[Field::WorkspaceSwipeCancelRatio] == self.value_of(Field::WorkspaceSwipeCancelRatio));
                assert(self@[Field::BlurBrightness] == self.value_of(Field::BlurBrightness));
                assert(self@[Field::BlurNoise] == self.value_of(Field::BlurNoise));
                assert(self@[Field::BlurContrast] == self.value_of(Field::BlurContrast));
                assert(self@[Field::DimStrength] == self.value_of(Field::DimStrength));
            }
        }
        b
    }

    /// The record of defaults.
    pub fn defaults() -> (settings: HyprlandSettings)
        ensures
            settings@ == default_settings(),
            settings.well_formed(),
    {
        let settings = HyprlandSettings {
            monitor: "monitor=,preferred,auto,1".to_owned(),
            kb_layout: "us".to_owned(),
            numlock_by_default: true,
            repeat_delay: 250,
            repeat_rate: 35,
            natural_scroll: true,
            scroll_factor: "0.5".to_owned(),
            follow_mouse: 1,
            scroll_event_delay: 0,
            workspace_swipe: true,
            workspace_swipe_distance: 700,
            workspace_swipe_fingers: 4,
            workspace_swipe_cancel_ratio: "0.2".to_owned(),
            workspace_swipe_min_speed_to_force: 5,
            workspace_swipe_direction_lock: true,
            workspace_swipe_direction_lock_threshold: 10,
            workspace_swipe_create_new: true,
            gaps_in: 2,
            gaps_out: 4,
            gaps_workspaces: 50,
            border_size: 1,
            active_border_color: "rgba(0DB7D4FF)".to_owned(),
            inactive_border_color: "rgba(31313600)".to_owned(),
            resize_on_border: true,
            no_focus_fallback: true,
            layout: "dwindle".to_owned(),
            allow_tearing: true,
            preserve_split: true,
            smart_split: false,
            smart_resizing: false,
            rounding: 0,
            blur_enabled: true,
            blur_xray: true,
            blur_special: false,
            blur_size: 5,
            blur_passes: 4,
            blur_brightness: "1".to_owned(),
            blur_noise: "0.01".to_owned(),
            blur_contrast: "1".to_owned(),
            dim_inactive: false,
            dim_strength: "0.1".to_owned(),
            animation_enabled: true,
            vfr: 1,
            vrr: 1,
            animate_manual_resizes: false,
            animate_mouse_windowdragging: false,
            enable_swallow: false,
            swallow_regex: "(foot|kitty|allacritty|Alacritty)".to_owned(),
            disable_hyprland_logo: true,
            force_default_wallpaper: 0,
            new_window_takes_over_fullscreen: 2,
            allow_session_lock_restore: true,
            plugin_hyprexpo_columns: 3,
            plugin_hyprexpo_gap_size: 5,
            plugin_hyprexpo_bg_col: "rgb(000000)".to_owned(),
            plugin_hyprexpo_workspace_method: "first 1".to_owned(),
            plugin_hyprexpo_enable_gesture: true,
            plugin_hyprexpo_gesture_distance: 300,
            plugin_hyprexpo_gesture_positive: false,
        };
        proof {
            lemma_default_ratios();
            assert(settings@ =~= default_settings());
        }
        settings
    }

    /// Gives `field` the value that the text `raw` spells for it, or the
    /// field's default where `raw` spells no value of the field's kind.
    pub fn assign(&mut self, field: Field, raw: &str)
        ensures
            final(self)@ == old(self)@.insert(field, field.decoded(raw@)),
            old(self).well_formed() ==> final(self).well_formed(),
    {
        self.store(field, raw);
        proof {
            assert(self@ =~= old(self)@.insert(field, field.decoded(raw@)));
            lemma_default_ratios();
            assert(field.default_value().sound());
            assert(field.decoded(raw@).sound());
        }
    }

    /// `assign`, stated field by field.
    fn store(&mut self, field: Field, raw: &str)
        ensures
            final(self).value_of(field) == field.decoded(raw@),
            forall|g: Field| g != field ==> final(self).value_of(g) == old(self).value_of(g),
    {
        match field {
            Field::Monitor | Field::KbLayout | Field::NumlockByDefault | Field::RepeatDelay | Field::RepeatRate | Field::NaturalScroll | Field::ScrollFactor | Field::FollowMouse | Field::ScrollEventDelay => {
                self.store_input(field, raw)
            },
            Field::WorkspaceSwipe | Field::WorkspaceSwipeDistance | Field::WorkspaceSwipeFingers | Field::WorkspaceSwipeCancelRatio | Field::WorkspaceSwipeMinSpeedToForce | Field::WorkspaceSwipeDirectionLock | Field::WorkspaceSwipeDirectionLockThreshold | Field::WorkspaceSwipeCreateNew => {
                self.store_gestures(field, raw)
            },
            Field::GapsIn | Field::GapsOut | Field::GapsWorkspaces | Field::BorderSize | Field::ActiveBorderColor | Field::InactiveBorderColor | Field::ResizeOnBorder | Field::NoFocusFallback | Field::Layout | Field::AllowTearing => {
                self.store_general(field, raw)
            },
            Field::PreserveSplit | Field::SmartSplit | Field::SmartResizing | Field::Rounding | Field::BlurEnabled | Field::BlurXray | Field::BlurSpecial | Field::BlurSize | Field::BlurPasses | Field::BlurBrightness | Field::BlurNoise | Field::BlurContrast | Field::DimInactive | Field::DimStrength => {
                self.store_decoration(field, raw)
            },
            Field::AnimationEnabled | Field::Vfr | Field::Vrr | Field::AnimateManualResizes | Field::AnimateMouseWindowdragging | Field::EnableSwallow | Field::SwallowRegex | Field::DisableHyprlandLogo | Field::ForceDefaultWallpaper | Field::NewWindowTakesOverFullscreen | Field::AllowSessionLockRestore => {
                self.store_misc(field, raw)
            },
            Field::PluginHyprexpoColumns | Field::PluginHyprexpoGapSize | Field::PluginHyprexpoBgCol | Field::PluginHyprexpoWorkspaceMethod | Field::PluginHyprexpoEnableGesture | Field::PluginHyprexpoGestureDistance | Field::PluginHyprexpoGesturePositive => {
                self.store_plugin(field, raw)
            },
        }
    }

    /// `store` for the fields of the monitor, the keyboard and the mouse.
    fn store_input(&mut self, field: Field, raw: &str)
        requires
            matches!(field, Field::Monitor | Field::KbLayout | Field::NumlockByDefault | Field::RepeatDelay | Field::RepeatRate | Field::NaturalScroll | Field::ScrollFactor | Field::FollowMouse | Field::ScrollEventDelay),
        ensures
            final(self).value_of(field) == field.decoded(raw@),
            forall|g: Field| g != field ==> final(self).value_of(g) == old(self).value_of(g),
    {
        match field {
            Field::Monitor => {
                self.monitor = raw.to_owned();
            },
            Field::KbLayout => {
                self.kb_layout = raw.to_owned();
            },
            Field::NumlockByDefault => {
                self.numlock_by_default = flag_or(raw, true);
            },
            Field::RepeatDelay => {
                self.repeat_delay = count_or(raw, 250);
            },
            Field::RepeatRate => {
                self.repeat_rate = count_or(raw, 35);
            },
            Field::NaturalScroll => {
                self.natural_scroll = flag_or(raw, true);
            },
            Field::ScrollFactor => {
                self.scroll_factor = ratio_or(raw, "0.5");
            },
            Field::FollowMouse => {
                self.follow_mouse = count_or(raw, 1);
            },
            Field::ScrollEventDelay => {
                self.scroll_event_delay = count_or(raw, 0);
            },
            _ => {},
        }
    }

    /// `store` for the fields of gestures.
    fn store_gestures(&mut self, field: Field, raw: &str)
        requires
            matches!(field, Field::WorkspaceSwipe | Field::WorkspaceSwipeDistance | Field::WorkspaceSwipeFingers | Field::WorkspaceSwipeCancelRatio | Field::WorkspaceSwipeMinSpeedToForce | Field::WorkspaceSwipeDirectionLock | Field::WorkspaceSwipeDirectionLockThreshold | Field::WorkspaceSwipeCreateNew),
        ensures
            final(self).value_of(field) == field.decoded(raw@),
            forall|g: Field| g != field ==> final(self).value_of(g) == old(self).value_of(g),
    {
        match field {
            Field::WorkspaceSwipe => {
                self.workspace_swipe = flag_or(raw, true);
            },
            Field::WorkspaceSwipeDistance => {
                self.workspace_swipe_distance = count_or(raw, 700);
            },
            Field::WorkspaceSwipeFingers => {
                self.workspace_swipe_fingers = count_or(raw, 4);
            },
            Field::WorkspaceSwipeCancelRatio => {
                self.workspace_swipe_cancel_ratio = ratio_or(raw, "0.2");
            },
            Field::WorkspaceSwipeMinSpeedToForce => {
                self.workspace_swipe_min_speed_to_force = count_or(raw, 5);
            },
            Field::WorkspaceSwipeDirectionLock => {
                self.workspace_swipe_direction_lock = flag_or(raw, true);
            },
            Field::WorkspaceSwipeDirectionLockThreshold => {
                self.workspace_swipe_direction_lock_threshold = count_or(raw, 10);
            },
            Field::WorkspaceSwipeCreateNew => {
                self.workspace_swipe_create_new = flag_or(raw, true);
            },
            _ => {},
        }
    }

    /// `store` for the fields of gaps, borders and layout.
    fn store_general(&mut self, field: Field, raw: &str)
        requires
            matches!(field, Field::GapsIn | Field::GapsOut | Field::GapsWorkspaces | Field::BorderSize | Field::ActiveBorderColor | Field::InactiveBorderColor | Field::ResizeOnBorder | Field::NoFocusFallback | Field::Layout | Field::AllowTearing),
        ensures
            final(self).value_of(field) == field.decoded(raw@),
            forall|g: Field| g != field ==> final(self).value_of(g) == old(self).value_of(g),
    {
        match field {
            Field::GapsIn => {
                self.gaps_in = count_or(raw, 2);
            },
            Field::GapsOut => {
                self.gaps_out = count_or(raw, 4);
            },
            Field::GapsWorkspaces => {
                self.gaps_workspaces = count_or(raw, 50);
            },
            Field::BorderSize => {
                self.border_size = count_or(raw, 1);
            },
            Field::ActiveBorderColor => {
                self.active_border_color = raw.to_owned();
            },
            Field::InactiveBorderColor => {
                self.inactive_border_color = raw.to_owned();
            },
            Field::ResizeOnBorder => {
                self.resize_on_border = flag_or(raw, true);
            },
            Field::NoFocusFallback => {
                self.no_focus_fallback = flag_or(raw, true);
            },
            Field::Layout => {
                self.layout = raw.to_owned();
            },
            Field::AllowTearing => {
                self.allow_tearing = flag_or(raw, true);
            },
            _ => {},
        }
    }

    /// `store` for the fields of split windows and decoration.
    fn store_decoration(&mut self, field: Field, raw: &str)
        requires
            matches!(field, Field::PreserveSplit | Field::SmartSplit | Field::SmartResizing | Field::Rounding | Field::BlurEnabled | Field::BlurXray | Field::BlurSpecial | Field::BlurSize | Field::BlurPasses | Field::BlurBrightness | Field::BlurNoise | Field::BlurContrast | Field::DimInactive | Field::DimStrength),
        ensures
            final(self).value_of(field) == field.decoded(raw@),
            forall|g: Field| g != field ==> final(self).value_of(g) == old(self).value_of(g),
    {
        match field {
            Field::PreserveSplit => {
                self.preserve_split = flag_or(raw, true);
            },
            Field::SmartSplit => {
                self.smart_split = flag_or(raw, false);
            },
            Field::SmartResizing => {
                self.smart_resizing = flag_or(raw, false);
            },
            Field::Rounding => {
                self.rounding = count_or(raw, 0);
            },
            Field::BlurEnabled => {
                self.blur_enabled = flag_or(raw, true);
            },
            Field::BlurXray => {
                self.blur_xray = flag_or(raw, true);
            },
            Field::BlurSpecial => {
                self.blur_special = flag_or(raw, false);
            },
            Field::BlurSize => {
                self.blur_size = count_or(raw, 5);
            },
            Field::BlurPasses => {
                self.blur_passes = count_or(raw, 4);
            },
            Field::BlurBrightness => {
                self.blur_brightness = ratio_or(raw, "1");
            },
            Field::BlurNoise => {
                self.blur_noise = ratio_or(raw, "0.01");
            },
            Field::BlurContrast => {
                self.blur_contrast = ratio_or(raw, "1");
            },
            Field::DimInactive => {
                self.dim_inactive = flag_or(raw, false);
            },
            Field::DimStrength => {
                self.dim_strength = ratio_or(raw, "0.1");
            },
            _ => {},
        }
    }

    /// `store` for the fields of animations and other behaviour.
    fn store_misc(&mut self, field: Field, raw: &str)
        requires
            matches!(field, Field::AnimationEnabled | Field::Vfr | Field::Vrr | Field::AnimateManualResizes | Field::AnimateMouseWindowdragging | Field::EnableSwallow | Field::SwallowRegex | Field::DisableHyprlandLogo | Field::ForceDefaultWallpaper | Field::NewWindowTakesOverFullscreen | Field::AllowSessionLockRestore),
        ensures
            final(self).value_of(field) == field.decoded(raw@),
            forall|g: Field| g != field ==> final(self).value_of(g) == old(self).value_of(g),
    {
        match field {
            Field::AnimationEnabled => {
                self.animation_enabled = flag_or(raw, true);
            },
            Field::Vfr => {
                self.vfr = count_or(raw, 1);
            },
            Field::Vrr => {
                self.vrr = count_or(raw, 1);
            },
            Field::AnimateManualResizes => {
                self.animate_manual_resizes = flag_or(raw, false);
            },
            Field::AnimateMouseWindowdragging => {
                self.animate_mouse_windowdragging = flag_or(raw, false);
            },
            Field::EnableSwallow => {
                self.enable_swallow = flag_or(raw, false);
            },
            Field::SwallowRegex => {
                self.swallow_regex = raw.to_owned();
            },
            Field::DisableHyprlandLogo => {
                self.disable_hyprland_logo = flag_or(raw, true);
            },
            Field::ForceDefaultWallpaper => {
                self.force_default_wallpaper = count_or(raw, 0);
            },
            Field::NewWindowTakesOverFullscreen => {
                self.new_window_takes_over_fullscreen = count_or(raw, 2);
            },
            Field::AllowSessionLockRestore => {
                self.allow_session_lock_restore = flag_or(raw, true);
            },
            _ => {},
        }
    }

    /// `store` for the fields of the workspace overview.
    fn store_plugin(&mut self, field: Field, raw: &str)
        requires
            matches!(field, Field::PluginHyprexpoColumns | Field::PluginHyprexpoGapSize | Field::PluginHyprexpoBgCol | Field::PluginHyprexpoWorkspaceMethod | Field::PluginHyprexpoEnableGesture | Field::PluginHyprexpoGestureDistance | Field::PluginHyprexpoGesturePositive),
        ensures
            final(self).value_of(field) == field.decoded(raw@),
            forall|g: Field| g != field ==> final(self).value_of(g) == old(self).value_of(g),
    {
        match field {
            Field::PluginHyprexpoColumns => {
                self.plugin_hyprexpo_columns = count_or(raw, 3);
            },
            Field::PluginHyprexpoGapSize => {
                self.plugin_hyprexpo_gap_size = count_or(raw, 5);
            },
            Field::PluginHyprexpoBgCol => {
                self.plugin_hyprexpo_bg_col = raw.to_owned();
            },
            Field::PluginHyprexpoWorkspaceMethod => {
                self.plugin_hyprexpo_workspace_method = raw.to_owned();
            },
            Field::PluginHyprexpoEnableGesture => {
                self.plugin_hyprexpo_enable_gesture = flag_or(raw, true);
            },
            Field::PluginHyprexpoGestureDistance => {
                self.plugin_hyprexpo_gesture_distance = count_or(raw, 300);
            },
            Field::PluginHyprexpoGesturePositive => {
                self.plugin_hyprexpo_gesture_positive = flag_or(raw, false);
            },
            _ => {},
        }
    }

    /// Appends to `out` the text that stands for the value of `field`.
    pub fn push_value(&self, out: &mut String, field: Field)
        ensures
            final(out)@ == old(out)@ + self@[field].shown(),
    {
        match field {
            Field::Monitor => {
                out.append(self.monitor.as_str());
            },
            Field::KbLayout => {
                out.append(self.kb_layout.as_str());
            },
            Field::NumlockByDefault => {
                out.append(flag_str(self.numlock_by_default));
            },
            Field::RepeatDelay => {
                push_count(out, self.repeat_delay);
            },
            Field::RepeatRate => {
                push_count(out, self.repeat_rate);
            },
            Field::NaturalScroll => {
                out.append(flag_str(self.natural_scroll));
            },
            Field::ScrollFactor => {
                out.append(self.scroll_factor.as_str());
            },
            Field::FollowMouse => {
                push_count(out, self.follow_mouse);
            },
            Field::ScrollEventDelay => {
                push_count(out, self.scroll_event_delay);
            },
            Field::WorkspaceSwipe => {
                out.append(flag_str(self.workspace_swipe));
            },
            Field::WorkspaceSwipeDistance => {
                push_count(out, self.workspace_swipe_distance);
            },
            Field::WorkspaceSwipeFingers => {
                push_count(out, self.workspace_swipe_fingers);
            },
            Field::WorkspaceSwipeCancelRatio => {
                out.append(self.workspace_swipe_cancel_ratio.as_str());
            },
            Field::WorkspaceSwipeMinSpeedToForce => {
                push_count(out, self.workspace_swipe_min_speed_to_force);
            },
            Field::WorkspaceSwipeDirectionLock => {
                out.append(flag_str(self.workspace_swipe_direction_lock));
            },
            Field::WorkspaceSwipeDirectionLockThreshold => {
                push_count(out, self.workspace_swipe_direction_lock_threshold);
            },
            Field::WorkspaceSwipeCreateNew => {
                out.append(flag_str(self.workspace_swipe_create_new));
            },
            Field::GapsIn => {
                push_count(out, self.gaps_in);
            },
            Field::GapsOut => {
                push_count(out, self.gaps_out);
            },
            Field::GapsWorkspaces => {
                push_count(out, self.gaps_workspaces);
            },
            Field::BorderSize => {
                push_count(out, self.border_size);
            },
            Field::ActiveBorderColor => {
                out.append(self.active_border_color.as_str());
            },
            Field::InactiveBorderColor => {
                out.append(self.inactive_border_color.as_str());
            },
            Field::ResizeOnBorder => {
                out.append(flag_str(self.resize_on_border));
            },
            Field::NoFocusFallback => {
                out.append(flag_str(self.no_focus_fallback));
            },
            Field::Layout => {
                out.append(self.layout.as_str());
            },
            Field::AllowTearing => {
                out.append(flag_str(self.allow_tearing));
            },
            Field::PreserveSplit => {
                out.append(flag_str(self.preserve_split));
            },
            Field::SmartSplit => {
                out.append(flag_str(self.smart_split));
            },
            Field::SmartResizing => {
                out.append(flag_str(self.smart_resizing));
            },
            Field::Rounding => {
                push_count(out, self.rounding);
            },
            Field::BlurEnabled => {
                out.append(flag_str(self.blur_enabled));
            },
            Field::BlurXray => {
                out.append(flag_str(self.blur_xray));
            },
            Field::BlurSpecial => {
                out.append(flag_str(self.blur_special));
            },
            Field::BlurSize => {
                push_count(out, self.blur_size);
            },
            Field::BlurPasses => {
                push_count(out, self.blur_passes);
            },
            Field::BlurBrightness => {
                out.append(self.blur_brightness.as_str());
            },
            Field::BlurNoise => {
                out.append(self.blur_noise.as_str());
            },
            Field::BlurContrast => {
                out.append(self.blur_contrast.as_str());
            },
            Field::DimInactive => {
                out.append(flag_str(self.dim_inactive));
            },
            Field::DimStrength => {
                out.append(self.dim_strength.as_str());
            },
            Field::AnimationEnabled => {
                out.append(flag_str(self.animation_enabled));
            },
            Field::Vfr => {
                push_count(out, self.vfr);
            },
            Field::Vrr => {
                push_count(out, self.vrr);
            },
            Field::AnimateManualResizes => {
                out.append(flag_str(self.animate_manual_resizes));
            },
            Field::AnimateMouseWindowdragging => {
                out.append(flag_str(self.animate_mouse_windowdragging));
            },
            Field::EnableSwallow => {
                out.append(flag_str(self.enable_swallow));
            },
            Field::SwallowRegex => {
                out.append(self.swallow_regex.as_str());
            },
            Field::DisableHyprlandLogo => {
                out.append(flag_str(self.disable_hyprland_logo));
            },
            Field::ForceDefaultWallpaper => {
                push_count(out, self.force_default_wallpaper);
            },
            Field::NewWindowTakesOverFullscreen => {
                push_count(out, self.new_window_takes_over_fullscreen);
            },
            Field::AllowSessionLockRestore => {
                out.append(flag_str(self.allow_session_lock_restore));
            },
            Field::PluginHyprexpoColumns => {
                push_count(out, self.plugin_hyprexpo_columns);
            },
            Field::PluginHyprexpoGapSize => {
                push_count(out, self.plugin_hyprexpo_gap_size);
            },
            Field::PluginHyprexpoBgCol => {
                out.append(self.plugin_hyprexpo_bg_col.as_str());
            },
            Field::PluginHyprexpoWorkspaceMethod => {
                out.append(self.plugin_hyprexpo_workspace_method.as_str());
            },
            Field::PluginHyprexpoEnableGesture => {
                out.append(flag_str(self.plugin_hyprexpo_enable_gesture));
            },
            Field::PluginHyprexpoGestureDistance => {
                push_count(out, self.plugin_hyprexpo_gesture_distance);
            },
            Field::PluginHyprexpoGesturePositive => {
                out.append(flag_str(self.plugin_hyprexpo_gesture_positive));
            },
        }
    }
}

impl HyprlandSettings {
    /// The value of each field is of the field's kind.
    pub proof fn lemma_value_kinds(&self, field: Field)
        ensures
            match self.value_of(field) {
                Value::Text(_) => field.kind() == Kind::Text,
                Value::Flag(_) => field.kind() == Kind::Flag,
                Value::Count(_) => field.kind() == Kind::Count,
                Value::Ratio(_) => field.kind() == Kind::Ratio,
            },
    {
    }
}

/// The default of each ratio is the text of a number.
pub proof fn lemma_default_ratios()
    ensures
        forall|f: Field| (#[trigger] f.default_value()).sound(),
{
    reveal_strlit("0.01");
    reveal_strlit("0.1");
    reveal_strlit("0.2");
    reveal_strlit("0.5");
    reveal_strlit("1");
    reveal_with_fuel(crate::values::digits_end, 6);
}

} // verus!
