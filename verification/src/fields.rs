//! The fields of the settings record, the keys and names that stand for
//! them in a configuration text, and the values they hold.
//!
//! A field has a section and a name in it. Its key is the two together, as
//! in `general:gaps_in`; for a section inside another the outer section
//! comes first, as in `decoration.blur:size`. The monitor stands in no
//! section, and its key is its name.
use crate::sections::{lemma_paths_distinct, Blocks, Section};
use crate::text::{plain, spells, to_chars, word};
use crate::values::{count_of, decimal_text, flag_of, flag_text, is_ratio_text};
use vstd::prelude::*;

verus! {

/// How many fields the settings record has.
pub const FIELD_COUNT: usize = 59;

/// What a field holds, as the contracts of this crate speak of it.
///
/// A ratio is kept as the text of a decimal number, see
/// [`is_ratio_text`](crate::values::is_ratio_text).
pub enum Value {
    Text(Seq<char>),
    Flag(bool),
    Count(u32),
    Ratio(Seq<char>),
}

impl Value {
    /// The text that stands for this value in a configuration text: free text
    /// and ratios as they are, a flag as `true` or `false`, a count in
    /// decimal digits.
    pub open spec fn shown(self) -> Seq<char> {
        match self {
            Value::Text(s) => s,
            Value::Flag(b) => flag_text(b),
            Value::Count(n) => decimal_text(n as nat),
            Value::Ratio(s) => s,
        }
    }

    /// Whether a ratio holds the text of a number; other values are always
    /// sound.
    pub open spec fn sound(self) -> bool {
        match self {
            Value::Ratio(s) => is_ratio_text(s),
            _ => true,
        }
    }
}

/// The kind of value that a field holds.
pub enum Kind {
    /// Free text, kept as it is.
    Text,
    /// `true` or `false`.
    Flag,
    /// An unsigned number of 32 bits.
    Count,
    /// A decimal number, kept as its text.
    Ratio,
}

/// A field of the settings record.
#[derive(Clone, Copy, Debug, PartialEq, Eq)]
pub enum Field {
    Monitor,
    KbLayout,
    NumlockByDefault,
    RepeatDelay,
    RepeatRate,
    NaturalScroll,
    ScrollFactor,
    FollowMouse,
    ScrollEventDelay,
    WorkspaceSwipe,
    WorkspaceSwipeDistance,
    WorkspaceSwipeFingers,
    WorkspaceSwipeCancelRatio,
    WorkspaceSwipeMinSpeedToForce,
    WorkspaceSwipeDirectionLock,
    WorkspaceSwipeDirectionLockThreshold,
    WorkspaceSwipeCreateNew,
    GapsIn,
    GapsOut,
    GapsWorkspaces,
    BorderSize,
    ActiveBorderColor,
    InactiveBorderColor,
    ResizeOnBorder,
    NoFocusFallback,
    Layout,
    AllowTearing,
    PreserveSplit,
    SmartSplit,
    SmartResizing,
    Rounding,
    BlurEnabled,
    BlurXray,
    BlurSpecial,
    BlurSize,
    BlurPasses,
    BlurBrightness,
    BlurNoise,
    BlurContrast,
    DimInactive,
    DimStrength,
    AnimationEnabled,
    Vfr,
    Vrr,
    AnimateManualResizes,
    AnimateMouseWindowdragging,
    EnableSwallow,
    SwallowRegex,
    DisableHyprlandLogo,
    ForceDefaultWallpaper,
    NewWindowTakesOverFullscreen,
    AllowSessionLockRestore,
    PluginHyprexpoColumns,
    PluginHyprexpoGapSize,
    PluginHyprexpoBgCol,
    PluginHyprexpoWorkspaceMethod,
    PluginHyprexpoEnableGesture,
    PluginHyprexpoGestureDistance,
    PluginHyprexpoGesturePositive,
}

impl Field {
    /// The section that this field stands in.
    pub open spec fn section(self) -> Section {
        match self {
            Field::Monitor => Section::Top,
            Field::KbLayout => Section::Input,
            Field::NumlockByDefault => Section::Input,
            Field::RepeatDelay => Section::Input,
            Field::RepeatRate => Section::Input,
            Field::NaturalScroll => Section::Input,
            Field::ScrollFactor => Section::Input,
            Field::FollowMouse => Section::Input,
            Field::ScrollEventDelay => Section::Binds,
            Field::WorkspaceSwipe => Section::Gestures,
            Field::WorkspaceSwipeDistance => Section::Gestures,
            Field::WorkspaceSwipeFingers => Section::Gestures,
            Field::WorkspaceSwipeCancelRatio => Section::Gestures,
            Field::WorkspaceSwipeMinSpeedToForce => Section::Gestures,
            Field::WorkspaceSwipeDirectionLock => Section::Gestures,
            Field::WorkspaceSwipeDirectionLockThreshold => Section::Gestures,
            Field::WorkspaceSwipeCreateNew => Section::Gestures,
            Field::GapsIn => Section::General,
            Field::GapsOut => Section::General,
            Field::GapsWorkspaces => Section::General,
            Field::BorderSize => Section::General,
            Field::ActiveBorderColor => Section::General,
            Field::InactiveBorderColor => Section::General,
            Field::ResizeOnBorder => Section::General,
            Field::NoFocusFallback => Section::General,
            Field::Layout => Section::General,
            Field::AllowTearing => Section::General,
            Field::PreserveSplit => Section::Dwindle,
            Field::SmartSplit => Section::Dwindle,
            Field::SmartResizing => Section::Dwindle,
            Field::Rounding => Section::Decoration,
            Field::BlurEnabled => Section::Blur,
            Field::BlurXray => Section::Blur,
            Field::BlurSpecial => Section::Blur,
            Field::BlurSize => Section::Blur,
            Field::BlurPasses => Section::Blur,
            Field::BlurBrightness => Section::Blur,
            Field::BlurNoise => Section::Blur,
            Field::BlurContrast => Section::Blur,
            Field::DimInactive => Section::Decoration,
            Field::DimStrength => Section::Decoration,
            Field::AnimationEnabled => Section::Animations,
            Field::Vfr => Section::Misc,
            Field::Vrr => Section::Misc,
            Field::AnimateManualResizes => Section::Misc,
            Field::AnimateMouseWindowdragging => Section::Misc,
            Field::EnableSwallow => Section::Misc,
            Field::SwallowRegex => Section::Misc,
            Field::DisableHyprlandLogo => Section::Misc,
            Field::ForceDefaultWallpaper => Section::Misc,
            Field::NewWindowTakesOverFullscreen => Section::Misc,
            Field::AllowSessionLockRestore => Section::Misc,
            Field::PluginHyprexpoColumns => Section::Hyprexpo,
            Field::PluginHyprexpoGapSize => Section::Hyprexpo,
            Field::PluginHyprexpoBgCol => Section::Hyprexpo,
            Field::PluginHyprexpoWorkspaceMethod => Section::Hyprexpo,
            Field::PluginHyprexpoEnableGesture => Section::Hyprexpo,
            Field::PluginHyprexpoGestureDistance => Section::Hyprexpo,
            Field::PluginHyprexpoGesturePositive => Section::Hyprexpo,
        }
    }

    /// The name of this field in its section.
    pub open spec fn name(self) -> Seq<char> {
        match self {
            Field::Monitor => "monitor"@,
            Field::KbLayout => "kb_layout"@,
            Field::NumlockByDefault => "numlock_by_default"@,
            Field::RepeatDelay => "repeat_delay"@,
            Field::RepeatRate => "repeat_rate"@,
            Field::NaturalScroll => "natural_scroll"@,
            Field::ScrollFactor => "scroll_factor"@,
            Field::FollowMouse => "follow_mouse"@,
            Field::ScrollEventDelay => "scroll_event_delay"@,
            Field::WorkspaceSwipe => "workspace_swipe"@,
            Field::WorkspaceSwipeDistance => "workspace_swipe_distance"@,
            Field::WorkspaceSwipeFingers => "workspace_swipe_fingers"@,
            Field::WorkspaceSwipeCancelRatio => "workspace_swipe_cancel_ratio"@,
            Field::WorkspaceSwipeMinSpeedToForce => "workspace_swipe_min_speed_to_force"@,
            Field::WorkspaceSwipeDirectionLock => "workspace_swipe_direction_lock"@,
            Field::WorkspaceSwipeDirectionLockThreshold => "workspace_swipe_direction_lock_threshold"@,
            Field::WorkspaceSwipeCreateNew => "workspace_swipe_create_new"@,
            Field::GapsIn => "gaps_in"@,
            Field::GapsOut => "gaps_out"@,
            Field::GapsWorkspaces => "gaps_workspaces"@,
            Field::BorderSize => "border_size"@,
            Field::ActiveBorderColor => "active_border_color"@,
            Field::InactiveBorderColor => "inactive_border_color"@,
            Field::ResizeOnBorder => "resize_on_border"@,
            Field::NoFocusFallback => "no_focus_fallback"@,
            Field::Layout => "layout"@,
            Field::AllowTearing => "allow_tearing"@,
            Field::PreserveSplit => "preserve_split"@,
            Field::SmartSplit => "smart_split"@,
            Field::SmartResizing => "smart_resizing"@,
            Field::Rounding => "rounding"@,
            Field::BlurEnabled => "enabled"@,
            Field::BlurXray => "xray"@,
            Field::BlurSpecial => "special"@,
            Field::BlurSize => "size"@,
            Field::BlurPasses => "passes"@,
            Field::BlurBrightness => "brightness"@,
            Field::BlurNoise => "noise"@,
            Field::BlurContrast => "contrast"@,
            Field::DimInactive => "dim_inactive"@,
            Field::DimStrength => "dim_strength"@,
            Field::AnimationEnabled => "enabled"@,
            Field::Vfr => "vfr"@,
            Field::Vrr => "vrr"@,
            Field::AnimateManualResizes => "animate_manual_resizes"@,
            Field::AnimateMouseWindowdragging => "animate_mouse_windowdragging"@,
            Field::EnableSwallow => "enable_swallow"@,
            Field::SwallowRegex => "swallow_regex"@,
            Field::DisableHyprlandLogo => "disable_hyprland_logo"@,
            Field::ForceDefaultWallpaper => "force_default_wallpaper"@,
            Field::NewWindowTakesOverFullscreen => "new_window_takes_over_fullscreen"@,
            Field::AllowSessionLockRestore => "allow_session_lock_restore"@,
            Field::PluginHyprexpoColumns => "columns"@,
            Field::PluginHyprexpoGapSize => "gap_size"@,
            Field::PluginHyprexpoBgCol => "bg_col"@,
            Field::PluginHyprexpoWorkspaceMethod => "workspace_method"@,
            Field::PluginHyprexpoEnableGesture => "enable_gesture"@,
            Field::PluginHyprexpoGestureDistance => "gesture_distance"@,
            Field::PluginHyprexpoGesturePositive => "gesture_positive"@,
        }
    }

    /// The key of this field: its section and its name in one.
    pub open spec fn key(self) -> Seq<char> {
        match self {
            Field::Monitor => "monitor"@,
            Field::KbLayout => "input:kb_layout"@,
            Field::NumlockByDefault => "input:numlock_by_default"@,
            Field::RepeatDelay => "input:repeat_delay"@,
            Field::RepeatRate => "input:repeat_rate"@,
            Field::NaturalScroll => "input:natural_scroll"@,
            Field::ScrollFactor => "input:scroll_factor"@,
            Field::FollowMouse => "input:follow_mouse"@,
            Field::ScrollEventDelay => "binds:scroll_event_delay"@,
            Field::WorkspaceSwipe => "gestures:workspace_swipe"@,
            Field::WorkspaceSwipeDistance => "gestures:workspace_swipe_distance"@,
            Field::WorkspaceSwipeFingers => "gestures:workspace_swipe_fingers"@,
            Field::WorkspaceSwipeCancelRatio => "gestures:workspace_swipe_cancel_ratio"@,
            Field::WorkspaceSwipeMinSpeedToForce => "gestures:workspace_swipe_min_speed_to_force"@,
            Field::WorkspaceSwipeDirectionLock => "gestures:workspace_swipe_direction_lock"@,
            Field::WorkspaceSwipeDirectionLockThreshold => "gestures:workspace_swipe_direction_lock_threshold"@,
            Field::WorkspaceSwipeCreateNew => "gestures:workspace_swipe_create_new"@,
            Field::GapsIn => "general:gaps_in"@,
            Field::GapsOut => "general:gaps_out"@,
            Field::GapsWorkspaces => "general:gaps_workspaces"@,
            Field::BorderSize => "general:border_size"@,
            Field::ActiveBorderColor => "general:active_border_color"@,
            Field::InactiveBorderColor => "general:inactive_border_color"@,
            Field::ResizeOnBorder => "general:resize_on_border"@,
            Field::NoFocusFallback => "general:no_focus_fallback"@,
            Field::Layout => "general:layout"@,
            Field::AllowTearing => "general:allow_tearing"@,
            Field::PreserveSplit => "dwindle:preserve_split"@,
            Field::SmartSplit => "dwindle:smart_split"@,
            Field::SmartResizing => "dwindle:smart_resizing"@,
            Field::Rounding => "decoration:rounding"@,
            Field::BlurEnabled => "decoration.blur:enabled"@,
            Field::BlurXray => "decoration.blur:xray"@,
            Field::BlurSpecial => "decoration.blur:special"@,
            Field::BlurSize => "decoration.blur:size"@,
            Field::BlurPasses => "decoration.blur:passes"@,
            Field::BlurBrightness => "decoration.blur:brightness"@,
            Field::BlurNoise => "decoration.blur:noise"@,
            Field::BlurContrast => "decoration.blur:contrast"@,
            Field::DimInactive => "decoration:dim_inactive"@,
            Field::DimStrength => "decoration:dim_strength"@,
            Field::AnimationEnabled => "animations:enabled"@,
            Field::Vfr => "misc:vfr"@,
            Field::Vrr => "misc:vrr"@,
            Field::AnimateManualResizes => "misc:animate_manual_resizes"@,
            Field::AnimateMouseWindowdragging => "misc:animate_mouse_windowdragging"@,
            Field::EnableSwallow => "misc:enable_swallow"@,
            Field::SwallowRegex => "misc:swallow_regex"@,
            Field::DisableHyprlandLogo => "misc:disable_hyprland_logo"@,
            Field::ForceDefaultWallpaper => "misc:force_default_wallpaper"@,
            Field::NewWindowTakesOverFullscreen => "misc:new_window_takes_over_fullscreen"@,
            Field::AllowSessionLockRestore => "misc:allow_session_lock_restore"@,
            Field::PluginHyprexpoColumns => "plugin.hyprexpo:columns"@,
            Field::PluginHyprexpoGapSize => "plugin.hyprexpo:gap_size"@,
            Field::PluginHyprexpoBgCol => "plugin.hyprexpo:bg_col"@,
            Field::PluginHyprexpoWorkspaceMethod => "plugin.hyprexpo:workspace_method"@,
            Field::PluginHyprexpoEnableGesture => "plugin.hyprexpo:enable_gesture"@,
            Field::PluginHyprexpoGestureDistance => "plugin.hyprexpo:gesture_distance"@,
            Field::PluginHyprexpoGesturePositive => "plugin.hyprexpo:gesture_positive"@,
        }
    }

    /// The value that this field has where the configuration text does not
    /// set it, or sets it to a text that is no value of its kind.
    pub open spec fn default_value(self) -> Value {
        match self {
            Field::Monitor => Value::Text("monitor=,preferred,auto,1"@),
            Field::KbLayout => Value::Text("us"@),
            Field::NumlockByDefault => Value::Flag(true),
            Field::RepeatDelay => Value::Count(250),
            Field::RepeatRate => Value::Count(35),
            Field::NaturalScroll => Value::Flag(true),
            Field::ScrollFactor => Value::Ratio("0.5"@),
            Field::FollowMouse => Value::Count(1),
            Field::ScrollEventDelay => Value::Count(0),
            Field::WorkspaceSwipe => Value::Flag(true),
            Field::WorkspaceSwipeDistance => Value::Count(700),
            Field::WorkspaceSwipeFingers => Value::Count(4),
            Field::WorkspaceSwipeCancelRatio => Value::Ratio("0.2"@),
            Field::WorkspaceSwipeMinSpeedToForce => Value::Count(5),
            Field::WorkspaceSwipeDirectionLock => Value::Flag(true),
            Field::WorkspaceSwipeDirectionLockThreshold => Value::Count(10),
            Field::WorkspaceSwipeCreateNew => Value::Flag(true),
            Field::GapsIn => Value::Count(2),
            Field::GapsOut => Value::Count(4),
            Field::GapsWorkspaces => Value::Count(50),
            Field::BorderSize => Value::Count(1),
            Field::ActiveBorderColor => Value::Text("rgba(0DB7D4FF)"@),
            Field::InactiveBorderColor => Value::Text("rgba(31313600)"@),
            Field::ResizeOnBorder => Value::Flag(true),
            Field::NoFocusFallback => Value::Flag(true),
            Field::Layout => Value::Text("dwindle"@),
            Field::AllowTearing => Value::Flag(true),
            Field::PreserveSplit => Value::Flag(true),
            Field::SmartSplit => Value::Flag(false),
            Field::SmartResizing => Value::Flag(false),
            Field::Rounding => Value::Count(0),
            Field::BlurEnabled => Value::Flag(true),
            Field::BlurXray => Value::Flag(true),
            Field::BlurSpecial => Value::Flag(false),
            Field::BlurSize => Value::Count(5),
            Field::BlurPasses => Value::Count(4),
            Field::BlurBrightness => Value::Ratio("1"@),
            Field::BlurNoise => Value::Ratio("0.01"@),
            Field::BlurContrast => Value::Ratio("1"@),
            Field::DimInactive => Value::Flag(false),
            Field::DimStrength => Value::Ratio("0.1"@),
            Field::AnimationEnabled => Value::Flag(true),
            Field::Vfr => Value::Count(1),
            Field::Vrr => Value::Count(1),
            Field::AnimateManualResizes => Value::Flag(false),
            Field::AnimateMouseWindowdragging => Value::Flag(false),
            Field::EnableSwallow => Value::Flag(false),
            Field::SwallowRegex => Value::Text("(foot|kitty|allacritty|Alacritty)"@),
            Field::DisableHyprlandLogo => Value::Flag(true),
            Field::ForceDefaultWallpaper => Value::Count(0),
            Field::NewWindowTakesOverFullscreen => Value::Count(2),
            Field::AllowSessionLockRestore => Value::Flag(true),
            Field::PluginHyprexpoColumns => Value::Count(3),
            Field::PluginHyprexpoGapSize => Value::Count(5),
            Field::PluginHyprexpoBgCol => Value::Text("rgb(000000)"@),
            Field::PluginHyprexpoWorkspaceMethod => Value::Text("first 1"@),
            Field::PluginHyprexpoEnableGesture => Value::Flag(true),
            Field::PluginHyprexpoGestureDistance => Value::Count(300),
            Field::PluginHyprexpoGesturePositive => Value::Flag(false),
        }
    }

    /// The kind of value that this field holds.
    pub open spec fn kind(self) -> Kind {
        match self {
            Field::Monitor => Kind::Text,
            Field::KbLayout => Kind::Text,
            Field::NumlockByDefault => Kind::Flag,
            Field::RepeatDelay => Kind::Count,
            Field::RepeatRate => Kind::Count,
            Field::NaturalScroll => Kind::Flag,
            Field::ScrollFactor => Kind::Ratio,
            Field::FollowMouse => Kind::Count,
            Field::ScrollEventDelay => Kind::Count,
            Field::WorkspaceSwipe => Kind::Flag,
            Field::WorkspaceSwipeDistance => Kind::Count,
            Field::WorkspaceSwipeFingers => Kind::Count,
            Field::WorkspaceSwipeCancelRatio => Kind::Ratio,
            Field::WorkspaceSwipeMinSpeedToForce => Kind::Count,
            Field::WorkspaceSwipeDirectionLock => Kind::Flag,
            Field::WorkspaceSwipeDirectionLockThreshold => Kind::Count,
            Field::WorkspaceSwipeCreateNew => Kind::Flag,
            Field::GapsIn => Kind::Count,
            Field::GapsOut => Kind::Count,
            Field::GapsWorkspaces => Kind::Count,
            Field::BorderSize => Kind::Count,
            Field::ActiveBorderColor => Kind::Text,
            Field::InactiveBorderColor => Kind::Text,
            Field::ResizeOnBorder => Kind::Flag,
            Field::NoFocusFallback => Kind::Flag,
            Field::Layout => Kind::Text,
            Field::AllowTearing => Kind::Flag,
            Field::PreserveSplit => Kind::Flag,
            Field::SmartSplit => Kind::Flag,
            Field::SmartResizing => Kind::Flag,
            Field::Rounding => Kind::Count,
            Field::BlurEnabled => Kind::Flag,
            Field::BlurXray => Kind::Flag,
            Field::BlurSpecial => Kind::Flag,
            Field::BlurSize => Kind::Count,
            Field::BlurPasses => Kind::Count,
            Field::BlurBrightness => Kind::Ratio,
            Field::BlurNoise => Kind::Ratio,
            Field::BlurContrast => Kind::Ratio,
            Field::DimInactive => Kind::Flag,
            Field::DimStrength => Kind::Ratio,
            Field::AnimationEnabled => Kind::Flag,
            Field::Vfr => Kind::Count,
            Field::Vrr => Kind::Count,
            Field::AnimateManualResizes => Kind::Flag,
            Field::AnimateMouseWindowdragging => Kind::Flag,
            Field::EnableSwallow => Kind::Flag,
            Field::SwallowRegex => Kind::Text,
            Field::DisableHyprlandLogo => Kind::Flag,
            Field::ForceDefaultWallpaper => Kind::Count,
            Field::NewWindowTakesOverFullscreen => Kind::Count,
            Field::AllowSessionLockRestore => Kind::Flag,
            Field::PluginHyprexpoColumns => Kind::Count,
            Field::PluginHyprexpoGapSize => Kind::Count,
            Field::PluginHyprexpoBgCol => Kind::Text,
            Field::PluginHyprexpoWorkspaceMethod => Kind::Text,
            Field::PluginHyprexpoEnableGesture => Kind::Flag,
            Field::PluginHyprexpoGestureDistance => Kind::Count,
            Field::PluginHyprexpoGesturePositive => Kind::Flag,
        }
    }

    /// The place of this field in the record, counted from zero.
    pub open spec fn index(self) -> nat {
        match self {
            Field::Monitor => 0,
            Field::KbLayout => 1,
            Field::NumlockByDefault => 2,
            Field::RepeatDelay => 3,
            Field::RepeatRate => 4,
            Field::NaturalScroll => 5,
            Field::ScrollFactor => 6,
            Field::FollowMouse => 7,
            Field::ScrollEventDelay => 8,
            Field::WorkspaceSwipe => 9,
            Field::WorkspaceSwipeDistance => 10,
            Field::WorkspaceSwipeFingers => 11,
            Field::WorkspaceSwipeCancelRatio => 12,
            Field::WorkspaceSwipeMinSpeedToForce => 13,
            Field::WorkspaceSwipeDirectionLock => 14,
            Field::WorkspaceSwipeDirectionLockThreshold => 15,
            Field::WorkspaceSwipeCreateNew => 16,
            Field::GapsIn => 17,
            Field::GapsOut => 18,
            Field::GapsWorkspaces => 19,
            Field::BorderSize => 20,
            Field::ActiveBorderColor => 21,
            Field::InactiveBorderColor => 22,
            Field::ResizeOnBorder => 23,
            Field::NoFocusFallback => 24,
            Field::Layout => 25,
            Field::AllowTearing => 26,
            Field::PreserveSplit => 27,
            Field::SmartSplit => 28,
            Field::SmartResizing => 29,
            Field::Rounding => 30,
            Field::BlurEnabled => 31,
            Field::BlurXray => 32,
            Field::BlurSpecial => 33,
            Field::BlurSize => 34,
            Field::BlurPasses => 35,
            Field::BlurBrightness => 36,
            Field::BlurNoise => 37,
            Field::BlurContrast => 38,
            Field::DimInactive => 39,
            Field::DimStrength => 40,
            Field::AnimationEnabled => 41,
            Field::Vfr => 42,
            Field::Vrr => 43,
            Field::AnimateManualResizes => 44,
            Field::AnimateMouseWindowdragging => 45,
            Field::EnableSwallow => 46,
            Field::SwallowRegex => 47,
            Field::DisableHyprlandLogo => 48,
            Field::ForceDefaultWallpaper => 49,
            Field::NewWindowTakesOverFullscreen => 50,
            Field::AllowSessionLockRestore => 51,
            Field::PluginHyprexpoColumns => 52,
            Field::PluginHyprexpoGapSize => 53,
            Field::PluginHyprexpoBgCol => 54,
            Field::PluginHyprexpoWorkspaceMethod => 55,
            Field::PluginHyprexpoEnableGesture => 56,
            Field::PluginHyprexpoGestureDistance => 57,
            Field::PluginHyprexpoGesturePositive => 58,
        }
    }

    /// The value that the text `raw` gives this field: free text as it is; a
    /// flag, a count or a ratio where `raw` spells one, and else the field's
    /// default.
    pub open spec fn decoded(self, raw: Seq<char>) -> Value {
        match self.default_value() {
            Value::Text(_) => Value::Text(raw),
            Value::Flag(d) => Value::Flag(
                match flag_of(raw) {
                    Some(b) => b,
                    None => d,
                },
            ),
            Value::Count(d) => Value::Count(
                match count_of(raw) {
                    Some(n) => n,
                    None => d,
                },
            ),
            Value::Ratio(d) => Value::Ratio(
                if is_ratio_text(raw) {
                    raw
                } else {
                    d
                },
            ),
        }
    }

    /// Whether a line with the key `key`, inside the open blocks `blocks`,
    /// is a line for this field: `key` is the field's key, or it is the
    /// field's name and the open blocks are those of the field's section.
    pub open spec fn named(self, blocks: Seq<Seq<char>>, key: Seq<char>) -> bool {
        key == self.key() || (key == self.name() && blocks == self.section().path())
    }

    /// The section that this field stands in.
    pub fn section_of(self) -> (section: Section)
        ensures
            section == self.section(),
    {
        match self {
            Field::Monitor => Section::Top,
            Field::KbLayout => Section::Input,
            Field::NumlockByDefault => Section::Input,
            Field::RepeatDelay => Section::Input,
            Field::RepeatRate => Section::Input,
            Field::NaturalScroll => Section::Input,
            Field::ScrollFactor => Section::Input,
            Field::FollowMouse => Section::Input,
            Field::ScrollEventDelay => Section::Binds,
            Field::WorkspaceSwipe => Section::Gestures,
            Field::WorkspaceSwipeDistance => Section::Gestures,
            Field::WorkspaceSwipeFingers => Section::Gestures,
            Field::WorkspaceSwipeCancelRatio => Section::Gestures,
            Field::WorkspaceSwipeMinSpeedToForce => Section::Gestures,
            Field::WorkspaceSwipeDirectionLock => Section::Gestures,
            Field::WorkspaceSwipeDirectionLockThreshold => Section::Gestures,
            Field::WorkspaceSwipeCreateNew => Section::Gestures,
            Field::GapsIn => Section::General,
            Field::GapsOut => Section::General,
            Field::GapsWorkspaces => Section::General,
            Field::BorderSize => Section::General,
            Field::ActiveBorderColor => Section::General,
            Field::InactiveBorderColor => Section::General,
            Field::ResizeOnBorder => Section::General,
            Field::NoFocusFallback => Section::General,
            Field::Layout => Section::General,
            Field::AllowTearing => Section::General,
            Field::PreserveSplit => Section::Dwindle,
            Field::SmartSplit => Section::Dwindle,
            Field::SmartResizing => Section::Dwindle,
            Field::Rounding => Section::Decoration,
            Field::BlurEnabled => Section::Blur,
            Field::BlurXray => Section::Blur,
            Field::BlurSpecial => Section::Blur,
            Field::BlurSize => Section::Blur,
            Field::BlurPasses => Section::Blur,
            Field::BlurBrightness => Section::Blur,
            Field::BlurNoise => Section::Blur,
            Field::BlurContrast => Section::Blur,
            Field::DimInactive => Section::Decoration,
            Field::DimStrength => Section::Decoration,
            Field::AnimationEnabled => Section::Animations,
            Field::Vfr => Section::Misc,
            Field::Vrr => Section::Misc,
            Field::AnimateManualResizes => Section::Misc,
            Field::AnimateMouseWindowdragging => Section::Misc,
            Field::EnableSwallow => Section::Misc,
            Field::SwallowRegex => Section::Misc,
            Field::DisableHyprlandLogo => Section::Misc,
            Field::ForceDefaultWallpaper => Section::Misc,
            Field::NewWindowTakesOverFullscreen => Section::Misc,
            Field::AllowSessionLockRestore => Section::Misc,
            Field::PluginHyprexpoColumns => Section::Hyprexpo,
            Field::PluginHyprexpoGapSize => Section::Hyprexpo,
            Field::PluginHyprexpoBgCol => Section::Hyprexpo,
            Field::PluginHyprexpoWorkspaceMethod => Section::Hyprexpo,
            Field::PluginHyprexpoEnableGesture => Section::Hyprexpo,
            Field::PluginHyprexpoGestureDistance => Section::Hyprexpo,
            Field::PluginHyprexpoGesturePositive => Section::Hyprexpo,
        }
    }

    /// The name of this field in its section.
    pub fn name_str(self) -> (name: &'static str)
        ensures
            name@ == self.name(),
    {
        match self {
            Field::Monitor => "monitor",
            Field::KbLayout => "kb_layout",
            Field::NumlockByDefault => "numlock_by_default",
            Field::RepeatDelay => "repeat_delay",
            Field::RepeatRate => "repeat_rate",
            Field::NaturalScroll => "natural_scroll",
            Field::ScrollFactor => "scroll_factor",
            Field::FollowMouse => "follow_mouse",
            Field::ScrollEventDelay => "scroll_event_delay",
            Field::WorkspaceSwipe => "workspace_swipe",
            Field::WorkspaceSwipeDistance => "workspace_swipe_distance",
            Field::WorkspaceSwipeFingers => "workspace_swipe_fingers",
            Field::WorkspaceSwipeCancelRatio => "workspace_swipe_cancel_ratio",
            Field::WorkspaceSwipeMinSpeedToForce => "workspace_swipe_min_speed_to_force",
            Field::WorkspaceSwipeDirectionLock => "workspace_swipe_direction_lock",
            Field::WorkspaceSwipeDirectionLockThreshold => "workspace_swipe_direction_lock_threshold",
            Field::WorkspaceSwipeCreateNew => "workspace_swipe_create_new",
            Field::GapsIn => "gaps_in",
            Field::GapsOut => "gaps_out",
            Field::GapsWorkspaces => "gaps_workspaces",
            Field::BorderSize => "border_size",
            Field::ActiveBorderColor => "active_border_color",
            Field::InactiveBorderColor => "inactive_border_color",
            Field::ResizeOnBorder => "resize_on_border",
            Field::NoFocusFallback => "no_focus_fallback",
            Field::Layout => "layout",
            Field::AllowTearing => "allow_tearing",
            Field::PreserveSplit => "preserve_split",
            Field::SmartSplit => "smart_split",
            Field::SmartResizing => "smart_resizing",
            Field::Rounding => "rounding",
            Field::BlurEnabled => "enabled",
            Field::BlurXray => "xray",
            Field::BlurSpecial => "special",
            Field::BlurSize => "size",
            Field::BlurPasses => "passes",
            Field::BlurBrightness => "brightness",
            Field::BlurNoise => "noise",
            Field::BlurContrast => "contrast",
            Field::DimInactive => "dim_inactive",
            Field::DimStrength => "dim_strength",
            Field::AnimationEnabled => "enabled",
            Field::Vfr => "vfr",
            Field::Vrr => "vrr",
            Field::AnimateManualResizes => "animate_manual_resizes",
            Field::AnimateMouseWindowdragging => "animate_mouse_windowdragging",
            Field::EnableSwallow => "enable_swallow",
            Field::SwallowRegex => "swallow_regex",
            Field::DisableHyprlandLogo => "disable_hyprland_logo",
            Field::ForceDefaultWallpaper => "force_default_wallpaper",
            Field::NewWindowTakesOverFullscreen => "new_window_takes_over_fullscreen",
            Field::AllowSessionLockRestore => "allow_session_lock_restore",
            Field::PluginHyprexpoColumns => "columns",
            Field::PluginHyprexpoGapSize => "gap_size",
            Field::PluginHyprexpoBgCol => "bg_col",
            Field::PluginHyprexpoWorkspaceMethod => "workspace_method",
            Field::PluginHyprexpoEnableGesture => "enable_gesture",
            Field::PluginHyprexpoGestureDistance => "gesture_distance",
            Field::PluginHyprexpoGesturePositive => "gesture_positive",
        }
    }

    /// The key of this field.
    pub fn key_name(self) -> (name: &'static str)
        ensures
            name@ == self.key(),
    {
        match self {
            Field::Monitor => "monitor",
            Field::KbLayout => "input:kb_layout",
            Field::NumlockByDefault => "input:numlock_by_default",
            Field::RepeatDelay => "input:repeat_delay",
            Field::RepeatRate => "input:repeat_rate",
            Field::NaturalScroll => "input:natural_scroll",
            Field::ScrollFactor => "input:scroll_factor",
            Field::FollowMouse => "input:follow_mouse",
            Field::ScrollEventDelay => "binds:scroll_event_delay",
            Field::WorkspaceSwipe => "gestures:workspace_swipe",
            Field::WorkspaceSwipeDistance => "gestures:workspace_swipe_distance",
            Field::WorkspaceSwipeFingers => "gestures:workspace_swipe_fingers",
            Field::WorkspaceSwipeCancelRatio => "gestures:workspace_swipe_cancel_ratio",
            Field::WorkspaceSwipeMinSpeedToForce => "gestures:workspace_swipe_min_speed_to_force",
            Field::WorkspaceSwipeDirectionLock => "gestures:workspace_swipe_direction_lock",
            Field::WorkspaceSwipeDirectionLockThreshold => "gestures:workspace_swipe_direction_lock_threshold",
            Field::WorkspaceSwipeCreateNew => "gestures:workspace_swipe_create_new",
            Field::GapsIn => "general:gaps_in",
            Field::GapsOut => "general:gaps_out",
            Field::GapsWorkspaces => "general:gaps_workspaces",
            Field::BorderSize => "general:border_size",
            Field::ActiveBorderColor => "general:active_border_color",
            Field::InactiveBorderColor => "general:inactive_border_color",
            Field::ResizeOnBorder => "general:resize_on_border",
            Field::NoFocusFallback => "general:no_focus_fallback",
            Field::Layout => "general:layout",
            Field::AllowTearing => "general:allow_tearing",
            Field::PreserveSplit => "dwindle:preserve_split",
            Field::SmartSplit => "dwindle:smart_split",
            Field::SmartResizing => "dwindle:smart_resizing",
            Field::Rounding => "decoration:rounding",
            Field::BlurEnabled => "decoration.blur:enabled",
            Field::BlurXray => "decoration.blur:xray",
            Field::BlurSpecial => "decoration.blur:special",
            Field::BlurSize => "decoration.blur:size",
            Field::BlurPasses => "decoration.blur:passes",
            Field::BlurBrightness => "decoration.blur:brightness",
            Field::BlurNoise => "decoration.blur:noise",
            Field::BlurContrast => "decoration.blur:contrast",
            Field::DimInactive => "decoration:dim_inactive",
            Field::DimStrength => "decoration:dim_strength",
            Field::AnimationEnabled => "animations:enabled",
            Field::Vfr => "misc:vfr",
            Field::Vrr => "misc:vrr",
            Field::AnimateManualResizes => "misc:animate_manual_resizes",
            Field::AnimateMouseWindowdragging => "misc:animate_mouse_windowdragging",
            Field::EnableSwallow => "misc:enable_swallow",
            Field::SwallowRegex => "misc:swallow_regex",
            Field::DisableHyprlandLogo => "misc:disable_hyprland_logo",
            Field::ForceDefaultWallpaper => "misc:force_default_wallpaper",
            Field::NewWindowTakesOverFullscreen => "misc:new_window_takes_over_fullscreen",
            Field::AllowSessionLockRestore => "misc:allow_session_lock_restore",
            Field::PluginHyprexpoColumns => "plugin.hyprexpo:columns",
            Field::PluginHyprexpoGapSize => "plugin.hyprexpo:gap_size",
            Field::PluginHyprexpoBgCol => "plugin.hyprexpo:bg_col",
            Field::PluginHyprexpoWorkspaceMethod => "plugin.hyprexpo:workspace_method",
            Field::PluginHyprexpoEnableGesture => "plugin.hyprexpo:enable_gesture",
            Field::PluginHyprexpoGestureDistance => "plugin.hyprexpo:gesture_distance",
            Field::PluginHyprexpoGesturePositive => "plugin.hyprexpo:gesture_positive",
        }
    }

    /// The field at place `i` of the record.
    pub fn from_index(i: usize) -> (field: Field)
        requires
            i < FIELD_COUNT,
        ensures
            field.index() == i,
    {
        match i {
            0 => Field::Monitor,
            1 => Field::KbLayout,
            2 => Field::NumlockByDefault,
            3 => Field::RepeatDelay,
            4 => Field::RepeatRate,
            5 => Field::NaturalScroll,
            6 => Field::ScrollFactor,
            7 => Field::FollowMouse,
            8 => Field::ScrollEventDelay,
            9 => Field::WorkspaceSwipe,
            10 => Field::WorkspaceSwipeDistance,
            11 => Field::WorkspaceSwipeFingers,
            12 => Field::WorkspaceSwipeCancelRatio,
            13 => Field::WorkspaceSwipeMinSpeedToForce,
            14 => Field::WorkspaceSwipeDirectionLock,
            15 => Field::WorkspaceSwipeDirectionLockThreshold,
            16 => Field::WorkspaceSwipeCreateNew,
            17 => Field::GapsIn,
            18 => Field::GapsOut,
            19 => Field::GapsWorkspaces,
            20 => Field::BorderSize,
            21 => Field::ActiveBorderColor,
            22 => Field::InactiveBorderColor,
            23 => Field::ResizeOnBorder,
            24 => Field::NoFocusFallback,
            25 => Field::Layout,
            26 => Field::AllowTearing,
            27 => Field::PreserveSplit,
            28 => Field::SmartSplit,
            29 => Field::SmartResizing,
            30 => Field::Rounding,
            31 => Field::BlurEnabled,
            32 => Field::BlurXray,
            33 => Field::BlurSpecial,
            34 => Field::BlurSize,
            35 => Field::BlurPasses,
            36 => Field::BlurBrightness,
            37 => Field::BlurNoise,
            38 => Field::BlurContrast,
            39 => Field::DimInactive,
            40 => Field::DimStrength,
            41 => Field::AnimationEnabled,
            42 => Field::Vfr,
            43 => Field::Vrr,
            44 => Field::AnimateManualResizes,
            45 => Field::AnimateMouseWindowdragging,
            46 => Field::EnableSwallow,
            47 => Field::SwallowRegex,
            48 => Field::DisableHyprlandLogo,
            49 => Field::ForceDefaultWallpaper,
            50 => Field::NewWindowTakesOverFullscreen,
            51 => Field::AllowSessionLockRestore,
            52 => Field::PluginHyprexpoColumns,
            53 => Field::PluginHyprexpoGapSize,
            54 => Field::PluginHyprexpoBgCol,
            55 => Field::PluginHyprexpoWorkspaceMethod,
            56 => Field::PluginHyprexpoEnableGesture,
            57 => Field::PluginHyprexpoGestureDistance,
            _ => Field::PluginHyprexpoGesturePositive,
        }
    }
}

/// The record of defaults: each field with its default value.
pub open spec fn default_settings() -> Map<Field, Value> {
    Map::new(|f: Field| true, |f: Field| f.default_value())
}

/// What tells the keys apart: the length, the first character and the last
/// but one.
spec fn mark(s: Seq<char>) -> (nat, char, char) {
    (s.len(), s[0], s[s.len() - 2])
}

/// No two fields share a key.
pub proof fn lemma_keys_distinct(f: Field, g: Field)
    requires
        f.key() == g.key(),
    ensures
        f == g,
{
    reveal_strlit("monitor");
    reveal_strlit("input:kb_layout");
    reveal_strlit("input:numlock_by_default");
    reveal_strlit("input:repeat_delay");
    reveal_strlit("input:repeat_rate");
    reveal_strlit("input:natural_scroll");
    reveal_strlit("input:scroll_factor");
    reveal_strlit("input:follow_mouse");
    reveal_strlit("binds:scroll_event_delay");
    reveal_strlit("gestures:workspace_swipe");
    reveal_strlit("gestures:workspace_swipe_distance");
    reveal_strlit("gestures:workspace_swipe_fingers");
    reveal_strlit("gestures:workspace_swipe_cancel_ratio");
    reveal_strlit("gestures:workspace_swipe_min_speed_to_force");
    reveal_strlit("gestures:workspace_swipe_direction_lock");
    reveal_strlit("gestures:workspace_swipe_direction_lock_threshold");
    reveal_strlit("gestures:workspace_swipe_create_new");
    reveal_strlit("general:gaps_in");
    reveal_strlit("general:gaps_out");
    reveal_strlit("general:gaps_workspaces");
    reveal_strlit("general:border_size");
    reveal_strlit("general:active_border_color");
    reveal_strlit("general:inactive_border_color");
    reveal_strlit("general:resize_on_border");
    reveal_strlit("general:no_focus_fallback");
    reveal_strlit("general:layout");
    reveal_strlit("general:allow_tearing");
    reveal_strlit("dwindle:preserve_split");
    reveal_strlit("dwindle:smart_split");
    reveal_strlit("dwindle:smart_resizing");
    reveal_strlit("decoration:rounding");
    reveal_strlit("decoration.blur:enabled");
    reveal_strlit("decoration.blur:xray");
    reveal_strlit("decoration.blur:special");
    reveal_strlit("decoration.blur:size");
    reveal_strlit("decoration.blur:passes");
    reveal_strlit("decoration.blur:brightness");
    reveal_strlit("decoration.blur:noise");
    reveal_strlit("decoration.blur:contrast");
    reveal_strlit("decoration:dim_inactive");
    reveal_strlit("decoration:dim_strength");
    reveal_strlit("animations:enabled");
    reveal_strlit("misc:vfr");
    reveal_strlit("misc:vrr");
    reveal_strlit("misc:animate_manual_resizes");
    reveal_strlit("misc:animate_mouse_windowdragging");
    reveal_strlit("misc:enable_swallow");
    reveal_strlit("misc:swallow_regex");
    reveal_strlit("misc:disable_hyprland_logo");
    reveal_strlit("misc:force_default_wallpaper");
    reveal_strlit("misc:new_window_takes_over_fullscreen");
    reveal_strlit("misc:allow_session_lock_restore");
    reveal_strlit("plugin.hyprexpo:columns");
    reveal_strlit("plugin.hyprexpo:gap_size");
    reveal_strlit("plugin.hyprexpo:bg_col");
    reveal_strlit("plugin.hyprexpo:workspace_method");
    reveal_strlit("plugin.hyprexpo:enable_gesture");
    reveal_strlit("plugin.hyprexpo:gesture_distance");
    reveal_strlit("plugin.hyprexpo:gesture_positive");
    assert(mark(f.key()) == mark(g.key()));
}

/// No two fields of one section share a name.
pub proof fn lemma_names_distinct(f: Field, g: Field)
    requires
        f.section() == g.section(),
        f.name() == g.name(),
    ensures
        f == g,
{
    reveal_strlit("active_border_color");
    reveal_strlit("allow_session_lock_restore");
    reveal_strlit("allow_tearing");
    reveal_strlit("animate_manual_resizes");
    reveal_strlit("animate_mouse_windowdragging");
    reveal_strlit("bg_col");
    reveal_strlit("border_size");
    reveal_strlit("brightness");
    reveal_strlit("columns");
    reveal_strlit("contrast");
    reveal_strlit("dim_inactive");
    reveal_strlit("dim_strength");
    reveal_strlit("disable_hyprland_logo");
    reveal_strlit("enable_gesture");
    reveal_strlit("enable_swallow");
    reveal_strlit("enabled");
    reveal_strlit("follow_mouse");
    reveal_strlit("force_default_wallpaper");
    reveal_strlit("gap_size");
    reveal_strlit("gaps_in");
    reveal_strlit("gaps_out");
    reveal_strlit("gaps_workspaces");
    reveal_strlit("gesture_distance");
    reveal_strlit("gesture_positive");
    reveal_strlit("inactive_border_color");
    reveal_strlit("kb_layout");
    reveal_strlit("layout");
    reveal_strlit("monitor");
    reveal_strlit("natural_scroll");
    reveal_strlit("new_window_takes_over_fullscreen");
    reveal_strlit("no_focus_fallback");
    reveal_strlit("noise");
    reveal_strlit("numlock_by_default");
    reveal_strlit("passes");
    reveal_strlit("preserve_split");
    reveal_strlit("repeat_delay");
    reveal_strlit("repeat_rate");
    reveal_strlit("resize_on_border");
    reveal_strlit("rounding");
    reveal_strlit("scroll_event_delay");
    reveal_strlit("scroll_factor");
    reveal_strlit("size");
    reveal_strlit("smart_resizing");
    reveal_strlit("smart_split");
    reveal_strlit("special");
    reveal_strlit("swallow_regex");
    reveal_strlit("vfr");
    reveal_strlit("vrr");
    reveal_strlit("workspace_method");
    reveal_strlit("workspace_swipe");
    reveal_strlit("workspace_swipe_cancel_ratio");
    reveal_strlit("workspace_swipe_create_new");
    reveal_strlit("workspace_swipe_direction_lock");
    reveal_strlit("workspace_swipe_direction_lock_threshold");
    reveal_strlit("workspace_swipe_distance");
    reveal_strlit("workspace_swipe_fingers");
    reveal_strlit("workspace_swipe_min_speed_to_force");
    reveal_strlit("xray");
    assert(mark(f.name()) == mark(g.name()));
}

/// The name of every field is a plain name, and only the monitor's name is
/// `monitor`.
pub proof fn lemma_name_plain(f: Field)
    ensures
        plain(f.name()),
        f.name() == Field::Monitor.name() ==> f == Field::Monitor,
{
    reveal_strlit("monitor");
    match f {
        Field::Monitor => {
            assert(plain("monitor"@));
        },
        Field::KbLayout => {
            reveal_strlit("kb_layout");
            assert(plain("kb_layout"@));
        },
        Field::NumlockByDefault => {
            reveal_strlit("numlock_by_default");
            assert(plain("numlock_by_default"@));
        },
        Field::RepeatDelay => {
            reveal_strlit("repeat_delay");
            assert(plain("repeat_delay"@));
        },
        Field::RepeatRate => {
            reveal_strlit("repeat_rate");
            assert(plain("repeat_rate"@));
        },
        Field::NaturalScroll => {
            reveal_strlit("natural_scroll");
            assert(plain("natural_scroll"@));
        },
        Field::ScrollFactor => {
            reveal_strlit("scroll_factor");
            assert(plain("scroll_factor"@));
        },
        Field::FollowMouse => {
            reveal_strlit("follow_mouse");
            assert(plain("follow_mouse"@));
        },
        Field::ScrollEventDelay => {
            reveal_strlit("scroll_event_delay");
            assert(plain("scroll_event_delay"@));
        },
        Field::WorkspaceSwipe => {
            reveal_strlit("workspace_swipe");
            assert(plain("workspace_swipe"@));
        },
        Field::WorkspaceSwipeDistance => {
            reveal_strlit("workspace_swipe_distance");
            assert(plain("workspace_swipe_distance"@));
        },
        Field::WorkspaceSwipeFingers => {
            reveal_strlit("workspace_swipe_fingers");
            assert(plain("workspace_swipe_fingers"@));
        },
        Field::WorkspaceSwipeCancelRatio => {
            reveal_strlit("workspace_swipe_cancel_ratio");
            assert(plain("workspace_swipe_cancel_ratio"@));
        },
        Field::WorkspaceSwipeMinSpeedToForce => {
            reveal_strlit("workspace_swipe_min_speed_to_force");
            assert(plain("workspace_swipe_min_speed_to_force"@));
        },
        Field::WorkspaceSwipeDirectionLock => {
            reveal_strlit("workspace_swipe_direction_lock");
            assert(plain("workspace_swipe_direction_lock"@));
        },
        Field::WorkspaceSwipeDirectionLockThreshold => {
            reveal_strlit("workspace_swipe_direction_lock_threshold");
            assert(plain("workspace_swipe_direction_lock_threshold"@));
        },
        Field::WorkspaceSwipeCreateNew => {
            reveal_strlit("workspace_swipe_create_new");
            assert(plain("workspace_swipe_create_new"@));
        },
        Field::GapsIn => {
            reveal_strlit("gaps_in");
            assert(plain("gaps_in"@));
            assert("gaps_in"@[0] != "monitor"@[0]);
        },
        Field::GapsOut => {
            reveal_strlit("gaps_out");
            assert(plain("gaps_out"@));
        },
        Field::GapsWorkspaces => {
            reveal_strlit("gaps_workspaces");
            assert(plain("gaps_workspaces"@));
        },
        Field::BorderSize => {
            reveal_strlit("border_size");
            assert(plain("border_size"@));
        },
        Field::ActiveBorderColor => {
            reveal_strlit("active_border_color");
            assert(plain("active_border_color"@));
        },
        Field::InactiveBorderColor => {
            reveal_strlit("inactive_border_color");
            assert(plain("inactive_border_color"@));
        },
        Field::ResizeOnBorder => {
            reveal_strlit("resize_on_border");
            assert(plain("resize_on_border"@));
        },
        Field::NoFocusFallback => {
            reveal_strlit("no_focus_fallback");
            assert(plain("no_focus_fallback"@));
        },
        Field::Layout => {
            reveal_strlit("layout");
            assert(plain("layout"@));
        },
        Field::AllowTearing => {
            reveal_strlit("allow_tearing");
            assert(plain("allow_tearing"@));
        },
        Field::PreserveSplit => {
            reveal_strlit("preserve_split");
            assert(plain("preserve_split"@));
        },
        Field::SmartSplit => {
            reveal_strlit("smart_split");
            assert(plain("smart_split"@));
        },
        Field::SmartResizing => {
            reveal_strlit("smart_resizing");
            assert(plain("smart_resizing"@));
        },
        Field::Rounding => {
            reveal_strlit("rounding");
            assert(plain("rounding"@));
        },
        Field::BlurEnabled => {
            reveal_strlit("enabled");
            assert(plain("enabled"@));
            assert("enabled"@[0] != "monitor"@[0]);
        },
        Field::BlurXray => {
            reveal_strlit("xray");
            assert(plain("xray"@));
        },
        Field::BlurSpecial => {
            reveal_strlit("special");
            assert(plain("special"@));
            assert("special"@[0] != "monitor"@[0]);
        },
        Field::BlurSize => {
            reveal_strlit("size");
            assert(plain("size"@));
        },
        Field::BlurPasses => {
            reveal_strlit("passes");
            assert(plain("passes"@));
        },
        Field::BlurBrightness => {
            reveal_strlit("brightness");
            assert(plain("brightness"@));
        },
        Field::BlurNoise => {
            reveal_strlit("noise");
            assert(plain("noise"@));
        },
        Field::BlurContrast => {
            reveal_strlit("contrast");
            assert(plain("contrast"@));
        },
        Field::DimInactive => {
            reveal_strlit("dim_inactive");
            assert(plain("dim_inactive"@));
        },
        Field::DimStrength => {
            reveal_strlit("dim_strength");
            assert(plain("dim_strength"@));
        },
        Field::AnimationEnabled => {
            reveal_strlit("enabled");
            assert(plain("enabled"@));
            assert("enabled"@[0] != "monitor"@[0]);
        },
        Field::Vfr => {
            reveal_strlit("vfr");
            assert(plain("vfr"@));
        },
        Field::Vrr => {
            reveal_strlit("vrr");
            assert(plain("vrr"@));
        },
        Field::AnimateManualResizes => {
            reveal_strlit("animate_manual_resizes");
            assert(plain("animate_manual_resizes"@));
        },
        Field::AnimateMouseWindowdragging => {
            reveal_strlit("animate_mouse_windowdragging");
            assert(plain("animate_mouse_windowdragging"@));
        },
        Field::EnableSwallow => {
            reveal_strlit("enable_swallow");
            assert(plain("enable_swallow"@));
        },
        Field::SwallowRegex => {
            reveal_strlit("swallow_regex");
            assert(plain("swallow_regex"@));
        },
        Field::DisableHyprlandLogo => {
            reveal_strlit("disable_hyprland_logo");
            assert(plain("disable_hyprland_logo"@));
        },
        Field::ForceDefaultWallpaper => {
            reveal_strlit("force_default_wallpaper");
            assert(plain("force_default_wallpaper"@));
        },
        Field::NewWindowTakesOverFullscreen => {
            reveal_strlit("new_window_takes_over_fullscreen");
            assert(plain("new_window_takes_over_fullscreen"@));
        },
        Field::AllowSessionLockRestore => {
            reveal_strlit("allow_session_lock_restore");
            assert(plain("allow_session_lock_restore"@));
        },
        Field::PluginHyprexpoColumns => {
            reveal_strlit("columns");
            assert(plain("columns"@));
            assert("columns"@[0] != "monitor"@[0]);
        },
        Field::PluginHyprexpoGapSize => {
            reveal_strlit("gap_size");
            assert(plain("gap_size"@));
        },
        Field::PluginHyprexpoBgCol => {
            reveal_strlit("bg_col");
            assert(plain("bg_col"@));
        },
        Field::PluginHyprexpoWorkspaceMethod => {
            reveal_strlit("workspace_method");
            assert(plain("workspace_method"@));
        },
        Field::PluginHyprexpoEnableGesture => {
            reveal_strlit("enable_gesture");
            assert(plain("enable_gesture"@));
        },
        Field::PluginHyprexpoGestureDistance => {
            reveal_strlit("gesture_distance");
            assert(plain("gesture_distance"@));
        },
        Field::PluginHyprexpoGesturePositive => {
            reveal_strlit("gesture_positive");
            assert(plain("gesture_positive"@));
        },
    }
}

/// Every key is a word: it is not empty, holds no `=` and no line feed, and
/// neither starts nor ends in white space.
pub proof fn lemma_key_word(f: Field)
    ensures
        word(f.key()),
{
    match f {
        Field::Monitor => reveal_strlit("monitor"),
        Field::KbLayout => reveal_strlit("input:kb_layout"),
        Field::NumlockByDefault => reveal_strlit("input:numlock_by_default"),
        Field::RepeatDelay => reveal_strlit("input:repeat_delay"),
        Field::RepeatRate => reveal_strlit("input:repeat_rate"),
        Field::NaturalScroll => reveal_strlit("input:natural_scroll"),
        Field::ScrollFactor => reveal_strlit("input:scroll_factor"),
        Field::FollowMouse => reveal_strlit("input:follow_mouse"),
        Field::ScrollEventDelay => reveal_strlit("binds:scroll_event_delay"),
        Field::WorkspaceSwipe => reveal_strlit("gestures:workspace_swipe"),
        Field::WorkspaceSwipeDistance => reveal_strlit("gestures:workspace_swipe_distance"),
        Field::WorkspaceSwipeFingers => reveal_strlit("gestures:workspace_swipe_fingers"),
        Field::WorkspaceSwipeCancelRatio => reveal_strlit("gestures:workspace_swipe_cancel_ratio"),
        Field::WorkspaceSwipeMinSpeedToForce => reveal_strlit("gestures:workspace_swipe_min_speed_to_force"),
        Field::WorkspaceSwipeDirectionLock => reveal_strlit("gestures:workspace_swipe_direction_lock"),
        Field::WorkspaceSwipeDirectionLockThreshold => reveal_strlit("gestures:workspace_swipe_direction_lock_threshold"),
        Field::WorkspaceSwipeCreateNew => reveal_strlit("gestures:workspace_swipe_create_new"),
        Field::GapsIn => reveal_strlit("general:gaps_in"),
        Field::GapsOut => reveal_strlit("general:gaps_out"),
        Field::GapsWorkspaces => reveal_strlit("general:gaps_workspaces"),
        Field::BorderSize => reveal_strlit("general:border_size"),
        Field::ActiveBorderColor => reveal_strlit("general:active_border_color"),
        Field::InactiveBorderColor => reveal_strlit("general:inactive_border_color"),
        Field::ResizeOnBorder => reveal_strlit("general:resize_on_border"),
        Field::NoFocusFallback => reveal_strlit("general:no_focus_fallback"),
        Field::Layout => reveal_strlit("general:layout"),
        Field::AllowTearing => reveal_strlit("general:allow_tearing"),
        Field::PreserveSplit => reveal_strlit("dwindle:preserve_split"),
        Field::SmartSplit => reveal_strlit("dwindle:smart_split"),
        Field::SmartResizing => reveal_strlit("dwindle:smart_resizing"),
        Field::Rounding => reveal_strlit("decoration:rounding"),
        Field::BlurEnabled => reveal_strlit("decoration.blur:enabled"),
        Field::BlurXray => reveal_strlit("decoration.blur:xray"),
        Field::BlurSpecial => reveal_strlit("decoration.blur:special"),
        Field::BlurSize => reveal_strlit("decoration.blur:size"),
        Field::BlurPasses => reveal_strlit("decoration.blur:passes"),
        Field::BlurBrightness => reveal_strlit("decoration.blur:brightness"),
        Field::BlurNoise => reveal_strlit("decoration.blur:noise"),
        Field::BlurContrast => reveal_strlit("decoration.blur:contrast"),
        Field::DimInactive => reveal_strlit("decoration:dim_inactive"),
        Field::DimStrength => reveal_strlit("decoration:dim_strength"),
        Field::AnimationEnabled => reveal_strlit("animations:enabled"),
        Field::Vfr => reveal_strlit("misc:vfr"),
        Field::Vrr => reveal_strlit("misc:vrr"),
        Field::AnimateManualResizes => reveal_strlit("misc:animate_manual_resizes"),
        Field::AnimateMouseWindowdragging => reveal_strlit("misc:animate_mouse_windowdragging"),
        Field::EnableSwallow => reveal_strlit("misc:enable_swallow"),
        Field::SwallowRegex => reveal_strlit("misc:swallow_regex"),
        Field::DisableHyprlandLogo => reveal_strlit("misc:disable_hyprland_logo"),
        Field::ForceDefaultWallpaper => reveal_strlit("misc:force_default_wallpaper"),
        Field::NewWindowTakesOverFullscreen => reveal_strlit("misc:new_window_takes_over_fullscreen"),
        Field::AllowSessionLockRestore => reveal_strlit("misc:allow_session_lock_restore"),
        Field::PluginHyprexpoColumns => reveal_strlit("plugin.hyprexpo:columns"),
        Field::PluginHyprexpoGapSize => reveal_strlit("plugin.hyprexpo:gap_size"),
        Field::PluginHyprexpoBgCol => reveal_strlit("plugin.hyprexpo:bg_col"),
        Field::PluginHyprexpoWorkspaceMethod => reveal_strlit("plugin.hyprexpo:workspace_method"),
        Field::PluginHyprexpoEnableGesture => reveal_strlit("plugin.hyprexpo:enable_gesture"),
        Field::PluginHyprexpoGestureDistance => reveal_strlit("plugin.hyprexpo:gesture_distance"),
        Field::PluginHyprexpoGesturePositive => reveal_strlit("plugin.hyprexpo:gesture_positive"),
    }
}

/// Every key but that of the monitor holds a `:`, so that none but the
/// monitor's is a plain name.
pub proof fn lemma_key_not_plain(f: Field)
    ensures
        f != Field::Monitor ==> !plain(f.key()),
        Field::Monitor.key() == Field::Monitor.name(),
{
    match f {
        Field::Monitor => {},
        Field::KbLayout => {
            reveal_strlit("input:kb_layout");
            assert("input:kb_layout"@[5] == ':');
        },
        Field::NumlockByDefault => {
            reveal_strlit("input:numlock_by_default");
            assert("input:numlock_by_default"@[5] == ':');
        },
        Field::RepeatDelay => {
            reveal_strlit("input:repeat_delay");
            assert("input:repeat_delay"@[5] == ':');
        },
        Field::RepeatRate => {
            reveal_strlit("input:repeat_rate");
            assert("input:repeat_rate"@[5] == ':');
        },
        Field::NaturalScroll => {
            reveal_strlit("input:natural_scroll");
            assert("input:natural_scroll"@[5] == ':');
        },
        Field::ScrollFactor => {
            reveal_strlit("input:scroll_factor");
            assert("input:scroll_factor"@[5] == ':');
        },
        Field::FollowMouse => {
            reveal_strlit("input:follow_mouse");
            assert("input:follow_mouse"@[5] == ':');
        },
        Field::ScrollEventDelay => {
            reveal_strlit("binds:scroll_event_delay");
            assert("binds:scroll_event_delay"@[5] == ':');
        },
        Field::WorkspaceSwipe => {
            reveal_strlit("gestures:workspace_swipe");
            assert("gestures:workspace_swipe"@[8] == ':');
        },
        Field::WorkspaceSwipeDistance => {
            reveal_strlit("gestures:workspace_swipe_distance");
            assert("gestures:workspace_swipe_distance"@[8] == ':');
        },
        Field::WorkspaceSwipeFingers => {
            reveal_strlit("gestures:workspace_swipe_fingers");
            assert("gestures:workspace_swipe_fingers"@[8] == ':');
        },
        Field::WorkspaceSwipeCancelRatio => {
            reveal_strlit("gestures:workspace_swipe_cancel_ratio");
            assert("gestures:workspace_swipe_cancel_ratio"@[8] == ':');
        },
        Field::WorkspaceSwipeMinSpeedToForce => {
            reveal_strlit("gestures:workspace_swipe_min_speed_to_force");
            assert("gestures:workspace_swipe_min_speed_to_force"@[8] == ':');
        },
        Field::WorkspaceSwipeDirectionLock => {
            reveal_strlit("gestures:workspace_swipe_direction_lock");
            assert("gestures:workspace_swipe_direction_lock"@[8] == ':');
        },
        Field::WorkspaceSwipeDirectionLockThreshold => {
            reveal_strlit("gestures:workspace_swipe_direction_lock_threshold");
            assert("gestures:workspace_swipe_direction_lock_threshold"@[8] == ':');
        },
        Field::WorkspaceSwipeCreateNew => {
            reveal_strlit("gestures:workspace_swipe_create_new");
            assert("gestures:workspace_swipe_create_new"@[8] == ':');
        },
        Field::GapsIn => {
            reveal_strlit("general:gaps_in");
            assert("general:gaps_in"@[7] == ':');
        },
        Field::GapsOut => {
            reveal_strlit("general:gaps_out");
            assert("general:gaps_out"@[7] == ':');
        },
        Field::GapsWorkspaces => {
            reveal_strlit("general:gaps_workspaces");
            assert("general:gaps_workspaces"@[7] == ':');
        },
        Field::BorderSize => {
            reveal_strlit("general:border_size");
            assert("general:border_size"@[7] == ':');
        },
        Field::ActiveBorderColor => {
            reveal_strlit("general:active_border_color");
            assert("general:active_border_color"@[7] == ':');
        },
        Field::InactiveBorderColor => {
            reveal_strlit("general:inactive_border_color");
            assert("general:inactive_border_color"@[7] == ':');
        },
        Field::ResizeOnBorder => {
            reveal_strlit("general:resize_on_border");
            assert("general:resize_on_border"@[7] == ':');
        },
        Field::NoFocusFallback => {
            reveal_strlit("general:no_focus_fallback");
            assert("general:no_focus_fallback"@[7] == ':');
        },
        Field::Layout => {
            reveal_strlit("general:layout");
            assert("general:layout"@[7] == ':');
        },
        Field::AllowTearing => {
            reveal_strlit("general:allow_tearing");
            assert("general:allow_tearing"@[7] == ':');
        },
        Field::PreserveSplit => {
            reveal_strlit("dwindle:preserve_split");
            assert("dwindle:preserve_split"@[7] == ':');
        },
        Field::SmartSplit => {
            reveal_strlit("dwindle:smart_split");
            assert("dwindle:smart_split"@[7] == ':');
        },
        Field::SmartResizing => {
            reveal_strlit("dwindle:smart_resizing");
            assert("dwindle:smart_resizing"@[7] == ':');
        },
        Field::Rounding => {
            reveal_strlit("decoration:rounding");
            assert("decoration:rounding"@[10] == ':');
        },
        Field::BlurEnabled => {
            reveal_strlit("decoration.blur:enabled");
            assert("decoration.blur:enabled"@[15] == ':');
        },
        Field::BlurXray => {
            reveal_strlit("decoration.blur:xray");
            assert("decoration.blur:xray"@[15] == ':');
        },
        Field::BlurSpecial => {
            reveal_strlit("decoration.blur:special");
            assert("decoration.blur:special"@[15] == ':');
        },
        Field::BlurSize => {
            reveal_strlit("decoration.blur:size");
            assert("decoration.blur:size"@[15] == ':');
        },
        Field::BlurPasses => {
            reveal_strlit("decoration.blur:passes");
            assert("decoration.blur:passes"@[15] == ':');
        },
        Field::BlurBrightness => {
            reveal_strlit("decoration.blur:brightness");
            assert("decoration.blur:brightness"@[15] == ':');
        },
        Field::BlurNoise => {
            reveal_strlit("decoration.blur:noise");
            assert("decoration.blur:noise"@[15] == ':');
        },
        Field::BlurContrast => {
            reveal_strlit("decoration.blur:contrast");
            assert("decoration.blur:contrast"@[15] == ':');
        },
        Field::DimInactive => {
            reveal_strlit("decoration:dim_inactive");
            assert("decoration:dim_inactive"@[10] == ':');
        },
        Field::DimStrength => {
            reveal_strlit("decoration:dim_strength");
            assert("decoration:dim_strength"@[10] == ':');
        },
        Field::AnimationEnabled => {
            reveal_strlit("animations:enabled");
            assert("animations:enabled"@[10] == ':');
        },
        Field::Vfr => {
            reveal_strlit("misc:vfr");
            assert("misc:vfr"@[4] == ':');
        },
        Field::Vrr => {
            reveal_strlit("misc:vrr");
            assert("misc:vrr"@[4] == ':');
        },
        Field::AnimateManualResizes => {
            reveal_strlit("misc:animate_manual_resizes");
            assert("misc:animate_manual_resizes"@[4] == ':');
        },
        Field::AnimateMouseWindowdragging => {
            reveal_strlit("misc:animate_mouse_windowdragging");
            assert("misc:animate_mouse_windowdragging"@[4] == ':');
        },
        Field::EnableSwallow => {
            reveal_strlit("misc:enable_swallow");
            assert("misc:enable_swallow"@[4] == ':');
        },
        Field::SwallowRegex => {
            reveal_strlit("misc:swallow_regex");
            assert("misc:swallow_regex"@[4] == ':');
        },
        Field::DisableHyprlandLogo => {
            reveal_strlit("misc:disable_hyprland_logo");
            assert("misc:disable_hyprland_logo"@[4] == ':');
        },
        Field::ForceDefaultWallpaper => {
            reveal_strlit("misc:force_default_wallpaper");
            assert("misc:force_default_wallpaper"@[4] == ':');
        },
        Field::NewWindowTakesOverFullscreen => {
            reveal_strlit("misc:new_window_takes_over_fullscreen");
            assert("misc:new_window_takes_over_fullscreen"@[4] == ':');
        },
        Field::AllowSessionLockRestore => {
            reveal_strlit("misc:allow_session_lock_restore");
            assert("misc:allow_session_lock_restore"@[4] == ':');
        },
        Field::PluginHyprexpoColumns => {
            reveal_strlit("plugin.hyprexpo:columns");
            assert("plugin.hyprexpo:columns"@[15] == ':');
        },
        Field::PluginHyprexpoGapSize => {
            reveal_strlit("plugin.hyprexpo:gap_size");
            assert("plugin.hyprexpo:gap_size"@[15] == ':');
        },
        Field::PluginHyprexpoBgCol => {
            reveal_strlit("plugin.hyprexpo:bg_col");
            assert("plugin.hyprexpo:bg_col"@[15] == ':');
        },
        Field::PluginHyprexpoWorkspaceMethod => {
            reveal_strlit("plugin.hyprexpo:workspace_method");
            assert("plugin.hyprexpo:workspace_method"@[15] == ':');
        },
        Field::PluginHyprexpoEnableGesture => {
            reveal_strlit("plugin.hyprexpo:enable_gesture");
            assert("plugin.hyprexpo:enable_gesture"@[15] == ':');
        },
        Field::PluginHyprexpoGestureDistance => {
            reveal_strlit("plugin.hyprexpo:gesture_distance");
            assert("plugin.hyprexpo:gesture_distance"@[15] == ':');
        },
        Field::PluginHyprexpoGesturePositive => {
            reveal_strlit("plugin.hyprexpo:gesture_positive");
            assert("plugin.hyprexpo:gesture_positive"@[15] == ':');
        },
    }
}

/// A line is a line for one field at most.
pub proof fn lemma_named_once(blocks: Seq<Seq<char>>, key: Seq<char>, f: Field, g: Field)
    requires
        f.named(blocks, key),
        g.named(blocks, key),
    ensures
        f == g,
{
    lemma_name_plain(f);
    lemma_name_plain(g);
    lemma_key_not_plain(f);
    lemma_key_not_plain(g);
    if key == f.key() && key == g.key() {
        lemma_keys_distinct(f, g);
    } else if key != f.key() && key != g.key() {
        lemma_paths_distinct(f.section(), g.section());
        lemma_names_distinct(f, g);
    }
}

/// The field that a line with the key `key` is for, inside the open blocks
/// `blocks`, if it is a line for a field.
pub fn field_of_key(blocks: &Blocks, key: &str) -> (r: Option<Field>)
    ensures
        match r {
            Some(f) => f.named(blocks@, key@),
            None => forall|f: Field| !f.named(blocks@, key@),
        },
{
    let chars = to_chars(key);
    let mut i: usize = 0;
    while i < FIELD_COUNT
        invariant
            i <= FIELD_COUNT,
            chars@ == key@,
            forall|f: Field| f.index() < i ==> !f.named(blocks@, key@),
        decreases FIELD_COUNT - i,
    {
        let field = Field::from_index(i);
        if spells(&chars, field.key_name()) || (spells(&chars, field.name_str()) && blocks.at(
            field.section_of(),
        )) {
            return Some(field);
        }
        assert forall|f: Field| f.index() < i + 1 implies !f.named(blocks@, key@) by {
            if f.index() == i {
                lemma_index_names_field(f, field);
            }
        }
        i = i + 1;
    }
    assert forall|f: Field| !f.named(blocks@, key@) by {
        assert(f.index() < FIELD_COUNT);
    }
    None
}

/// Two fields at one place are one field.
proof fn lemma_index_names_field(f: Field, g: Field)
    requires
        f.index() == g.index(),
    ensures
        f == g,
{
}

} // verus!
