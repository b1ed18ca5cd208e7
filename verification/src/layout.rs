//! The layout of the configuration text that the library writes: its rows,
//! from top to bottom.
//!
//! The monitor comes first, outside every block. Then each section follows
//! as a block, with an empty row between two sections; the blur settings
//! and the settings of the workspace overview stand in blocks of their own
//! inside `decoration` and `plugin`.
use crate::fields::Field;
use crate::sections::Section;
use vstd::prelude::*;

verus! {

/// How many rows the layout has.
pub const ROW_COUNT: usize = 90;

/// A row of the layout.
#[derive(Clone, Copy, Debug, PartialEq, Eq)]
pub enum Row {
    /// An empty row.
    Blank,
    /// The row that opens the block of a section.
    Open(Section),
    /// The row that closes the block of a section.
    Close(Section),
    /// The row that gives the value of a field under the field's name.
    Entry(Field),
}

/// The row at place `i` of the layout, counted from zero.
pub open spec fn layout_row(i: usize) -> Row {
    match i {
        0 => Row::Entry(Field::Monitor),
        1 => Row::Blank,
        2 => Row::Open(Section::Input),
        3 => Row::Entry(Field::KbLayout),
        4 => Row::Entry(Field::NumlockByDefault),
        5 => Row::Entry(Field::RepeatDelay),
        6 => Row::Entry(Field::RepeatRate),
        7 => Row::Entry(Field::NaturalScroll),
        8 => Row::Entry(Field::ScrollFactor),
        9 => Row::Entry(Field::FollowMouse),
        10 => Row::Close(Section::Input),
        11 => Row::Blank,
        12 => Row::Open(Section::Binds),
        13 => Row::Entry(Field::ScrollEventDelay),
        14 => Row::Close(Section::Binds),
        15 => Row::Blank,
        16 => Row::Open(Section::Gestures),
        17 => Row::Entry(Field::WorkspaceSwipe),
        18 => Row::Entry(Field::WorkspaceSwipeDistance),
        19 => Row::Entry(Field::WorkspaceSwipeFingers),
        20 => Row::Entry(Field::WorkspaceSwipeCancelRatio),
        21 => Row::Entry(Field::WorkspaceSwipeMinSpeedToForce),
        22 => Row::Entry(Field::WorkspaceSwipeDirectionLock),
        23 => Row::Entry(Field::WorkspaceSwipeDirectionLockThreshold),
        24 => Row::Entry(Field::WorkspaceSwipeCreateNew),
        25 => Row::Close(Section::Gestures),
        26 => Row::Blank,
        27 => Row::Open(Section::General),
        28 => Row::Entry(Field::GapsIn),
        29 => Row::Entry(Field::GapsOut),
        30 => Row::Entry(Field::GapsWorkspaces),
        31 => Row::Entry(Field::BorderSize),
        32 => Row::Entry(Field::ActiveBorderColor),
        33 => Row::Entry(Field::InactiveBorderColor),
        34 => Row::Entry(Field::ResizeOnBorder),
        35 => Row::Entry(Field::NoFocusFallback),
        36 => Row::Entry(Field::Layout),
        37 => Row::Entry(Field::AllowTearing),
        38 => Row::Close(Section::General),
        39 => Row::Blank,
        40 => Row::Open(Section::Dwindle),
        41 => Row::Entry(Field::PreserveSplit),
        42 => Row::Entry(Field::SmartSplit),
        43 => Row::Entry(Field::SmartResizing),
        44 => Row::Close(Section::Dwindle),
        45 => Row::Blank,
        46 => Row::Open(Section::Decoration),
        47 => Row::Entry(Field::Rounding),
        48 => Row::Open(Section::Blur),
        49 => Row::Entry(Field::BlurEnabled),
        50 => Row::Entry(Field::BlurXray),
        51 => Row::Entry(Field::BlurSpecial),
        52 => Row::Entry(Field::BlurSize),
        53 => Row::Entry(Field::BlurPasses),
        54 => Row::Entry(Field::BlurBrightness),
        55 => Row::Entry(Field::BlurNoise),
        56 => Row::Entry(Field::BlurContrast),
        57 => Row::Close(Section::Blur),
        58 => Row::Entry(Field::DimInactive),
        59 => Row::Entry(Field::DimStrength),
        60 => Row::Close(Section::Decoration),
        61 => Row::Blank,
        62 => Row::Open(Section::Animations),
        63 => Row::Entry(Field::AnimationEnabled),
        64 => Row::Close(Section::Animations),
        65 => Row::Blank,
        66 => Row::Open(Section::Misc),
        67 => Row::Entry(Field::Vfr),
        68 => Row::Entry(Field::Vrr),
        69 => Row::Entry(Field::AnimateManualResizes),
        70 => Row::Entry(Field::AnimateMouseWindowdragging),
        71 => Row::Entry(Field::EnableSwallow),
        72 => Row::Entry(Field::SwallowRegex),
        73 => Row::Entry(Field::DisableHyprlandLogo),
        74 => Row::Entry(Field::ForceDefaultWallpaper),
        75 => Row::Entry(Field::NewWindowTakesOverFullscreen),
        76 => Row::Entry(Field::AllowSessionLockRestore),
        77 => Row::Close(Section::Misc),
        78 => Row::Blank,
        79 => Row::Open(Section::Plugin),
        80 => Row::Open(Section::Hyprexpo),
        81 => Row::Entry(Field::PluginHyprexpoColumns),
        82 => Row::Entry(Field::PluginHyprexpoGapSize),
        83 => Row::Entry(Field::PluginHyprexpoBgCol),
        84 => Row::Entry(Field::PluginHyprexpoWorkspaceMethod),
        85 => Row::Entry(Field::PluginHyprexpoEnableGesture),
        86 => Row::Entry(Field::PluginHyprexpoGestureDistance),
        87 => Row::Entry(Field::PluginHyprexpoGesturePositive),
        88 => Row::Close(Section::Hyprexpo),
        89 => Row::Close(Section::Plugin),
        _ => Row::Blank,
    }
}

/// The section that the row at place `i` stands in: the one whose blocks
/// are open above that row.
pub open spec fn place(i: usize) -> Section {
    match i {
        3 => Section::Input,
        4 => Section::Input,
        5 => Section::Input,
        6 => Section::Input,
        7 => Section::Input,
        8 => Section::Input,
        9 => Section::Input,
        10 => Section::Input,
        13 => Section::Binds,
        14 => Section::Binds,
        17 => Section::Gestures,
        18 => Section::Gestures,
        19 => Section::Gestures,
        20 => Section::Gestures,
        21 => Section::Gestures,
        22 => Section::Gestures,
        23 => Section::Gestures,
        24 => Section::Gestures,
        25 => Section::Gestures,
        28 => Section::General,
        29 => Section::General,
        30 => Section::General,
        31 => Section::General,
        32 => Section::General,
        33 => Section::General,
        34 => Section::General,
        35 => Section::General,
        36 => Section::General,
        37 => Section::General,
        38 => Section::General,
        41 => Section::Dwindle,
        42 => Section::Dwindle,
        43 => Section::Dwindle,
        44 => Section::Dwindle,
        47 => Section::Decoration,
        48 => Section::Decoration,
        49 => Section::Blur,
        50 => Section::Blur,
        51 => Section::Blur,
        52 => Section::Blur,
        53 => Section::Blur,
        54 => Section::Blur,
        55 => Section::Blur,
        56 => Section::Blur,
        57 => Section::Blur,
        58 => Section::Decoration,
        59 => Section::Decoration,
        60 => Section::Decoration,
        63 => Section::Animations,
        64 => Section::Animations,
        67 => Section::Misc,
        68 => Section::Misc,
        69 => Section::Misc,
        70 => Section::Misc,
        71 => Section::Misc,
        72 => Section::Misc,
        73 => Section::Misc,
        74 => Section::Misc,
        75 => Section::Misc,
        76 => Section::Misc,
        77 => Section::Misc,
        80 => Section::Plugin,
        81 => Section::Hyprexpo,
        82 => Section::Hyprexpo,
        83 => Section::Hyprexpo,
        84 => Section::Hyprexpo,
        85 => Section::Hyprexpo,
        86 => Section::Hyprexpo,
        87 => Section::Hyprexpo,
        88 => Section::Hyprexpo,
        89 => Section::Plugin,
        _ => Section::Top,
    }
}

/// The place of the row of `field`.
pub open spec fn row_of(field: Field) -> usize {
    match field {
        Field::Monitor => 0,
        Field::KbLayout => 3,
        Field::NumlockByDefault => 4,
        Field::RepeatDelay => 5,
        Field::RepeatRate => 6,
        Field::NaturalScroll => 7,
        Field::ScrollFactor => 8,
        Field::FollowMouse => 9,
        Field::ScrollEventDelay => 13,
        Field::WorkspaceSwipe => 17,
        Field::WorkspaceSwipeDistance => 18,
        Field::WorkspaceSwipeFingers => 19,
        Field::WorkspaceSwipeCancelRatio => 20,
        Field::WorkspaceSwipeMinSpeedToForce => 21,
        Field::WorkspaceSwipeDirectionLock => 22,
        Field::WorkspaceSwipeDirectionLockThreshold => 23,
        Field::WorkspaceSwipeCreateNew => 24,
        Field::GapsIn => 28,
        Field::GapsOut => 29,
        Field::GapsWorkspaces => 30,
        Field::BorderSize => 31,
        Field::ActiveBorderColor => 32,
        Field::InactiveBorderColor => 33,
        Field::ResizeOnBorder => 34,
        Field::NoFocusFallback => 35,
        Field::Layout => 36,
        Field::AllowTearing => 37,
        Field::PreserveSplit => 41,
        Field::SmartSplit => 42,
        Field::SmartResizing => 43,
        Field::Rounding => 47,
        Field::BlurEnabled => 49,
        Field::BlurXray => 50,
        Field::BlurSpecial => 51,
        Field::BlurSize => 52,
        Field::BlurPasses => 53,
        Field::BlurBrightness => 54,
        Field::BlurNoise => 55,
        Field::BlurContrast => 56,
        Field::DimInactive => 58,
        Field::DimStrength => 59,
        Field::AnimationEnabled => 63,
        Field::Vfr => 67,
        Field::Vrr => 68,
        Field::AnimateManualResizes => 69,
        Field::AnimateMouseWindowdragging => 70,
        Field::EnableSwallow => 71,
        Field::SwallowRegex => 72,
        Field::DisableHyprlandLogo => 73,
        Field::ForceDefaultWallpaper => 74,
        Field::NewWindowTakesOverFullscreen => 75,
        Field::AllowSessionLockRestore => 76,
        Field::PluginHyprexpoColumns => 81,
        Field::PluginHyprexpoGapSize => 82,
        Field::PluginHyprexpoBgCol => 83,
        Field::PluginHyprexpoWorkspaceMethod => 84,
        Field::PluginHyprexpoEnableGesture => 85,
        Field::PluginHyprexpoGestureDistance => 86,
        Field::PluginHyprexpoGesturePositive => 87,
    }
}

/// The row at place `i` of the layout, counted from zero.
pub fn row_at(i: usize) -> (row: Row)
    requires
        i < ROW_COUNT,
    ensures
        row == layout_row(i),
{
    match i {
        0 => Row::Entry(Field::Monitor),
        1 => Row::Blank,
        2 => Row::Open(Section::Input),
        3 => Row::Entry(Field::KbLayout),
        4 => Row::Entry(Field::NumlockByDefault),
        5 => Row::Entry(Field::RepeatDelay),
        6 => Row::Entry(Field::RepeatRate),
        7 => Row::Entry(Field::NaturalScroll),
        8 => Row::Entry(Field::ScrollFactor),
        9 => Row::Entry(Field::FollowMouse),
        10 => Row::Close(Section::Input),
        11 => Row::Blank,
        12 => Row::Open(Section::Binds),
        13 => Row::Entry(Field::ScrollEventDelay),
        14 => Row::Close(Section::Binds),
        15 => Row::Blank,
        16 => Row::Open(Section::Gestures),
        17 => Row::Entry(Field::WorkspaceSwipe),
        18 => Row::Entry(Field::WorkspaceSwipeDistance),
        19 => Row::Entry(Field::WorkspaceSwipeFingers),
        20 => Row::Entry(Field::WorkspaceSwipeCancelRatio),
        21 => Row::Entry(Field::WorkspaceSwipeMinSpeedToForce),
        22 => Row::Entry(Field::WorkspaceSwipeDirectionLock),
        23 => Row::Entry(Field::WorkspaceSwipeDirectionLockThreshold),
        24 => Row::Entry(Field::WorkspaceSwipeCreateNew),
        25 => Row::Close(Section::Gestures),
        26 => Row::Blank,
        27 => Row::Open(Section::General),
        28 => Row::Entry(Field::GapsIn),
        29 => Row::Entry(Field::GapsOut),
        30 => Row::Entry(Field::GapsWorkspaces),
        31 => Row::Entry(Field::BorderSize),
        32 => Row::Entry(Field::ActiveBorderColor),
        33 => Row::Entry(Field::InactiveBorderColor),
        34 => Row::Entry(Field::ResizeOnBorder),
        35 => Row::Entry(Field::NoFocusFallback),
        36 => Row::Entry(Field::Layout),
        37 => Row::Entry(Field::AllowTearing),
        38 => Row::Close(Section::General),
        39 => Row::Blank,
        40 => Row::Open(Section::Dwindle),
        41 => Row::Entry(Field::PreserveSplit),
        42 => Row::Entry(Field::SmartSplit),
        43 => Row::Entry(Field::SmartResizing),
        44 => Row::Close(Section::Dwindle),
        45 => Row::Blank,
        46 => Row::Open(Section::Decoration),
        47 => Row::Entry(Field::Rounding),
        48 => Row::Open(Section::Blur),
        49 => Row::Entry(Field::BlurEnabled),
        50 => Row::Entry(Field::BlurXray),
        51 => Row::Entry(Field::BlurSpecial),
        52 => Row::Entry(Field::BlurSize),
        53 => Row::Entry(Field::BlurPasses),
        54 => Row::Entry(Field::BlurBrightness),
        55 => Row::Entry(Field::BlurNoise),
        56 => Row::Entry(Field::BlurContrast),
        57 => Row::Close(Section::Blur),
        58 => Row::Entry(Field::DimInactive),
        59 => Row::Entry(Field::DimStrength),
        60 => Row::Close(Section::Decoration),
        61 => Row::Blank,
        62 => Row::Open(Section::Animations),
        63 => Row::Entry(Field::AnimationEnabled),
        64 => Row::Close(Section::Animations),
        65 => Row::Blank,
        66 => Row::Open(Section::Misc),
        67 => Row::Entry(Field::Vfr),
        68 => Row::Entry(Field::Vrr),
        69 => Row::Entry(Field::AnimateManualResizes),
        70 => Row::Entry(Field::AnimateMouseWindowdragging),
        71 => Row::Entry(Field::EnableSwallow),
        72 => Row::Entry(Field::SwallowRegex),
        73 => Row::Entry(Field::DisableHyprlandLogo),
        74 => Row::Entry(Field::ForceDefaultWallpaper),
        75 => Row::Entry(Field::NewWindowTakesOverFullscreen),
        76 => Row::Entry(Field::AllowSessionLockRestore),
        77 => Row::Close(Section::Misc),
        78 => Row::Blank,
        79 => Row::Open(Section::Plugin),
        80 => Row::Open(Section::Hyprexpo),
        81 => Row::Entry(Field::PluginHyprexpoColumns),
        82 => Row::Entry(Field::PluginHyprexpoGapSize),
        83 => Row::Entry(Field::PluginHyprexpoBgCol),
        84 => Row::Entry(Field::PluginHyprexpoWorkspaceMethod),
        85 => Row::Entry(Field::PluginHyprexpoEnableGesture),
        86 => Row::Entry(Field::PluginHyprexpoGestureDistance),
        87 => Row::Entry(Field::PluginHyprexpoGesturePositive),
        88 => Row::Close(Section::Hyprexpo),
        89 => Row::Close(Section::Plugin),
        _ => Row::Blank,
    }
}

/// The layout is well nested: a block is opened in the section around it
/// and closed in its own, and a field stands in the blocks of its section.
pub proof fn lemma_layout(i: usize)
    requires
        i < ROW_COUNT,
    ensures
        match layout_row(i) {
            Row::Blank => place((i + 1) as usize) == place(i),
            Row::Open(s) => s != Section::Top && place(i) == s.parent() && place((i + 1) as usize)
                == s,
            Row::Close(s) => s != Section::Top && place(i) == s && place((i + 1) as usize)
                == s.parent(),
            Row::Entry(f) => place(i) == f.section() && place((i + 1) as usize) == place(i),
        },
        place(0) == Section::Top,
{
}

/// Every field has its row.
pub proof fn lemma_row_of(field: Field)
    ensures
        row_of(field) < ROW_COUNT,
        layout_row(row_of(field)) == Row::Entry(field),
{
}

} // verus!
