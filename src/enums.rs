use vstd::prelude::*;

use crate::choice::Choice;

verus! {

/// The page the application shows.
#[derive(Debug, Clone, Copy, PartialEq, Eq, Structural)]
pub enum PagesState {
    Home,
    Settings,
    Modify,
}

/// Whether a capture session is in flight.
#[derive(Debug, Clone, Copy, PartialEq, Eq, Structural)]
pub enum SubscriptionState {
    Screenshotting,
    Idle,
}

/// A request from the editing toolbar: a mode toggle, a new pending text,
/// a new colour slider value, "clear" or "save changes".
#[derive(Debug, Clone, PartialEq, Eq)]
pub enum Draw {
    FreeHand,
    Circle,
    Text,
    Arrow,
    Nothing,
    Crop,
    TextInput(String),
    SaveModifyChanges,
    ClearButton,
    ColorSlider(u8),
}

/// A change on the settings page.
#[derive(Debug, Clone, Copy, PartialEq, Eq)]
pub enum Setting {
    Monitor(Choice),
    Format(Choice),
    Autosave(bool),
    Clipboard(bool),
    Shortcut(bool),
    Path,
    Timer(i32),
}

/// The phase of the crop interaction: `CropStatus` while a rectangle may be
/// dragged, `CropConfirm` while a proposed rectangle awaits commit or clear.
#[derive(Debug, Clone, Copy, PartialEq, Eq, Structural)]
pub enum CropMode {
    CropStatus,
    CropConfirm,
}

} // verus!
