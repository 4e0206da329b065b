//! Decisions of the live viewer: which sensor output it shows, whether the
//! keyboard steers its camera, and what a key event asks of the window loop.
//! The window loop itself, and the camera motion, are the caller's.
use vstd::prelude::*;

verus! {

/// The sensor output the viewer shows.
#[derive(Debug, Clone, Copy, PartialEq, Eq, Structural)]
pub enum ViewMode {
    Rgb,
    Depth,
    Segmentation,
}

/// Name of a view mode on the command line and in reports.
pub open spec fn view_mode_name(mode: ViewMode) -> Seq<char> {
    match mode {
        ViewMode::Rgb => "rgb"@,
        ViewMode::Depth => "depth"@,
        ViewMode::Segmentation => "segmentation"@,
    }
}

impl ViewMode {
    pub fn as_str(self) -> (name: &'static str)
        ensures
            name@ == view_mode_name(self),
    {
        match self {
            ViewMode::Rgb => "rgb",
            ViewMode::Depth => "depth",
            ViewMode::Segmentation => "segmentation",
        }
    }
}

/// How the viewer places its camera: where the user steers it, or on an
/// orbit that follows the frame number.
#[derive(Debug, Clone, Copy, PartialEq, Eq, Structural)]
pub enum CameraMode {
    Static,
    Orbit,
}

/// Name of a camera mode on the command line and in reports.
pub open spec fn camera_mode_name(mode: CameraMode) -> Seq<char> {
    match mode {
        CameraMode::Static => "static"@,
        CameraMode::Orbit => "orbit"@,
    }
}

impl CameraMode {
    pub fn as_str(self) -> (name: &'static str)
        ensures
            name@ == camera_mode_name(self),
    {
        match self {
            CameraMode::Static => "static",
            CameraMode::Orbit => "orbit",
        }
    }

    /// Whether held movement and look keys move the camera: they do for a
    /// static camera, and an orbiting one ignores them.
    pub fn is_steerable(self) -> (steerable: bool)
        ensures
            steerable == (self == CameraMode::Static),
    {
        match self {
            CameraMode::Static => true,
            CameraMode::Orbit => false,
        }
    }
}

/// The keys whose press the viewer answers at once. Movement and look keys
/// are only tracked while held, so they are `Other` here.
#[derive(Debug, Clone, Copy, PartialEq, Eq, Structural)]
pub enum ViewerKey {
    Escape,
    Digit1,
    Digit2,
    Digit3,
    R,
    Other,
}

/// What the window loop does after a key event.
#[derive(Debug, Clone, Copy, PartialEq, Eq, Structural)]
pub enum ViewerAction {
    Continue,
    Exit,
    ResetCamera,
}

/// The view mode and action after `key` is pressed in `mode`: Escape
/// quits, 1, 2 and 3 select RGB, depth and segmentation, R puts the camera
/// back where it started, and any other key changes nothing.
pub open spec fn key_press(mode: ViewMode, key: ViewerKey) -> (ViewMode, ViewerAction) {
    match key {
        ViewerKey::Escape => (mode, ViewerAction::Exit),
        ViewerKey::Digit1 => (ViewMode::Rgb, ViewerAction::Continue),
        ViewerKey::Digit2 => (ViewMode::Depth, ViewerAction::Continue),
        ViewerKey::Digit3 => (ViewMode::Segmentation, ViewerAction::Continue),
        ViewerKey::R => (mode, ViewerAction::ResetCamera),
        ViewerKey::Other => (mode, ViewerAction::Continue),
    }
}

/// The view mode and action after `key` is pressed (`pressed`) or released
/// while the viewer shows `mode`. A release changes nothing.
pub fn handle_key(mode: ViewMode, key: ViewerKey, pressed: bool) -> (next: (ViewMode, ViewerAction))
    ensures
        pressed ==> next == key_press(mode, key),
        !pressed ==> next == (mode, ViewerAction::Continue),
{
    if !pressed {
        return (mode, ViewerAction::Continue);
    }
    match key {
        ViewerKey::Escape => (mode, ViewerAction::Exit),
        ViewerKey::Digit1 => (ViewMode::Rgb, ViewerAction::Continue),
        ViewerKey::Digit2 => (ViewMode::Depth, ViewerAction::Continue),
        ViewerKey::Digit3 => (ViewMode::Segmentation, ViewerAction::Continue),
        ViewerKey::R => (mode, ViewerAction::ResetCamera),
        ViewerKey::Other => (mode, ViewerAction::Continue),
    }
}

/// What a key press does, stated per kind of key: only 1, 2 and 3 change the
/// view mode, and each selects its own mode (RGB, depth, segmentation)
/// whatever was shown; Escape only quits; R only resets the camera; every
/// other key leaves the mode as it is and does nothing.
pub proof fn lemma_key_press_effects(mode: ViewMode, key: ViewerKey)
    ensures
        key_press(mode, key).0 != mode ==> (key == ViewerKey::Digit1 || key == ViewerKey::Digit2
            || key == ViewerKey::Digit3),
        key == ViewerKey::Digit1 ==> key_press(mode, key).0 == ViewMode::Rgb,
        key == ViewerKey::Digit2 ==> key_press(mode, key).0 == ViewMode::Depth,
        key == ViewerKey::Digit3 ==> key_press(mode, key).0 == ViewMode::Segmentation,
        key_press(mode, ViewerKey::Other) == (mode, ViewerAction::Continue),
        key_press(mode, ViewerKey::Escape) == (mode, ViewerAction::Exit),
        key_press(mode, ViewerKey::R) == (mode, ViewerAction::ResetCamera),
        (key_press(mode, key).1 == ViewerAction::ResetCamera) <==> key == ViewerKey::R,
{
}

/// A mode key selects its mode whatever was shown before, so pressing it
/// again changes nothing; no key but Escape ends the viewer.
pub proof fn lemma_mode_keys_settle(mode: ViewMode, key: ViewerKey)
    ensures
        key_press(key_press(mode, key).0, key) == key_press(mode, key),
        (key_press(mode, key).1 == ViewerAction::Exit) <==> key == ViewerKey::Escape,
{
}

} // verus!
