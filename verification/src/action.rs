//! The closed enumeration of shortcut actions and the exhaustive mapping
//! from an action to its human-readable description.
//!
//! Every variant maps to a non-empty fixed string; the variants carrying a
//! workspace index or a direction interpolate the parameter into a fixed
//! template, and the spawn variant's description is its command verbatim.

use vstd::prelude::*;
use vstd::string::StringExecFns;

verus! {

/// A direction on the screen.
#[derive(Clone, Copy, Debug, PartialEq, Eq, Structural)]
pub enum Direction {
    Down,
    Left,
    Right,
    Up,
}

/// A direction for moving window focus.
#[derive(Clone, Copy, Debug, PartialEq, Eq, Structural)]
pub enum FocusDirection {
    Down,
    In,
    Left,
    Out,
    Right,
    Up,
}

/// A tiling orientation.
#[derive(Clone, Copy, Debug, PartialEq, Eq, Structural)]
pub enum Orientation {
    Horizontal,
    Vertical,
}

/// A direction for resizing a window.
#[derive(Clone, Copy, Debug, PartialEq, Eq, Structural)]
pub enum ResizeDirection {
    Inwards,
    Outwards,
}

/// The closed sub-enumeration of system actions.
#[derive(Clone, Copy, Debug, PartialEq, Eq, Structural)]
pub enum SystemAction {
    AppLibrary,
    BrightnessDown,
    BrightnessUp,
    DisplayToggle,
    HomeFolder,
    InputSourceSwitch,
    KeyboardBrightnessDown,
    KeyboardBrightnessUp,
    Launcher,
    LockScreen,
    LogOut,
    Mute,
    MuteMic,
    PlayNext,
    PlayPause,
    PlayPrev,
    PowerOff,
    ScreenReader,
    Screenshot,
    Suspend,
    Terminal,
    TouchpadToggle,
    VolumeLower,
    VolumeRaise,
    WebBrowser,
    WindowSwitcher,
    WindowSwitcherPrevious,
    WorkspaceOverview,
}

/// The semantic operation a binding triggers.
#[derive(Clone, Debug)]
pub enum Action {
    Close,
    Debug,
    /// A binding the user explicitly unbound; it must never surface.
    Disable,
    Focus(FocusDirection),
    Fullscreen,
    LastWorkspace,
    Maximize,
    MigrateWorkspaceToNextOutput,
    MigrateWorkspaceToOutput(Direction),
    MigrateWorkspaceToPreviousOutput,
    Minimize,
    Move(Direction),
    MoveToLastWorkspace,
    MoveToNextOutput,
    MoveToNextWorkspace,
    MoveToOutput(Direction),
    MoveToPreviousOutput,
    MoveToPreviousWorkspace,
    MoveToWorkspace(u8),
    NextOutput,
    NextWorkspace,
    Orientation(Orientation),
    PreviousOutput,
    PreviousWorkspace,
    Resizing(ResizeDirection),
    SendToLastWorkspace,
    SendToNextOutput,
    SendToNextWorkspace,
    SendToOutput(Direction),
    SendToPreviousOutput,
    SendToPreviousWorkspace,
    SendToWorkspace(u8),
    /// Run an arbitrary command.
    Spawn(String),
    SwapWindow,
    SwitchOutput(Direction),
    System(SystemAction),
    Terminate,
    ToggleOrientation,
    ToggleStacking,
    ToggleSticky,
    ToggleTiling,
    ToggleWindowFloating,
    Workspace(u8),
    ZoomIn,
    ZoomOut,
}

/// The character of a decimal digit.
pub open spec fn digit_seq(n: nat) -> Seq<char> {
    if n == 0 {
        "0"@
    } else if n == 1 {
        "1"@
    } else if n == 2 {
        "2"@
    } else if n == 3 {
        "3"@
    } else if n == 4 {
        "4"@
    } else if n == 5 {
        "5"@
    } else if n == 6 {
        "6"@
    } else if n == 7 {
        "7"@
    } else if n == 8 {
        "8"@
    } else {
        "9"@
    }
}

/// The decimal rendering of a number, most significant digit first, with no
/// leading zero except for zero itself.
pub open spec fn dec_seq(n: nat) -> Seq<char>
    decreases n,
{
    if n < 10 {
        digit_seq(n)
    } else {
        dec_seq(n / 10) + digit_seq(n % 10)
    }
}

/// One decimal digit as a string slice.
fn digit_str(n: u8) -> (r: &'static str)
    requires
        n < 10,
    ensures
        r@ == digit_seq(n as nat),
{
    if n == 0 {
        "0"
    } else if n == 1 {
        "1"
    } else if n == 2 {
        "2"
    } else if n == 3 {
        "3"
    } else if n == 4 {
        "4"
    } else if n == 5 {
        "5"
    } else if n == 6 {
        "6"
    } else if n == 7 {
        "7"
    } else if n == 8 {
        "8"
    } else {
        "9"
    }
}

/// Appends the decimal rendering of `n`.
fn push_dec(s: &mut String, n: u8)
    ensures
        final(s)@ == old(s)@ + dec_seq(n as nat),
    decreases n,
{
    if n < 10 {
        s.append(digit_str(n));
    } else {
        assert(n / 10 < n && n / 10 >= 1) by (nonlinear_arith)
            requires
                n >= 10,
        ;
        push_dec(s, n / 10);
        s.append(digit_str(n % 10));
    }
}

/// A fixed template with the workspace index interpolated.
fn indexed_label(prefix: &str, i: u8) -> (r: String)
    ensures
        r@ == prefix@ + dec_seq(i as nat),
{
    let mut s = prefix.to_owned();
    push_dec(&mut s, i);
    s
}

/// The description of a system action.
pub open spec fn system_label(s: SystemAction) -> Seq<char> {
    match s {
        SystemAction::AppLibrary => "Open the app library"@,
        SystemAction::BrightnessDown => "Decrease display brightness"@,
        SystemAction::BrightnessUp => "Increase display brightness"@,
        SystemAction::DisplayToggle => "Toggle internal display"@,
        SystemAction::HomeFolder => "Open home folder"@,
        SystemAction::InputSourceSwitch => "Switch input source"@,
        SystemAction::KeyboardBrightnessDown => "Decrease keyboard brightness"@,
        SystemAction::KeyboardBrightnessUp => "Increase keyboard brightness"@,
        SystemAction::Launcher => "Open the Launcher"@,
        SystemAction::LockScreen => "Lock the screen"@,
        SystemAction::LogOut => "Log Out"@,
        SystemAction::Mute => "Mute audio output"@,
        SystemAction::MuteMic => "Mutes microphone input"@,
        SystemAction::PlayNext => "Next track"@,
        SystemAction::PlayPause => "Play/pause"@,
        SystemAction::PlayPrev => "Previous track"@,
        SystemAction::PowerOff => "Power off"@,
        SystemAction::ScreenReader => "Toggle screen reader"@,
        SystemAction::Screenshot => "Take a screenshot"@,
        SystemAction::Suspend => "Suspend"@,
        SystemAction::Terminal => "Open a terminal"@,
        SystemAction::TouchpadToggle => "Toggle touchpad"@,
        SystemAction::VolumeLower => "Decrease audio output volume"@,
        SystemAction::VolumeRaise => "Increase audio output volume"@,
        SystemAction::WebBrowser => "Open a web browser"@,
        SystemAction::WindowSwitcher => "Switch between open windows"@,
        SystemAction::WindowSwitcherPrevious => "Switch between open windows reversed"@,
        SystemAction::WorkspaceOverview => "Open the workspace overview"@,
    }
}

/// The description of an action: a fixed string per variant, a template for
/// the indexed and directional variants, and the spawn command verbatim.
pub open spec fn action_label(a: Action) -> Seq<char> {
    match a {
        Action::Close => "Close window"@,
        Action::Debug => "Debug"@,
        Action::Disable => "Disable"@,
        Action::Focus(FocusDirection::Down) => "Focus down"@,
        Action::Focus(FocusDirection::In) => "Focus in"@,
        Action::Focus(FocusDirection::Left) => "Focus left"@,
        Action::Focus(FocusDirection::Out) => "Focus out"@,
        Action::Focus(FocusDirection::Right) => "Focus right"@,
        Action::Focus(FocusDirection::Up) => "Focus up"@,
        Action::Fullscreen => "Fullscreen window"@,
        Action::LastWorkspace => "Last workspace"@,
        Action::Maximize => "Maximize window"@,
        Action::MigrateWorkspaceToNextOutput => "Migrate workspace to next output"@,
        Action::MigrateWorkspaceToOutput(Direction::Down) => "Migrate workspace down"@,
        Action::MigrateWorkspaceToOutput(Direction::Left) => "Migrate workspace left"@,
        Action::MigrateWorkspaceToOutput(Direction::Right) => "Migrate workspace right"@,
        Action::MigrateWorkspaceToOutput(Direction::Up) => "Migrate workspace up"@,
        Action::MigrateWorkspaceToPreviousOutput => "Migrate workspace to previous output"@,
        Action::Minimize => "Minimize window"@,
        Action::Move(Direction::Down) => "Move window down"@,
        Action::Move(Direction::Left) => "Move window left"@,
        Action::Move(Direction::Right) => "Move window right"@,
        Action::Move(Direction::Up) => "Move window up"@,
        Action::MoveToLastWorkspace => "Move window to last workspace"@,
        Action::MoveToNextOutput => "Move window to next display"@,
        Action::MoveToNextWorkspace => "Move window to next workspace"@,
        Action::MoveToOutput(Direction::Down) => "Move window one monitor down"@,
        Action::MoveToOutput(Direction::Left) => "Move window one monitor left"@,
        Action::MoveToOutput(Direction::Right) => "Move window one monitor right"@,
        Action::MoveToOutput(Direction::Up) => "Move window one monitor up"@,
        Action::MoveToPreviousOutput => "Move window to prev display"@,
        Action::MoveToPreviousWorkspace => "Move window to prev wrkspace"@,
        Action::MoveToWorkspace(i) => "Move window to workspace "@ + dec_seq(i as nat),
        Action::NextOutput => "Focus next output"@,
        Action::NextWorkspace => "Focus next workspace"@,
        Action::Orientation(Orientation::Horizontal) => "Set horizontal orientation"@,
        Action::Orientation(Orientation::Vertical) => "Set vertical orientation"@,
        Action::PreviousOutput => "Focus previous output"@,
        Action::PreviousWorkspace => "Focus previous workspace"@,
        Action::Resizing(ResizeDirection::Inwards) => "Resize window inwards"@,
        Action::Resizing(ResizeDirection::Outwards) => "Resize window outwards"@,
        Action::SendToLastWorkspace => "Move window to last workspace"@,
        Action::SendToNextOutput => "Move window to next display"@,
        Action::SendToNextWorkspace => "Move window to next workspace"@,
        Action::SendToOutput(Direction::Down) => "Move window one monitor down"@,
        Action::SendToOutput(Direction::Left) => "Move window one monitor left"@,
        Action::SendToOutput(Direction::Right) => "Move window one monitor right"@,
        Action::SendToOutput(Direction::Up) => "Move window one monitor up"@,
        Action::SendToPreviousOutput => "Move window to prev display"@,
        Action::SendToPreviousWorkspace => "Move window to prev wrkspace"@,
        Action::SendToWorkspace(i) => "Move window to workspace "@ + dec_seq(i as nat),
        Action::Spawn(task) => task@,
        Action::SwapWindow => "Swap window"@,
        Action::SwitchOutput(Direction::Down) => "Switch to output down"@,
        Action::SwitchOutput(Direction::Left) => "Switch to output left"@,
        Action::SwitchOutput(Direction::Right) => "Switch to output right"@,
        Action::SwitchOutput(Direction::Up) => "Switch to output up"@,
        Action::System(s) => system_label(s),
        Action::Terminate => "Terminate"@,
        Action::ToggleOrientation => "Toggle orientation"@,
        Action::ToggleStacking => "Toggle window stacking"@,
        Action::ToggleSticky => "Toggle sticky window"@,
        Action::ToggleTiling => "Toggle window tiling"@,
        Action::ToggleWindowFloating => "Toggle window floating"@,
        Action::Workspace(i) => "Workspace "@ + dec_seq(i as nat),
        Action::ZoomIn => "Zoom in"@,
        Action::ZoomOut => "Zoom out"@,
    }
}

/// Renders the description of a system action.
fn localize_system(s: &SystemAction) -> (r: String)
    ensures
        r@ == system_label(*s),
{
    match s {
        SystemAction::AppLibrary => "Open the app library".to_owned(),
        SystemAction::BrightnessDown => "Decrease display brightness".to_owned(),
        SystemAction::BrightnessUp => "Increase display brightness".to_owned(),
        SystemAction::DisplayToggle => "Toggle internal display".to_owned(),
        SystemAction::HomeFolder => "Open home folder".to_owned(),
        SystemAction::InputSourceSwitch => "Switch input source".to_owned(),
        SystemAction::KeyboardBrightnessDown => "Decrease keyboard brightness".to_owned(),
        SystemAction::KeyboardBrightnessUp => "Increase keyboard brightness".to_owned(),
        SystemAction::Launcher => "Open the Launcher".to_owned(),
        SystemAction::LockScreen => "Lock the screen".to_owned(),
        SystemAction::LogOut => "Log Out".to_owned(),
        SystemAction::Mute => "Mute audio output".to_owned(),
        SystemAction::MuteMic => "Mutes microphone input".to_owned(),
        SystemAction::PlayNext => "Next track".to_owned(),
        SystemAction::PlayPause => "Play/pause".to_owned(),
        SystemAction::PlayPrev => "Previous track".to_owned(),
        SystemAction::PowerOff => "Power off".to_owned(),
        SystemAction::ScreenReader => "Toggle screen reader".to_owned(),
        SystemAction::Screenshot => "Take a screenshot".to_owned(),
        SystemAction::Suspend => "Suspend".to_owned(),
        SystemAction::Terminal => "Open a terminal".to_owned(),
        SystemAction::TouchpadToggle => "Toggle touchpad".to_owned(),
        SystemAction::VolumeLower => "Decrease audio output volume".to_owned(),
        SystemAction::VolumeRaise => "Increase audio output volume".to_owned(),
        SystemAction::WebBrowser => "Open a web browser".to_owned(),
        SystemAction::WindowSwitcher => "Switch between open windows".to_owned(),
        SystemAction::WindowSwitcherPrevious => "Switch between open windows reversed".to_owned(),
        SystemAction::WorkspaceOverview => "Open the workspace overview".to_owned(),
    }
}

/// Renders the human-readable description of an action. Total: every
/// variant of the closed enumeration yields its label.
pub fn localize_action(action: &Action) -> (r: String)
    ensures
        r@ == action_label(*action),
{
    match action {
        Action::Close => "Close window".to_owned(),
        Action::Debug => "Debug".to_owned(),
        Action::Disable => "Disable".to_owned(),
        Action::Focus(FocusDirection::Down) => "Focus down".to_owned(),
        Action::Focus(FocusDirection::In) => "Focus in".to_owned(),
        Action::Focus(FocusDirection::Left) => "Focus left".to_owned(),
        Action::Focus(FocusDirection::Out) => "Focus out".to_owned(),
        Action::Focus(FocusDirection::Right) => "Focus right".to_owned(),
        Action::Focus(FocusDirection::Up) => "Focus up".to_owned(),
        Action::Fullscreen => "Fullscreen window".to_owned(),
        Action::LastWorkspace => "Last workspace".to_owned(),
        Action::Maximize => "Maximize window".to_owned(),
        Action::MigrateWorkspaceToNextOutput => "Migrate workspace to next output".to_owned(),
        Action::MigrateWorkspaceToOutput(Direction::Down) => "Migrate workspace down".to_owned(),
        Action::MigrateWorkspaceToOutput(Direction::Left) => "Migrate workspace left".to_owned(),
        Action::MigrateWorkspaceToOutput(Direction::Right) => "Migrate workspace right".to_owned(),
        Action::MigrateWorkspaceToOutput(Direction::Up) => "Migrate workspace up".to_owned(),
        Action::MigrateWorkspaceToPreviousOutput => "Migrate workspace to previous output".to_owned(),
        Action::Minimize => "Minimize window".to_owned(),
        Action::Move(Direction::Down) => "Move window down".to_owned(),
        Action::Move(Direction::Left) => "Move window left".to_owned(),
        Action::Move(Direction::Right) => "Move window right".to_owned(),
        Action::Move(Direction::Up) => "Move window up".to_owned(),
        Action::MoveToLastWorkspace => "Move window to last workspace".to_owned(),
        Action::MoveToNextOutput => "Move window to next display".to_owned(),
        Action::MoveToNextWorkspace => "Move window to next workspace".to_owned(),
        Action::MoveToOutput(Direction::Down) => "Move window one monitor down".to_owned(),
        Action::MoveToOutput(Direction::Left) => "Move window one monitor left".to_owned(),
        Action::MoveToOutput(Direction::Right) => "Move window one monitor right".to_owned(),
        Action::MoveToOutput(Direction::Up) => "Move window one monitor up".to_owned(),
        Action::MoveToPreviousOutput => "Move window to prev display".to_owned(),
        Action::MoveToPreviousWorkspace => "Move window to prev wrkspace".to_owned(),
        Action::MoveToWorkspace(i) => indexed_label("Move window to workspace ", *i),
        Action::NextOutput => "Focus next output".to_owned(),
        Action::NextWorkspace => "Focus next workspace".to_owned(),
        Action::Orientation(Orientation::Horizontal) => "Set horizontal orientation".to_owned(),
        Action::Orientation(Orientation::Vertical) => "Set vertical orientation".to_owned(),
        Action::PreviousOutput => "Focus previous output".to_owned(),
        Action::PreviousWorkspace => "Focus previous workspace".to_owned(),
        Action::Resizing(ResizeDirection::Inwards) => "Resize window inwards".to_owned(),
        Action::Resizing(ResizeDirection::Outwards) => "Resize window outwards".to_owned(),
        Action::SendToLastWorkspace => "Move window to last workspace".to_owned(),
        Action::SendToNextOutput => "Move window to next display".to_owned(),
        Action::SendToNextWorkspace => "Move window to next workspace".to_owned(),
        Action::SendToOutput(Direction::Down) => "Move window one monitor down".to_owned(),
        Action::SendToOutput(Direction::Left) => "Move window one monitor left".to_owned(),
        Action::SendToOutput(Direction::Right) => "Move window one monitor right".to_owned(),
        Action::SendToOutput(Direction::Up) => "Move window one monitor up".to_owned(),
        Action::SendToPreviousOutput => "Move window to prev display".to_owned(),
        Action::SendToPreviousWorkspace => "Move window to prev wrkspace".to_owned(),
        Action::SendToWorkspace(i) => indexed_label("Move window to workspace ", *i),
        Action::Spawn(task) => task.clone(),
        Action::SwapWindow => "Swap window".to_owned(),
        Action::SwitchOutput(Direction::Down) => "Switch to output down".to_owned(),
        Action::SwitchOutput(Direction::Left) => "Switch to output left".to_owned(),
        Action::SwitchOutput(Direction::Right) => "Switch to output right".to_owned(),
        Action::SwitchOutput(Direction::Up) => "Switch to output up".to_owned(),
        Action::System(s) => localize_system(s),
        Action::Terminate => "Terminate".to_owned(),
        Action::ToggleOrientation => "Toggle orientation".to_owned(),
        Action::ToggleStacking => "Toggle window stacking".to_owned(),
        Action::ToggleSticky => "Toggle sticky window".to_owned(),
        Action::ToggleTiling => "Toggle window tiling".to_owned(),
        Action::ToggleWindowFloating => "Toggle window floating".to_owned(),
        Action::Workspace(i) => indexed_label("Workspace ", *i),
        Action::ZoomIn => "Zoom in".to_owned(),
        Action::ZoomOut => "Zoom out".to_owned(),
    }
}

} // verus!
