use vstd::prelude::*;
use crate::math::{Position, Size, Vector};

verus! {

/// A platform key or button notification: the edge that was observed.
#[derive(Debug, Clone, Copy, PartialEq, Eq, Structural, Hash)]
pub enum KeyAction {
    Down,
    Up,
}

/// Per-code input state. `Down` and `Up` are one-frame edges; `Hold` is the
/// level between a Down and its matching Up; `Idle` is the default for a
/// code that was never seen or whose edges have been collapsed away.
#[derive(Debug, Clone, Copy, PartialEq, Eq, Structural, Hash)]
pub enum KeyState {
    Idle,
    Down,
    Hold,
    Up,
}

/// Phase of a touch notification with a stable identifier.
#[derive(Debug, Clone, Copy, PartialEq, Eq, Structural, Hash)]
pub enum TouchPhase {
    Start,
    Move,
    End,
    Cancel,
}

/// The keyboard modifier flags, replaced wholesale on each platform
/// modifier-change notification.
#[derive(Debug, Clone, Copy, PartialEq, Eq, Structural, Hash)]
pub struct ModifiersState {
    pub shift: bool,
    pub ctrl: bool,
    pub alt: bool,
    pub logo: bool,
}

impl ModifiersState {
    pub fn new(shift: bool, ctrl: bool, alt: bool, logo: bool) -> (r: Self)
        ensures
            r == (ModifiersState { shift, ctrl, alt, logo }),
    {
        Self { shift, ctrl, alt, logo }
    }

    pub fn empty() -> (r: Self)
        ensures
            r == (ModifiersState { shift: false, ctrl: false, alt: false, logo: false }),
    {
        Self { shift: false, ctrl: false, alt: false, logo: false }
    }
}

/// A key code, as a plain value. The platform layer maps its own key
/// identifiers into this space.
pub type KeyCode = u64;

/// A mouse button, as delivered by the platform layer.
#[derive(Debug, Clone, Copy, PartialEq, Eq, Structural, Hash)]
pub enum MouseButton {
    Left,
    Right,
    Middle,
    Other(u16),
}

impl MouseButton {
    /// A distinct tracker code for each button.
    pub open spec fn spec_code(&self) -> u64 {
        match self {
            MouseButton::Left => 0,
            MouseButton::Right => 1,
            MouseButton::Middle => 2,
            MouseButton::Other(n) => (3 + (*n as int)) as u64,
        }
    }

    pub fn code(&self) -> (r: u64)
        ensures
            r == self.spec_code(),
    {
        match self {
            MouseButton::Left => 0,
            MouseButton::Right => 1,
            MouseButton::Middle => 2,
            MouseButton::Other(n) => 3 + (*n as u64),
        }
    }
}

/// A gamepad device identifier, as a plain value.
pub type GamepadId = u64;

/// A gamepad button, mirroring the common dual-stick layout.
#[derive(Debug, Clone, Copy, PartialEq, Eq, Structural, Hash)]
pub enum GamepadButton {
    South,
    East,
    North,
    West,
    C,
    Z,
    LeftTrigger,
    LeftTrigger2,
    RightTrigger,
    RightTrigger2,
    Select,
    Start,
    Mode,
    LeftThumb,
    RightThumb,
    DPadUp,
    DPadDown,
    DPadLeft,
    DPadRight,
    Unknown,
}

impl GamepadButton {
    /// A distinct tracker code for each button.
    pub open spec fn spec_code(&self) -> u64 {
        match self {
            GamepadButton::South => 0,
            GamepadButton::East => 1,
            GamepadButton::North => 2,
            GamepadButton::West => 3,
            GamepadButton::C => 4,
            GamepadButton::Z => 5,
            GamepadButton::LeftTrigger => 6,
            GamepadButton::LeftTrigger2 => 7,
            GamepadButton::RightTrigger => 8,
            GamepadButton::RightTrigger2 => 9,
            GamepadButton::Select => 10,
            GamepadButton::Start => 11,
            GamepadButton::Mode => 12,
            GamepadButton::LeftThumb => 13,
            GamepadButton::RightThumb => 14,
            GamepadButton::DPadUp => 15,
            GamepadButton::DPadDown => 16,
            GamepadButton::DPadLeft => 17,
            GamepadButton::DPadRight => 18,
            GamepadButton::Unknown => 19,
        }
    }

    pub fn code(&self) -> (r: u64)
        ensures
            r == self.spec_code(),
            r < 32,
    {
        match self {
            GamepadButton::South => 0,
            GamepadButton::East => 1,
            GamepadButton::North => 2,
            GamepadButton::West => 3,
            GamepadButton::C => 4,
            GamepadButton::Z => 5,
            GamepadButton::LeftTrigger => 6,
            GamepadButton::LeftTrigger2 => 7,
            GamepadButton::RightTrigger => 8,
            GamepadButton::RightTrigger2 => 9,
            GamepadButton::Select => 10,
            GamepadButton::Start => 11,
            GamepadButton::Mode => 12,
            GamepadButton::LeftThumb => 13,
            GamepadButton::RightThumb => 14,
            GamepadButton::DPadUp => 15,
            GamepadButton::DPadDown => 16,
            GamepadButton::DPadLeft => 17,
            GamepadButton::DPadRight => 18,
            GamepadButton::Unknown => 19,
        }
    }
}

/// A gamepad analog axis.
#[derive(Debug, Clone, Copy, PartialEq, Eq, Structural, Hash)]
pub enum GamepadAxis {
    LeftStickX,
    LeftStickY,
    LeftZ,
    RightStickX,
    RightStickY,
    RightZ,
    DPadX,
    DPadY,
    Unknown,
}

impl GamepadAxis {
    /// A distinct tracker code for each axis.
    pub open spec fn spec_code(&self) -> u64 {
        match self {
            GamepadAxis::LeftStickX => 0,
            GamepadAxis::LeftStickY => 1,
            GamepadAxis::LeftZ => 2,
            GamepadAxis::RightStickX => 3,
            GamepadAxis::RightStickY => 4,
            GamepadAxis::RightZ => 5,
            GamepadAxis::DPadX => 6,
            GamepadAxis::DPadY => 7,
            GamepadAxis::Unknown => 8,
        }
    }

    pub fn code(&self) -> (r: u64)
        ensures
            r == self.spec_code(),
            r < 16,
    {
        match self {
            GamepadAxis::LeftStickX => 0,
            GamepadAxis::LeftStickY => 1,
            GamepadAxis::LeftZ => 2,
            GamepadAxis::RightStickX => 3,
            GamepadAxis::RightStickY => 4,
            GamepadAxis::RightZ => 5,
            GamepadAxis::DPadX => 6,
            GamepadAxis::DPadY => 7,
            GamepadAxis::Unknown => 8,
        }
    }
}

/// An already-narrowed platform notification, as the run loop hands it to
/// the subsystems and to the application's event callback. Analog values
/// (wheel deltas, pressures, axis positions) are carried in thousandths.
#[derive(Debug, Clone, Copy, PartialEq, Eq, Structural)]
pub enum Event {
    WindowClose,
    WindowResize(Size),
    WindowMove(Position),
    WindowFocusChange(bool),
    ReceiveChar(char),
    KeyboardInput { key: KeyCode, action: KeyAction, repeated: bool },
    ModifiersChange(ModifiersState),
    MouseMove(Position),
    MouseEnterWindow,
    MouseLeaveWindow,
    MouseWheelScroll(Vector),
    MouseInput { button: MouseButton, action: KeyAction },
    Touch { id: u64, phase: TouchPhase, position: Position },
    TouchpadScroll { delta: Vector, phase: TouchPhase },
    TouchpadPress { pressure: i64, click_stage: i64 },
    AppSuspend,
    AppResume,
    GamepadConnect(GamepadId),
    GamepadDisconnect(GamepadId),
    GamepadButtonInput { id: GamepadId, button: GamepadButton, action: KeyAction },
    GamepadButtonChange { id: GamepadId, button: GamepadButton, value: i64 },
    GamepadAxisChange { id: GamepadId, axis: GamepadAxis, value: i64 },
}

} // verus!
