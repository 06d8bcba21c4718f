pub mod assoc;
pub mod audio;
pub mod buffer;
pub mod engine;
pub mod error;
pub mod event;
pub mod filesystem;
pub mod fullscreen;
pub mod gamepad;
pub mod graphics;
pub mod keyboard;
pub mod math;
pub mod mouse;
pub mod params;
pub mod timer;
pub mod touch;
pub mod touchpad;
pub mod tracker;
pub mod vertex;
pub mod window;

pub use crate::audio::{Audio, AudioConfig};
pub use crate::buffer::{BufferTarget, BufferUsage};
pub use crate::engine::{Engine, EngineBuilder, EngineState};
pub use crate::error::{GameError, GameResult};
pub use crate::event::{Event, KeyAction, KeyCode, KeyState, ModifiersState, MouseButton, TouchPhase};
pub use crate::filesystem::{Filesystem, FilesystemConfig};
pub use crate::fullscreen::FullscreenMode;
pub use crate::gamepad::{Gamepad, GamepadConfig};
pub use crate::graphics::{BatchKey, GpuCommand, Graphics, GraphicsConfig, ViewportTarget};
pub use crate::keyboard::{Keyboard, KeyboardConfig};
pub use crate::math::{Position, Region, Size, Transform, Vector};
pub use crate::mouse::{Mouse, MouseConfig};
pub use crate::params::{
    GlyphQuad, SpriteDrawParams, TextDrawParams, TextHorizontalGravity, TextVerticalGravity,
};
pub use crate::timer::{Timer, TimerConfig};
pub use crate::touch::{Touch, TouchConfig};
pub use crate::touchpad::{Touchpad, TouchpadConfig};
pub use crate::vertex::{Color, PrimitiveType, Vertex};
pub use crate::window::{Window, WindowConfig};
