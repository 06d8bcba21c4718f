use vstd::prelude::*;
use crate::audio::{Audio, AudioConfig};
use crate::error::{GameError, GameResult};
use crate::event::Event;
use crate::filesystem::{Filesystem, FilesystemConfig};
use crate::gamepad::{button_key, axis_key, Gamepad, GamepadConfig, GAMEPAD_ID_BOUND};
use crate::graphics::{Graphics, GraphicsConfig};
use crate::keyboard::{Keyboard, KeyboardConfig};
use crate::mouse::{Mouse, MouseConfig};
use crate::timer::{Timer, TimerConfig};
use crate::touch::{Touch, TouchConfig};
use crate::touchpad::{Touchpad, TouchpadConfig};
use crate::tracker::{key_collapse, key_repeated, key_transition};
use crate::buffer::BUFFER_LIMIT_BOUND;
use crate::window::{Window, WindowConfig};

verus! {

/// The run-loop state machine. Finished and Broken are terminal: no event
/// is processed after either is entered.
#[derive(Debug, Clone, Copy, PartialEq, Eq, Structural, Hash)]
pub enum EngineState {
    Ready,
    Running,
    Finished,
    Broken,
}

/// Gamepad identifiers carried by an event must stay below the combined
/// tracking-key bound.
pub open spec fn event_wf(e: Event) -> bool {
    match e {
        Event::GamepadButtonInput { id, .. } => id < GAMEPAD_ID_BOUND,
        Event::GamepadButtonChange { id, .. } => id < GAMEPAD_ID_BOUND,
        Event::GamepadAxisChange { id, .. } => id < GAMEPAD_ID_BOUND,
        _ => true,
    }
}

/// The engine context: it owns every subsystem and the run-loop state, and
/// is handed by reference into every callback.
pub struct Engine {
    pub filesystem: Filesystem,
    pub window: Window,
    pub graphics: Graphics,
    pub timer: Timer,
    pub keyboard: Keyboard,
    pub mouse: Mouse,
    pub touch: Touch,
    pub touchpad: Touchpad,
    pub gamepad: Gamepad,
    pub audio: Audio,
    pub state: EngineState,
    pub broken_error: Option<GameError>,
}

impl Engine {
    pub open spec fn spec_state(&self) -> EngineState {
        self.state
    }

    pub open spec fn spec_broken_error(&self) -> Option<GameError> {
        self.broken_error
    }

    pub open spec fn is_terminal(&self) -> bool {
        self.spec_state() == EngineState::Finished || self.spec_state() == EngineState::Broken
    }

    pub open spec fn wf(&self) -> bool {
        &&& self.graphics.wf()
        &&& self.timer.wf()
        &&& self.keyboard.wf()
        &&& self.mouse.wf()
        &&& self.touch.wf()
        &&& self.gamepad.wf()
        &&& (self.spec_broken_error() is Some ==> self.spec_state() == EngineState::Broken)
    }

    pub fn filesystem(&self) -> (r: &Filesystem) {
        &self.filesystem
    }

    pub fn window(&self) -> (r: &Window)
        ensures
            r == &self.window,
    {
        &self.window
    }

    pub fn graphics(&self) -> (r: &Graphics)
        ensures
            r == &self.graphics,
    {
        &self.graphics
    }

    pub fn timer(&self) -> (r: &Timer)
        ensures
            r == &self.timer,
    {
        &self.timer
    }

    pub fn keyboard(&self) -> (r: &Keyboard)
        ensures
            r == &self.keyboard,
    {
        &self.keyboard
    }

    pub fn mouse(&self) -> (r: &Mouse)
        ensures
            r == &self.mouse,
    {
        &self.mouse
    }

    pub fn touch(&self) -> (r: &Touch)
        ensures
            r == &self.touch,
    {
        &self.touch
    }

    pub fn touchpad(&self) -> (r: &Touchpad)
        ensures
            r == &self.touchpad,
    {
        &self.touchpad
    }

    pub fn gamepad(&self) -> (r: &Gamepad)
        ensures
            r == &self.gamepad,
    {
        &self.gamepad
    }

    pub fn audio(&self) -> (r: &Audio)
        ensures
            r == &self.audio,
    {
        &self.audio
    }

    pub fn state(&self) -> (r: EngineState)
        ensures
            r == self.spec_state(),
    {
        self.state
    }

    /// Whether the run loop should keep pumping events.
    pub fn is_running(&self) -> (r: bool)
        ensures
            r == (self.spec_state() == EngineState::Running),
    {
        match self.state {
            EngineState::Running => true,
            _ => false,
        }
    }

    /// Ask the engine to finish at the next event-pump wake. A no-op once
    /// the machine is terminal.
    pub fn quit(&mut self)
        requires
            old(self).wf(),
        ensures
            final(self).wf(),
            old(self).is_terminal() ==> *final(self) == *old(self),
            !old(self).is_terminal() ==> final(self).spec_state() == EngineState::Finished
                && final(self).spec_broken_error() == old(self).spec_broken_error()
                && same_subsystems(old(self), final(self)),
    {
        match self.state {
            EngineState::Finished | EngineState::Broken => (),
            _ => {
                self.state = EngineState::Finished;
            },
        }
    }

    /// Record a failure and stop: the machine goes to Broken and keeps the
    /// error for the run call to surface. A no-op once terminal.
    pub fn exit(&mut self, error: GameError)
        requires
            old(self).wf(),
        ensures
            final(self).wf(),
            old(self).is_terminal() ==> *final(self) == *old(self),
            !old(self).is_terminal() ==> final(self).spec_state() == EngineState::Broken && final(self).spec_broken_error() == Some(error) && same_subsystems(old(self), final(self)),
    {
        match self.state {
            EngineState::Finished | EngineState::Broken => (),
            _ => {
                self.state = EngineState::Broken;
                self.broken_error = Some(error);
            },
        }
    }

    /// Enter the run loop: only a Ready engine may run; anything else is a
    /// state-contract violation.
    pub fn begin_run(&mut self) -> (r: GameResult)
        requires
            old(self).wf(),
        ensures
            final(self).wf(),
            (r is Ok) == (old(self).spec_state() == EngineState::Ready),
            r is Ok ==> final(self).spec_state() == EngineState::Running && final(self).spec_broken_error() == old(self).spec_broken_error() && same_subsystems(
                old(self),
                final(self),
            ),
            r is Err ==> *final(self) == *old(self),
            r matches Err(e) ==> e is StateError,
    {
        match self.state {
            EngineState::Ready => {
                self.state = EngineState::Running;
                Ok(())
            },
            _ => Err(GameError::StateError("engine cannot run in this state".to_owned())),
        }
    }

    /// Leave the run loop: Finished returns success; Broken surfaces the
    /// recorded error (taking it out); anything else is a state-contract
    /// violation.
    pub fn finish_run(&mut self) -> (r: GameResult)
        requires
            old(self).wf(),
        ensures
            final(self).wf(),
            (r is Ok) == (old(self).spec_state() == EngineState::Finished),
            final(self).spec_state() == old(self).spec_state(),
            same_subsystems(old(self), final(self)),
            old(self).spec_state() == EngineState::Broken ==> (old(self).spec_broken_error()
                matches Some(b) ==> ((r matches Err(e) && e == b) && final(self).spec_broken_error() is None)),
            old(self).spec_state() == EngineState::Ready || old(self).spec_state()
                == EngineState::Running ==> (r matches Err(e) && e is StateError) && *final(self)
                == *old(self),
    {
        match self.state {
            EngineState::Finished => Ok(()),
            EngineState::Broken => {
                let error = match self.broken_error.take() {
                    Some(e) => e,
                    None => GameError::RuntimeError("no broken error recorded".to_owned()),
                };
                Err(error)
            },
            _ => Err(GameError::StateError("engine state incorrect on loop return".to_owned())),
        }
    }

    /// Route one platform notification to its subsystem and hand back the
    /// event to pass to the application's callback, with the repeat flag
    /// filled in for keyboard input. The subsystem mutation always precedes
    /// the callback, which the caller invokes on the returned event.
    pub fn apply_event(&mut self, event: &Event) -> (out: Event)
        requires
            old(self).wf(),
            event_wf(*event),
        ensures
            final(self).wf(),
            final(self).spec_state() == old(self).spec_state(),
            final(self).spec_broken_error() == old(self).spec_broken_error(),
            event_applied(old(self), final(self), *event, out),
    {
        match *event {
            Event::KeyboardInput { key, action, .. } => {
                let repeated = self.keyboard.handle_input_event(key, action);
                Event::KeyboardInput { key, action, repeated }
            },
            Event::ModifiersChange(m) => {
                self.keyboard.handle_modifiers_state_change(m);
                *event
            },
            Event::MouseMove(p) => {
                self.mouse.handle_move_event(p);
                *event
            },
            Event::MouseEnterWindow => {
                self.mouse.handle_enter_window_event();
                *event
            },
            Event::MouseLeaveWindow => {
                self.mouse.handle_leave_window_event();
                *event
            },
            Event::MouseWheelScroll(delta) => {
                self.mouse.handle_wheel_scroll_event(delta);
                *event
            },
            Event::MouseInput { button, action } => {
                let _ = self.mouse.handle_input_event(button, action);
                *event
            },
            Event::Touch { id, phase, position } => {
                self.touch.handle_event(id, phase, position);
                *event
            },
            Event::TouchpadScroll { delta, .. } => {
                self.touchpad.handle_scroll_event(delta);
                *event
            },
            Event::TouchpadPress { pressure, click_stage } => {
                self.touchpad.handle_press_event(pressure, click_stage);
                *event
            },
            Event::GamepadConnect(id) => {
                self.gamepad.handle_connect_event(id);
                *event
            },
            Event::GamepadDisconnect(id) => {
                self.gamepad.handle_disconnect_event(id);
                *event
            },
            Event::GamepadButtonInput { id, button, action } => {
                let _ = self.gamepad.handle_button_input_event(id, button, action);
                *event
            },
            Event::GamepadButtonChange { id, button, value } => {
                self.gamepad.handle_button_change_event(id, button, value);
                *event
            },
            Event::GamepadAxisChange { id, axis, value } => {
                self.gamepad.handle_axis_change_event(id, axis, value);
                *event
            },
            Event::WindowResize(size) => {
                self.graphics.resize(size);
                self.window.handle_resize_event(size);
                *event
            },
            Event::WindowFocusChange(focused) => {
                self.window.handle_focus_change_event(focused);
                *event
            },
            Event::AppSuspend => {
                self.audio.suspend();
                *event
            },
            Event::AppResume => {
                self.audio.resume();
                *event
            },
            Event::WindowClose | Event::WindowMove(_) | Event::ReceiveChar(_) => *event,
        }
    }

    /// The end-of-frame collapse over every input tracker, run once after
    /// a due tick's update, render and present.
    pub fn end_frame(&mut self)
        requires
            old(self).wf(),
        ensures
            final(self).wf(),
            final(self).spec_state() == old(self).spec_state(),
            final(self).spec_broken_error() == old(self).spec_broken_error(),
            final(self).graphics == old(self).graphics,
            final(self).timer == old(self).timer,
            final(self).audio == old(self).audio,
            forall|c: u64| final(self).keyboard.key_state_of(c) == key_collapse(
                old(self).keyboard.key_state_of(c)),
            final(self).keyboard.spec_modifiers() == old(self).keyboard.spec_modifiers(),
            forall|c: u64| final(self).mouse.button_state_of_code(c) == key_collapse(
                old(self).mouse.button_state_of_code(c)),
            final(self).mouse.spec_position() == old(self).mouse.spec_position(),
            final(self).touch == old(self).touch,
            final(self).touchpad.spec_scroll_delta() == (crate::math::Vector { x: 0, y: 0 }),
            forall|c: u64| final(self).gamepad.button_state_of_key(c) == key_collapse(
                old(self).gamepad.button_state_of_key(c)),
    {
        self.keyboard.clear_states();
        self.mouse.clear_states();
        self.touch.clear_states();
        self.touchpad.clear_states();
        self.gamepad.clear_states();
    }
}

/// No subsystem changed: only the run-loop state may differ.
pub open spec fn same_subsystems(a: &Engine, b: &Engine) -> bool {
    &&& b.filesystem == a.filesystem
    &&& b.window == a.window
    &&& b.graphics == a.graphics
    &&& b.timer == a.timer
    &&& b.keyboard == a.keyboard
    &&& b.mouse == a.mouse
    &&& b.touch == a.touch
    &&& b.touchpad == a.touchpad
    &&& b.gamepad == a.gamepad
    &&& b.audio == a.audio
}

/// What routing one event does: exactly the addressed subsystem moves, by
/// its own transition rule, and the event is handed back unchanged except
/// that keyboard input carries the repeat flag.
pub open spec fn event_applied(a: &Engine, b: &Engine, event: Event, out: Event) -> bool {
    match event {
        Event::KeyboardInput { key, action, .. } => {
            &&& out == (Event::KeyboardInput {
                key,
                action,
                repeated: key_repeated(a.keyboard.key_state_of(key), action),
            })
            &&& b.keyboard.key_state_of(key) == key_transition(
                a.keyboard.key_state_of(key),
                action,
            )
            &&& (forall|c: u64| c != key ==> b.keyboard.key_state_of(c) == a.keyboard.key_state_of(
                c))
            &&& b.keyboard.spec_modifiers() == a.keyboard.spec_modifiers()
            &&& same_but_keyboard(a, b)
        },
        Event::ModifiersChange(m) => {
            &&& out == event
            &&& b.keyboard.spec_modifiers() == m
            &&& (forall|c: u64| b.keyboard.key_state_of(c) == a.keyboard.key_state_of(c))
            &&& same_but_keyboard(a, b)
        },
        Event::MouseMove(p) => {
            &&& out == event
            &&& b.mouse.spec_position() == Some(p)
            &&& same_but_mouse(a, b)
        },
        Event::MouseEnterWindow => {
            &&& out == event
            &&& b.mouse.spec_in_window()
            &&& b.mouse.spec_position() == a.mouse.spec_position()
            &&& same_but_mouse(a, b)
        },
        Event::MouseLeaveWindow => {
            &&& out == event
            &&& !b.mouse.spec_in_window()
            &&& b.mouse.spec_position() is None
            &&& same_but_mouse(a, b)
        },
        Event::MouseWheelScroll(delta) => {
            &&& out == event
            &&& b.mouse.spec_wheel_delta() == delta
            &&& same_but_mouse(a, b)
        },
        Event::MouseInput { button, action } => {
            &&& out == event
            &&& b.mouse.button_state_of(button) == key_transition(
                a.mouse.button_state_of(button),
                action,
            )
            &&& (forall|c: u64| c != button.spec_code() ==> b.mouse.button_state_of_code(c)
                == a.mouse.button_state_of_code(c))
            &&& same_but_mouse(a, b)
        },
        Event::Touch { id, phase, position } => {
            &&& out == event
            &&& ((phase == crate::event::TouchPhase::Start || phase
                == crate::event::TouchPhase::Move) ==> b.touch.position_of(id) == Some(position))
            &&& ((phase == crate::event::TouchPhase::End || phase
                == crate::event::TouchPhase::Cancel) ==> b.touch.position_of(id) is None)
            &&& (forall|o: u64| o != id ==> b.touch.position_of(o) == a.touch.position_of(o))
            &&& same_but_touch(a, b)
        },
        Event::TouchpadScroll { delta, .. } => {
            &&& out == event
            &&& b.touchpad.spec_scroll_delta() == delta
            &&& same_but_touchpad(a, b)
        },
        Event::TouchpadPress { pressure, click_stage } => {
            &&& out == event
            &&& b.touchpad.spec_pressure() == pressure
            &&& b.touchpad.spec_click_stage() == click_stage
            &&& same_but_touchpad(a, b)
        },
        Event::GamepadConnect(id) => {
            &&& out == event
            &&& b.gamepad.is_connected_spec(id)
            &&& (forall|o: u64| o != id ==> b.gamepad.is_connected_spec(o)
                == a.gamepad.is_connected_spec(o))
            &&& same_but_gamepad(a, b)
        },
        Event::GamepadDisconnect(id) => {
            &&& out == event
            &&& !b.gamepad.is_connected_spec(id)
            &&& (forall|o: u64| o != id ==> b.gamepad.is_connected_spec(o)
                == a.gamepad.is_connected_spec(o))
            &&& same_but_gamepad(a, b)
        },
        Event::GamepadButtonInput { id, button, action } => {
            &&& out == event
            &&& b.gamepad.button_state_of(id, button) == key_transition(
                a.gamepad.button_state_of(id, button),
                action,
            )
            &&& (forall|k: u64| k != button_key(id, button) ==> b.gamepad.button_state_of_key(k)
                == a.gamepad.button_state_of_key(k))
            &&& same_but_gamepad(a, b)
        },
        Event::GamepadButtonChange { id, button, value } => {
            &&& out == event
            &&& b.gamepad.button_value_of_key(button_key(id, button)) == Some(value)
            &&& same_but_gamepad(a, b)
        },
        Event::GamepadAxisChange { id, axis, value } => {
            &&& out == event
            &&& b.gamepad.axis_value_of_key(axis_key(id, axis)) == Some(value)
            &&& same_but_gamepad(a, b)
        },
        Event::WindowResize(size) => {
            &&& out == event
            &&& b.graphics.spec_screen_size() == size
            &&& b.graphics.spec_transforms() == a.graphics.spec_transforms()
            &&& b.graphics.spec_commands() == a.graphics.spec_commands()
            &&& b.window.spec_logical_size() == size
            &&& b.window.spec_focused() == a.window.spec_focused()
            &&& same_but_graphics_window(a, b)
        },
        Event::WindowFocusChange(focused) => {
            &&& out == event
            &&& b.window.spec_focused() == focused
            &&& b.window.spec_logical_size() == a.window.spec_logical_size()
            &&& same_but_window(a, b)
        },
        Event::AppSuspend => {
            &&& out == event
            &&& b.audio.spec_suspended()
            &&& same_but_audio(a, b)
        },
        Event::AppResume => {
            &&& out == event
            &&& !b.audio.spec_suspended()
            &&& same_but_audio(a, b)
        },
        Event::WindowClose | Event::WindowMove(_) | Event::ReceiveChar(_) => out == event
            && same_subsystems(a, b),
    }
}

pub open spec fn same_but_keyboard(a: &Engine, b: &Engine) -> bool {
    &&& b.filesystem == a.filesystem
    &&& b.window == a.window
    &&& b.graphics == a.graphics
    &&& b.timer == a.timer
    &&& b.mouse == a.mouse
    &&& b.touch == a.touch
    &&& b.touchpad == a.touchpad
    &&& b.gamepad == a.gamepad
    &&& b.audio == a.audio
}

pub open spec fn same_but_mouse(a: &Engine, b: &Engine) -> bool {
    &&& b.filesystem == a.filesystem
    &&& b.window == a.window
    &&& b.graphics == a.graphics
    &&& b.timer == a.timer
    &&& b.keyboard == a.keyboard
    &&& b.touch == a.touch
    &&& b.touchpad == a.touchpad
    &&& b.gamepad == a.gamepad
    &&& b.audio == a.audio
}

pub open spec fn same_but_touch(a: &Engine, b: &Engine) -> bool {
    &&& b.filesystem == a.filesystem
    &&& b.window == a.window
    &&& b.graphics == a.graphics
    &&& b.timer == a.timer
    &&& b.keyboard == a.keyboard
    &&& b.mouse == a.mouse
    &&& b.touchpad == a.touchpad
    &&& b.gamepad == a.gamepad
    &&& b.audio == a.audio
}

pub open spec fn same_but_touchpad(a: &Engine, b: &Engine) -> bool {
    &&& b.filesystem == a.filesystem
    &&& b.window == a.window
    &&& b.graphics == a.graphics
    &&& b.timer == a.timer
    &&& b.keyboard == a.keyboard
    &&& b.mouse == a.mouse
    &&& b.touch == a.touch
    &&& b.gamepad == a.gamepad
    &&& b.audio == a.audio
}

pub open spec fn same_but_gamepad(a: &Engine, b: &Engine) -> bool {
    &&& b.filesystem == a.filesystem
    &&& b.window == a.window
    &&& b.graphics == a.graphics
    &&& b.timer == a.timer
    &&& b.keyboard == a.keyboard
    &&& b.mouse == a.mouse
    &&& b.touch == a.touch
    &&& b.touchpad == a.touchpad
    &&& b.audio == a.audio
}

pub open spec fn same_but_graphics_window(a: &Engine, b: &Engine) -> bool {
    &&& b.filesystem == a.filesystem
    &&& b.timer == a.timer
    &&& b.keyboard == a.keyboard
    &&& b.mouse == a.mouse
    &&& b.touch == a.touch
    &&& b.touchpad == a.touchpad
    &&& b.gamepad == a.gamepad
    &&& b.audio == a.audio
}

pub open spec fn same_but_window(a: &Engine, b: &Engine) -> bool {
    &&& b.filesystem == a.filesystem
    &&& b.graphics == a.graphics
    &&& b.timer == a.timer
    &&& b.keyboard == a.keyboard
    &&& b.mouse == a.mouse
    &&& b.touch == a.touch
    &&& b.touchpad == a.touchpad
    &&& b.gamepad == a.gamepad
    &&& b.audio == a.audio
}

pub open spec fn same_but_audio(a: &Engine, b: &Engine) -> bool {
    &&& b.filesystem == a.filesystem
    &&& b.window == a.window
    &&& b.graphics == a.graphics
    &&& b.timer == a.timer
    &&& b.keyboard == a.keyboard
    &&& b.mouse == a.mouse
    &&& b.touch == a.touch
    &&& b.touchpad == a.touchpad
    &&& b.gamepad == a.gamepad
}

/// Builds an engine from per-subsystem configurations, each falling back
/// to its default when not given.
#[derive(Debug, Clone)]
pub struct EngineBuilder {
    filesystem_config: Option<FilesystemConfig>,
    window_config: Option<WindowConfig>,
    graphics_config: Option<GraphicsConfig>,
    timer_config: Option<TimerConfig>,
    keyboard_config: Option<KeyboardConfig>,
    mouse_config: Option<MouseConfig>,
    touch_config: Option<TouchConfig>,
    touchpad_config: Option<TouchpadConfig>,
    gamepad_config: Option<GamepadConfig>,
    audio_config: Option<AudioConfig>,
}

impl EngineBuilder {
    pub closed spec fn spec_timer_config(&self) -> Option<TimerConfig> {
        self.timer_config
    }

    pub closed spec fn spec_graphics_config(&self) -> Option<GraphicsConfig> {
        self.graphics_config
    }

    /// The timer configuration `build` will use.
    pub open spec fn effective_timer_rate(&self) -> Option<u32> {
        match self.spec_timer_config() {
            Some(c) => c.target_rate,
            None => Some(60u32),
        }
    }

    /// The buffer limit `build` will use.
    pub open spec fn effective_buffer_limit(&self) -> usize {
        match self.spec_graphics_config() {
            Some(c) => c.max_buffer_units,
            None => BUFFER_LIMIT_BOUND,
        }
    }

    pub fn new() -> (r: Self)
        ensures
            r.spec_timer_config() is None,
            r.spec_graphics_config() is None,
    {
        Self {
            filesystem_config: None,
            window_config: None,
            graphics_config: None,
            timer_config: None,
            keyboard_config: None,
            mouse_config: None,
            touch_config: None,
            touchpad_config: None,
            gamepad_config: None,
            audio_config: None,
        }
    }

    pub fn filesystem_config(self, filesystem_config: FilesystemConfig) -> (r: Self)
        ensures
            r.spec_timer_config() == self.spec_timer_config(),
            r.spec_graphics_config() == self.spec_graphics_config(),
    {
        Self { filesystem_config: Some(filesystem_config), ..self }
    }

    pub fn window_config(self, window_config: WindowConfig) -> (r: Self)
        ensures
            r.spec_timer_config() == self.spec_timer_config(),
            r.spec_graphics_config() == self.spec_graphics_config(),
    {
        Self { window_config: Some(window_config), ..self }
    }

    pub fn graphics_config(self, graphics_config: GraphicsConfig) -> (r: Self)
        ensures
            r.spec_graphics_config() == Some(graphics_config),
            r.spec_timer_config() == self.spec_timer_config(),
    {
        Self { graphics_config: Some(graphics_config), ..self }
    }

    pub fn timer_config(self, timer_config: TimerConfig) -> (r: Self)
        ensures
            r.spec_timer_config() == Some(timer_config),
            r.spec_graphics_config() == self.spec_graphics_config(),
    {
        Self { timer_config: Some(timer_config), ..self }
    }

    pub fn keyboard_config(self, keyboard_config: KeyboardConfig) -> (r: Self)
        ensures
            r.spec_timer_config() == self.spec_timer_config(),
            r.spec_graphics_config() == self.spec_graphics_config(),
    {
        Self { keyboard_config: Some(keyboard_config), ..self }
    }

    pub fn mouse_config(self, mouse_config: MouseConfig) -> (r: Self)
        ensures
            r.spec_timer_config() == self.spec_timer_config(),
            r.spec_graphics_config() == self.spec_graphics_config(),
    {
        Self { mouse_config: Some(mouse_config), ..self }
    }

    pub fn touch_config(self, touch_config: TouchConfig) -> (r: Self)
        ensures
            r.spec_timer_config() == self.spec_timer_config(),
            r.spec_graphics_config() == self.spec_graphics_config(),
    {
        Self { touch_config: Some(touch_config), ..self }
    }

    pub fn touchpad_config(self, touchpad_config: TouchpadConfig) -> (r: Self)
        ensures
            r.spec_timer_config() == self.spec_timer_config(),
            r.spec_graphics_config() == self.spec_graphics_config(),
    {
        Self { touchpad_config: Some(touchpad_config), ..self }
    }

    pub fn gamepad_config(self, gamepad_config: GamepadConfig) -> (r: Self)
        ensures
            r.spec_timer_config() == self.spec_timer_config(),
            r.spec_graphics_config() == self.spec_graphics_config(),
    {
        Self { gamepad_config: Some(gamepad_config), ..self }
    }

    pub fn audio_config(self, audio_config: AudioConfig) -> (r: Self)
        ensures
            r.spec_timer_config() == self.spec_timer_config(),
            r.spec_graphics_config() == self.spec_graphics_config(),
    {
        Self { audio_config: Some(audio_config), ..self }
    }

    /// Build a Ready engine, every subsystem in its initial state. Only a
    /// zero target rate or an out-of-range buffer limit can fail.
    pub fn build(self) -> (r: GameResult<Engine>)
        ensures
            (r is Ok) == (self.effective_timer_rate() != Some(0u32)
                && self.effective_buffer_limit() <= BUFFER_LIMIT_BOUND),
            r matches Ok(engine) ==> engine.wf() && engine.spec_state() == EngineState::Ready
                && engine.spec_broken_error() is None && (match self.effective_timer_rate() {
                Some(rate) => engine.timer.spec_interval_ns() == 1_000_000_000 as u64 / (
                rate as u64),
                None => engine.timer.spec_interval_ns() == 0,
            }) && engine.graphics.spec_buffer_limit() == self.effective_buffer_limit()
                && engine.graphics.spec_transforms().len() == 1,
            r matches Err(e) ==> e is InitError,
    {
        let filesystem_config = match self.filesystem_config {
            Some(c) => c,
            None => FilesystemConfig::new(),
        };
        let window_config = match self.window_config {
            Some(c) => c,
            None => WindowConfig::new(),
        };
        let graphics_config = match self.graphics_config {
            Some(c) => c,
            None => GraphicsConfig::new(),
        };
        let timer_config = match self.timer_config {
            Some(c) => c,
            None => TimerConfig::new(),
        };
        let keyboard_config = match self.keyboard_config {
            Some(c) => c,
            None => KeyboardConfig::new(),
        };
        let mouse_config = match self.mouse_config {
            Some(c) => c,
            None => MouseConfig::new(),
        };
        let touch_config = match self.touch_config {
            Some(c) => c,
            None => TouchConfig::new(),
        };
        let touchpad_config = match self.touchpad_config {
            Some(c) => c,
            None => TouchpadConfig::new(),
        };
        let gamepad_config = match self.gamepad_config {
            Some(c) => c,
            None => GamepadConfig::new(),
        };
        let audio_config = match self.audio_config {
            Some(c) => c,
            None => AudioConfig::new(),
        };
        let filesystem = match Filesystem::new(filesystem_config) {
            Ok(s) => s,
            Err(e) => {
                return Err(e);
            },
        };
        let window = match Window::new(window_config) {
            Ok(s) => s,
            Err(e) => {
                return Err(e);
            },
        };
        let graphics = match Graphics::new(graphics_config) {
            Ok(s) => s,
            Err(e) => {
                return Err(e);
            },
        };
        let timer = match Timer::new(timer_config) {
            Ok(s) => s,
            Err(e) => {
                return Err(e);
            },
        };
        let keyboard = match Keyboard::new(keyboard_config) {
            Ok(s) => s,
            Err(e) => {
                return Err(e);
            },
        };
        let mouse = match Mouse::new(mouse_config) {
            Ok(s) => s,
            Err(e) => {
                return Err(e);
            },
        };
        let touch = match Touch::new(touch_config) {
            Ok(s) => s,
            Err(e) => {
                return Err(e);
            },
        };
        let touchpad = match Touchpad::new(touchpad_config) {
            Ok(s) => s,
            Err(e) => {
                return Err(e);
            },
        };
        let gamepad = match Gamepad::new(gamepad_config) {
            Ok(s) => s,
            Err(e) => {
                return Err(e);
            },
        };
        let audio = match Audio::new(audio_config) {
            Ok(s) => s,
            Err(e) => {
                return Err(e);
            },
        };
        Ok(
            Engine {
                filesystem,
                window,
                graphics,
                timer,
                keyboard,
                mouse,
                touch,
                touchpad,
                gamepad,
                audio,
                state: EngineState::Ready,
                broken_error: None,
            },
        )
    }
}

} // verus!
