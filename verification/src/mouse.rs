use vstd::prelude::*;
use crate::error::GameResult;
use crate::event::{KeyAction, KeyState, MouseButton};
use crate::math::{Position, Vector};
use crate::tracker::{is_held, key_collapse, key_repeated, key_transition, StateTracker};

verus! {

/// Mouse input state: a single optional position (cleared when the cursor
/// leaves the window), the per-button four-state machine, and the most
/// recent wheel-scroll delta (a per-frame edge).
pub struct Mouse {
    position: Option<Position>,
    in_window: bool,
    button_states: StateTracker,
    wheel_delta: Vector,
}

impl Mouse {
    pub closed spec fn spec_position(&self) -> Option<Position> {
        self.position
    }

    pub closed spec fn spec_in_window(&self) -> bool {
        self.in_window
    }

    /// The tracked state of a button code (see `MouseButton::spec_code`).
    pub closed spec fn button_state_of_code(&self, code: u64) -> KeyState {
        self.button_states.state_of(code)
    }

    pub open spec fn button_state_of(&self, button: MouseButton) -> KeyState {
        self.button_state_of_code(button.spec_code())
    }

    pub closed spec fn spec_wheel_delta(&self) -> Vector {
        self.wheel_delta
    }

    pub closed spec fn wf(&self) -> bool {
        self.button_states.wf()
    }

    pub fn new(config: MouseConfig) -> (r: GameResult<Mouse>)
        ensures
            r is Ok,
            r matches Ok(m) ==> m.wf() && m.spec_position() is None && !m.spec_in_window() && (
            forall|c: u64| m.button_state_of_code(c) == KeyState::Idle) && m.spec_wheel_delta()
                == (Vector { x: 0, y: 0 }),
    {
        let _ = config;
        Ok(
            Self {
                position: None,
                in_window: false,
                button_states: StateTracker::new(),
                wheel_delta: Vector::zero(),
            },
        )
    }

    /// Record a cursor move: the position is replaced.
    pub fn handle_move_event(&mut self, position: Position)
        requires
            old(self).wf(),
        ensures
            final(self).wf(),
            final(self).spec_position() == Some(position),
            final(self).spec_in_window() == old(self).spec_in_window(),
            forall|c: u64| final(self).button_state_of_code(c) == old(self).button_state_of_code(
                c),
            final(self).spec_wheel_delta() == old(self).spec_wheel_delta(),
    {
        self.position = Some(position);
    }

    /// The cursor entered the window.
    pub fn handle_enter_window_event(&mut self)
        requires
            old(self).wf(),
        ensures
            final(self).wf(),
            final(self).spec_in_window(),
            final(self).spec_position() == old(self).spec_position(),
            forall|c: u64| final(self).button_state_of_code(c) == old(self).button_state_of_code(
                c),
            final(self).spec_wheel_delta() == old(self).spec_wheel_delta(),
    {
        self.in_window = true;
    }

    /// The cursor left the window: the position is cleared.
    pub fn handle_leave_window_event(&mut self)
        requires
            old(self).wf(),
        ensures
            final(self).wf(),
            !final(self).spec_in_window(),
            final(self).spec_position() is None,
            forall|c: u64| final(self).button_state_of_code(c) == old(self).button_state_of_code(
                c),
            final(self).spec_wheel_delta() == old(self).spec_wheel_delta(),
    {
        self.in_window = false;
        self.position = None;
    }

    /// Record a wheel scroll: the delta replaces the previous one.
    pub fn handle_wheel_scroll_event(&mut self, delta: Vector)
        requires
            old(self).wf(),
        ensures
            final(self).wf(),
            final(self).spec_wheel_delta() == delta,
            final(self).spec_position() == old(self).spec_position(),
            final(self).spec_in_window() == old(self).spec_in_window(),
            forall|c: u64| final(self).button_state_of_code(c) == old(self).button_state_of_code(
                c),
    {
        self.wheel_delta = delta;
    }

    /// Record one button notification; reports whether it was a repeat.
    pub fn handle_input_event(&mut self, button: MouseButton, action: KeyAction) -> (repeated:
        bool)
        requires
            old(self).wf(),
        ensures
            final(self).wf(),
            repeated == key_repeated(old(self).button_state_of(button), action),
            final(self).button_state_of(button) == key_transition(
                old(self).button_state_of(button), action),
            forall|c: u64| c != button.spec_code() ==> final(self).button_state_of_code(c) == old(
                self).button_state_of_code(c),
            final(self).spec_position() == old(self).spec_position(),
            final(self).spec_in_window() == old(self).spec_in_window(),
            final(self).spec_wheel_delta() == old(self).spec_wheel_delta(),
    {
        let code = button.code();
        self.button_states.handle_input(code, action)
    }

    /// The end-of-frame collapse: button edges collapse as in the keyboard
    /// model; the wheel edge is cleared; the position level persists.
    pub fn clear_states(&mut self)
        requires
            old(self).wf(),
        ensures
            final(self).wf(),
            forall|c: u64| final(self).button_state_of_code(c) == key_collapse(
                old(self).button_state_of_code(c)),
            final(self).spec_wheel_delta() == (Vector { x: 0, y: 0 }),
            final(self).spec_position() == old(self).spec_position(),
            final(self).spec_in_window() == old(self).spec_in_window(),
    {
        self.button_states.clear();
        self.wheel_delta = Vector::zero();
    }

    pub fn position(&self) -> (r: Option<Position>)
        ensures
            r == self.spec_position(),
    {
        self.position
    }

    pub fn is_button_down(&self, button: MouseButton) -> (r: bool)
        ensures
            r == (self.button_state_of(button) == KeyState::Down),
    {
        match self.button_states.state(button.code()) {
            KeyState::Down => true,
            _ => false,
        }
    }

    pub fn is_button_hold(&self, button: MouseButton) -> (r: bool)
        ensures
            r == is_held(self.button_state_of(button)),
    {
        match self.button_states.state(button.code()) {
            KeyState::Down | KeyState::Hold => true,
            _ => false,
        }
    }

    pub fn is_button_up(&self, button: MouseButton) -> (r: bool)
        ensures
            r == (self.button_state_of(button) == KeyState::Up),
    {
        match self.button_states.state(button.code()) {
            KeyState::Up => true,
            _ => false,
        }
    }

    pub fn wheel_delta(&self) -> (r: Vector)
        ensures
            r == self.spec_wheel_delta(),
    {
        self.wheel_delta
    }
}

#[derive(Debug, Clone)]
pub struct MouseConfig {}

impl MouseConfig {
    pub fn new() -> (r: Self) {
        Self {  }
    }
}

} // verus!
