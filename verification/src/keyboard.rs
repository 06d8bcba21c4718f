use vstd::prelude::*;
use crate::error::GameResult;
use crate::event::{KeyAction, KeyCode, KeyState, ModifiersState};
use crate::tracker::{is_held, key_collapse, key_repeated, key_transition, StateTracker};

verus! {

/// Keyboard input state: the per-key four-state machine plus the modifier
/// flags, which are replaced wholesale on each modifier-change notification.
pub struct Keyboard {
    key_states: StateTracker,
    modifiers_state: ModifiersState,
}

impl Keyboard {
    /// The tracked state of a key; a key never seen reads as Idle.
    pub closed spec fn key_state_of(&self, key: KeyCode) -> KeyState {
        self.key_states.state_of(key)
    }

    pub closed spec fn wf(&self) -> bool {
        self.key_states.wf()
    }

    pub closed spec fn spec_modifiers(&self) -> ModifiersState {
        self.modifiers_state
    }

    pub fn new(config: KeyboardConfig) -> (r: GameResult<Keyboard>)
        ensures
            r is Ok,
            r matches Ok(k) ==> k.wf() && (forall|c: KeyCode| k.key_state_of(c) == KeyState::Idle)
                && k.spec_modifiers() == (ModifiersState {
                shift: false,
                ctrl: false,
                alt: false,
                logo: false,
            }),
    {
        let _ = config;
        Ok(Self { key_states: StateTracker::new(), modifiers_state: ModifiersState::empty() })
    }

    /// Record one platform key notification. The key's state moves by the
    /// transition table; the result reports whether the notification was a
    /// repeat (a Down while the key was already held).
    pub fn handle_input_event(&mut self, key: KeyCode, action: KeyAction) -> (repeated: bool)
        requires
            old(self).wf(),
        ensures
            final(self).wf(),
            repeated == key_repeated(old(self).key_state_of(key), action),
            final(self).key_state_of(key) == key_transition(old(self).key_state_of(key), action),
            forall|c: KeyCode| c != key ==> final(self).key_state_of(c) == old(self).key_state_of(
                c),
            final(self).spec_modifiers() == old(self).spec_modifiers(),
    {
        self.key_states.handle_input(key, action)
    }

    /// Replace the modifier flags wholesale.
    pub fn handle_modifiers_state_change(&mut self, state: ModifiersState)
        requires
            old(self).wf(),
        ensures
            final(self).wf(),
            final(self).spec_modifiers() == state,
            forall|c: KeyCode| final(self).key_state_of(c) == old(self).key_state_of(c),
    {
        self.modifiers_state = state;
    }

    /// The end-of-frame collapse: Down and Hold persist as Hold, Up and
    /// Idle entries leave the map.
    pub fn clear_states(&mut self)
        requires
            old(self).wf(),
        ensures
            final(self).wf(),
            forall|c: KeyCode| final(self).key_state_of(c) == key_collapse(
                old(self).key_state_of(c)),
            final(self).spec_modifiers() == old(self).spec_modifiers(),
    {
        self.key_states.clear();
    }

    /// Whether the key saw its Down edge this frame.
    pub fn is_key_down(&self, key: KeyCode) -> (r: bool)
        ensures
            r == (self.key_state_of(key) == KeyState::Down),
    {
        match self.key_states.state(key) {
            KeyState::Down => true,
            _ => false,
        }
    }

    /// Whether the key is held: down or hold.
    pub fn is_key_hold(&self, key: KeyCode) -> (r: bool)
        ensures
            r == is_held(self.key_state_of(key)),
    {
        match self.key_states.state(key) {
            KeyState::Down | KeyState::Hold => true,
            _ => false,
        }
    }

    /// Whether the key saw its Up edge this frame.
    pub fn is_key_up(&self, key: KeyCode) -> (r: bool)
        ensures
            r == (self.key_state_of(key) == KeyState::Up),
    {
        match self.key_states.state(key) {
            KeyState::Up => true,
            _ => false,
        }
    }

    pub fn modifiers_state(&self) -> (r: ModifiersState)
        ensures
            r == self.spec_modifiers(),
    {
        self.modifiers_state
    }
}

#[derive(Debug, Clone)]
pub struct KeyboardConfig {}

impl KeyboardConfig {
    pub fn new() -> (r: Self) {
        Self {  }
    }
}

} // verus!
