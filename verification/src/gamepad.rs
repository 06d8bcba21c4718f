use vstd::prelude::*;
use crate::assoc::{assoc_get, assoc_lookup, assoc_put, distinct_keys};
use crate::error::GameResult;
use crate::event::{GamepadAxis, GamepadButton, GamepadId, KeyAction, KeyState};
use crate::tracker::{is_held, key_collapse, key_repeated, key_transition, StateTracker};

verus! {

/// Device identifiers must stay below this bound so that the combined
/// device/button tracking keys fit in a `u64`.
pub const GAMEPAD_ID_BOUND: u64 = 0x0400_0000_0000_0000;

/// The tracker key of one device's button.
pub open spec fn button_key(id: GamepadId, button: GamepadButton) -> u64 {
    (id * 32 + button.spec_code()) as u64
}

/// The tracker key of one device's axis.
pub open spec fn axis_key(id: GamepadId, axis: GamepadAxis) -> u64 {
    (id * 32 + axis.spec_code()) as u64
}

/// Gamepad input state for every connected device: the set of connected
/// device identifiers, the per-button four-state machine, and the last
/// analog value reported for each button and axis (in thousandths).
pub struct Gamepad {
    connected: Vec<GamepadId>,
    buttons: StateTracker,
    button_values: Vec<(u64, i64)>,
    axis_values: Vec<(u64, i64)>,
}

impl Gamepad {
    pub closed spec fn is_connected_spec(&self, id: GamepadId) -> bool {
        self.connected@.contains(id)
    }

    /// The tracked state of a combined device/button key.
    pub closed spec fn button_state_of_key(&self, key: u64) -> KeyState {
        self.buttons.state_of(key)
    }

    pub open spec fn button_state_of(&self, id: GamepadId, button: GamepadButton) -> KeyState {
        self.button_state_of_key(button_key(id, button))
    }

    pub closed spec fn button_value_of_key(&self, key: u64) -> Option<i64> {
        assoc_lookup(self.button_values@, key)
    }

    pub closed spec fn axis_value_of_key(&self, key: u64) -> Option<i64> {
        assoc_lookup(self.axis_values@, key)
    }

    pub closed spec fn wf(&self) -> bool {
        &&& self.buttons.wf()
        &&& distinct_keys(self.button_values@)
        &&& distinct_keys(self.axis_values@)
        &&& (forall|i: int, j: int|
            0 <= i < j < self.connected@.len() ==> self.connected@[i] != self.connected@[j])
    }

    pub fn new(config: GamepadConfig) -> (r: GameResult<Gamepad>)
        ensures
            r is Ok,
            r matches Ok(g) ==> g.wf() && (forall|id: GamepadId| !g.is_connected_spec(id)) && (
            forall|k: u64| g.button_state_of_key(k) == KeyState::Idle),
    {
        let _ = config;
        Ok(
            Self {
                connected: Vec::new(),
                buttons: StateTracker::new(),
                button_values: Vec::new(),
                axis_values: Vec::new(),
            },
        )
    }

    /// Record a device connection.
    pub fn handle_connect_event(&mut self, id: GamepadId)
        requires
            old(self).wf(),
        ensures
            final(self).wf(),
            final(self).is_connected_spec(id),
            forall|o: GamepadId| o != id ==> final(self).is_connected_spec(o) == old(
                self).is_connected_spec(o),
            forall|k: u64| final(self).button_state_of_key(k) == old(self).button_state_of_key(k),
            forall|k: u64| final(self).button_value_of_key(k) == old(self).button_value_of_key(k),
            forall|k: u64| final(self).axis_value_of_key(k) == old(self).axis_value_of_key(k),
    {
        if !self.is_connected(id) {
            let ghost s = self.connected@;
            proof {
                let pushed = s.push(id);
                assert(pushed[s.len() as int] == id);
                assert forall|o: GamepadId| o != id implies pushed.contains(o) == s.contains(o) by {
                    if pushed.contains(o) {
                        let k = choose|k: int| 0 <= k < pushed.len() && pushed[k] == o;
                        assert(pushed[k] == s[k]);
                    }
                    if s.contains(o) {
                        let k = choose|k: int| 0 <= k < s.len() && s[k] == o;
                        assert(pushed[k] == s[k]);
                    }
                }
                assert forall|a: int, b: int|
                    0 <= a < b < pushed.len() implies pushed[a] != pushed[b] by {
                    if b == s.len() {
                        assert(pushed[a] == s[a]);
                        assert(s.contains(s[a]));
                    } else {
                        assert(pushed[a] == s[a]);
                        assert(pushed[b] == s[b]);
                    }
                }
            }
            self.connected.push(id);
        }
    }

    /// Record a device disconnection.
    pub fn handle_disconnect_event(&mut self, id: GamepadId)
        requires
            old(self).wf(),
        ensures
            final(self).wf(),
            !final(self).is_connected_spec(id),
            forall|o: GamepadId| o != id ==> final(self).is_connected_spec(o) == old(
                self).is_connected_spec(o),
            forall|k: u64| final(self).button_state_of_key(k) == old(self).button_state_of_key(k),
            forall|k: u64| final(self).button_value_of_key(k) == old(self).button_value_of_key(k),
            forall|k: u64| final(self).axis_value_of_key(k) == old(self).axis_value_of_key(k),
    {
        let n = self.connected.len();
        let mut i: usize = 0;
        while i < n
            invariant
                i <= n,
                n == self.connected@.len(),
                *self == *old(self),
                old(self).wf(),
                forall|a: int, b: int|
                    0 <= a < b < self.connected@.len() ==> self.connected@[a]
                        != self.connected@[b],
                forall|j: int| 0 <= j < i ==> self.connected@[j] != id,
            decreases n - i,
        {
            if self.connected[i] == id {
                proof {
                    let s = self.connected@;
                    let removed = s.remove(i as int);
                    assert forall|j: int| 0 <= j < s.len() && j != i implies s[j] != id by {
                        if j > i {
                            assert(s[i as int] != s[j]);
                        }
                    }
                    assert(!removed.contains(id)) by {
                        if removed.contains(id) {
                            let k = choose|k: int| 0 <= k < removed.len() && removed[k] == id;
                            if k < i {
                                assert(removed[k] == s[k]);
                            } else {
                                assert(removed[k] == s[k + 1]);
                            }
                        }
                    }
                    assert forall|o: GamepadId| o != id implies removed.contains(o) == s.contains(
                        o) by {
                        if removed.contains(o) {
                            let k = choose|k: int| 0 <= k < removed.len() && removed[k] == o;
                            if k < i {
                                assert(removed[k] == s[k]);
                            } else {
                                assert(removed[k] == s[k + 1]);
                            }
                        }
                        if s.contains(o) {
                            let k = choose|k: int| 0 <= k < s.len() && s[k] == o;
                            if k < i {
                                assert(removed[k] == s[k]);
                            } else {
                                assert(removed[k - 1] == s[k]);
                            }
                        }
                    }
                    assert forall|a: int, b: int|
                        0 <= a < b < removed.len() implies removed[a] != removed[b] by {
                        if b < i {
                            assert(removed[a] == s[a]);
                            assert(removed[b] == s[b]);
                        } else if a < i {
                            assert(removed[a] == s[a]);
                            assert(removed[b] == s[b + 1]);
                        } else {
                            assert(removed[a] == s[a + 1]);
                            assert(removed[b] == s[b + 1]);
                        }
                    }
                }
                self.connected.remove(i);
                return ;
            }
            i += 1;
        }
    }

    /// Record one button notification; reports whether it was a repeat.
    pub fn handle_button_input_event(
        &mut self,
        id: GamepadId,
        button: GamepadButton,
        action: KeyAction,
    ) -> (repeated: bool)
        requires
            old(self).wf(),
            id < GAMEPAD_ID_BOUND,
        ensures
            final(self).wf(),
            repeated == key_repeated(old(self).button_state_of(id, button), action),
            final(self).button_state_of(id, button) == key_transition(
                old(self).button_state_of(id, button), action),
            forall|k: u64| k != button_key(id, button) ==> final(self).button_state_of_key(k)
                == old(self).button_state_of_key(k),
            forall|o: GamepadId| final(self).is_connected_spec(o) == old(self).is_connected_spec(
                o),
            forall|k: u64| final(self).button_value_of_key(k) == old(self).button_value_of_key(k),
            forall|k: u64| final(self).axis_value_of_key(k) == old(self).axis_value_of_key(k),
    {
        let key = id * 32 + button.code();
        self.buttons.handle_input(key, action)
    }

    /// Record an analog button value, in thousandths.
    pub fn handle_button_change_event(&mut self, id: GamepadId, button: GamepadButton, value: i64)
        requires
            old(self).wf(),
            id < GAMEPAD_ID_BOUND,
        ensures
            final(self).wf(),
            final(self).button_value_of_key(button_key(id, button)) == Some(value),
            forall|k: u64| k != button_key(id, button) ==> final(self).button_value_of_key(k)
                == old(self).button_value_of_key(k),
            forall|k: u64| final(self).button_state_of_key(k) == old(self).button_state_of_key(k),
            forall|o: GamepadId| final(self).is_connected_spec(o) == old(self).is_connected_spec(
                o),
            forall|k: u64| final(self).axis_value_of_key(k) == old(self).axis_value_of_key(k),
    {
        let key = id * 32 + button.code();
        assoc_put(&mut self.button_values, key, value);
    }

    /// Record an analog axis value, in thousandths.
    pub fn handle_axis_change_event(&mut self, id: GamepadId, axis: GamepadAxis, value: i64)
        requires
            old(self).wf(),
            id < GAMEPAD_ID_BOUND,
        ensures
            final(self).wf(),
            final(self).axis_value_of_key(axis_key(id, axis)) == Some(value),
            forall|k: u64| k != axis_key(id, axis) ==> final(self).axis_value_of_key(k) == old(
                self).axis_value_of_key(k),
            forall|k: u64| final(self).button_state_of_key(k) == old(self).button_state_of_key(k),
            forall|k: u64| final(self).button_value_of_key(k) == old(self).button_value_of_key(k),
            forall|o: GamepadId| final(self).is_connected_spec(o) == old(self).is_connected_spec(
                o),
    {
        let key = id * 32 + axis.code();
        assoc_put(&mut self.axis_values, key, value);
    }

    /// The end-of-frame collapse over every device's buttons.
    pub fn clear_states(&mut self)
        requires
            old(self).wf(),
        ensures
            final(self).wf(),
            forall|k: u64| final(self).button_state_of_key(k) == key_collapse(
                old(self).button_state_of_key(k)),
            forall|o: GamepadId| final(self).is_connected_spec(o) == old(self).is_connected_spec(
                o),
            forall|k: u64| final(self).button_value_of_key(k) == old(self).button_value_of_key(k),
            forall|k: u64| final(self).axis_value_of_key(k) == old(self).axis_value_of_key(k),
    {
        self.buttons.clear();
    }

    pub fn is_connected(&self, id: GamepadId) -> (r: bool)
        ensures
            r == self.is_connected_spec(id),
    {
        let n = self.connected.len();
        let mut i: usize = 0;
        while i < n
            invariant
                i <= n,
                n == self.connected@.len(),
                forall|j: int| 0 <= j < i ==> self.connected@[j] != id,
            decreases n - i,
        {
            if self.connected[i] == id {
                return true;
            }
            i += 1;
        }
        false
    }

    pub fn is_button_down(&self, id: GamepadId, button: GamepadButton) -> (r: bool)
        requires
            id < GAMEPAD_ID_BOUND,
        ensures
            r == (self.button_state_of(id, button) == KeyState::Down),
    {
        match self.buttons.state(id * 32 + button.code()) {
            KeyState::Down => true,
            _ => false,
        }
    }

    pub fn is_button_hold(&self, id: GamepadId, button: GamepadButton) -> (r: bool)
        requires
            id < GAMEPAD_ID_BOUND,
        ensures
            r == is_held(self.button_state_of(id, button)),
    {
        match self.buttons.state(id * 32 + button.code()) {
            KeyState::Down | KeyState::Hold => true,
            _ => false,
        }
    }

    pub fn is_button_up(&self, id: GamepadId, button: GamepadButton) -> (r: bool)
        requires
            id < GAMEPAD_ID_BOUND,
        ensures
            r == (self.button_state_of(id, button) == KeyState::Up),
    {
        match self.buttons.state(id * 32 + button.code()) {
            KeyState::Up => true,
            _ => false,
        }
    }

    /// The last analog value reported for a button, in thousandths.
    pub fn button_value(&self, id: GamepadId, button: GamepadButton) -> (r: Option<i64>)
        requires
            id < GAMEPAD_ID_BOUND,
        ensures
            r == self.button_value_of_key(button_key(id, button)),
    {
        assoc_get(&self.button_values, id * 32 + button.code())
    }

    /// The last analog value reported for an axis, in thousandths.
    pub fn axis_value(&self, id: GamepadId, axis: GamepadAxis) -> (r: Option<i64>)
        requires
            id < GAMEPAD_ID_BOUND,
        ensures
            r == self.axis_value_of_key(axis_key(id, axis)),
    {
        assoc_get(&self.axis_values, id * 32 + axis.code())
    }
}

#[derive(Debug, Clone)]
pub struct GamepadConfig {}

impl GamepadConfig {
    pub fn new() -> (r: Self) {
        Self {  }
    }
}

} // verus!
