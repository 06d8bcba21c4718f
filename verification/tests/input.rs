use tge::event::{KeyAction, KeyState, ModifiersState, MouseButton, TouchPhase};
use tge::gamepad::{Gamepad, GamepadConfig};
use tge::event::{GamepadAxis, GamepadButton};
use tge::keyboard::{Keyboard, KeyboardConfig};
use tge::math::Vector;
use tge::mouse::{Mouse, MouseConfig};
use tge::touch::{Touch, TouchConfig};
use tge::touchpad::{Touchpad, TouchpadConfig};

const KEY_Z: u64 = 44;

#[test]
fn key_down_reads_as_hold_until_up() {
    let mut keyboard = Keyboard::new(KeyboardConfig::new()).unwrap();
    assert!(!keyboard.is_key_hold(KEY_Z));

    let repeated = keyboard.handle_input_event(KEY_Z, KeyAction::Down);
    assert!(!repeated);
    assert!(keyboard.is_key_down(KEY_Z));
    assert!(keyboard.is_key_hold(KEY_Z));

    // Frame ends with no Up: the level persists, the edge is gone.
    keyboard.clear_states();
    assert!(!keyboard.is_key_down(KEY_Z));
    assert!(keyboard.is_key_hold(KEY_Z));

    // Several more frames pass; still held.
    keyboard.clear_states();
    keyboard.clear_states();
    assert!(keyboard.is_key_hold(KEY_Z));

    // The matching Up: the hold level drops, the up edge shows for one frame.
    keyboard.handle_input_event(KEY_Z, KeyAction::Up);
    assert!(keyboard.is_key_up(KEY_Z));
    assert!(!keyboard.is_key_hold(KEY_Z));

    // After the Up's end-of-frame collapse the key reads idle.
    keyboard.clear_states();
    assert!(!keyboard.is_key_up(KEY_Z));
    assert!(!keyboard.is_key_hold(KEY_Z));
    assert!(!keyboard.is_key_down(KEY_Z));
}

#[test]
fn second_down_is_repeated_and_holds() {
    let mut keyboard = Keyboard::new(KeyboardConfig::new()).unwrap();
    let first = keyboard.handle_input_event(KEY_Z, KeyAction::Down);
    assert!(!first);
    let second = keyboard.handle_input_event(KEY_Z, KeyAction::Down);
    assert!(second);
    assert!(keyboard.is_key_hold(KEY_Z));
    assert!(!keyboard.is_key_down(KEY_Z));
}

#[test]
fn keys_are_tracked_independently() {
    let mut keyboard = Keyboard::new(KeyboardConfig::new()).unwrap();
    keyboard.handle_input_event(1, KeyAction::Down);
    keyboard.handle_input_event(2, KeyAction::Down);
    keyboard.handle_input_event(1, KeyAction::Up);
    assert!(keyboard.is_key_up(1));
    assert!(keyboard.is_key_hold(2));
    assert!(!keyboard.is_key_hold(1));
}

#[test]
fn modifiers_replace_wholesale() {
    let mut keyboard = Keyboard::new(KeyboardConfig::new()).unwrap();
    let m = keyboard.modifiers_state();
    assert!(!m.shift && !m.ctrl && !m.alt && !m.logo);
    keyboard.handle_modifiers_state_change(ModifiersState::new(true, false, true, false));
    let m = keyboard.modifiers_state();
    assert!(m.shift && !m.ctrl && m.alt && !m.logo);
}

#[test]
fn mouse_position_cleared_on_leave() {
    let mut mouse = Mouse::new(MouseConfig::new()).unwrap();
    assert_eq!(mouse.position(), None);
    mouse.handle_enter_window_event();
    mouse.handle_move_event(Vector::new(10, 20));
    assert_eq!(mouse.position(), Some(Vector::new(10, 20)));
    mouse.handle_leave_window_event();
    assert_eq!(mouse.position(), None);
}

#[test]
fn mouse_buttons_follow_key_model() {
    let mut mouse = Mouse::new(MouseConfig::new()).unwrap();
    let rep = mouse.handle_input_event(MouseButton::Left, KeyAction::Down);
    assert!(!rep);
    assert!(mouse.is_button_down(MouseButton::Left));
    assert!(!mouse.is_button_down(MouseButton::Right));
    mouse.clear_states();
    assert!(mouse.is_button_hold(MouseButton::Left));
    mouse.handle_input_event(MouseButton::Left, KeyAction::Up);
    assert!(mouse.is_button_up(MouseButton::Left));
    mouse.clear_states();
    assert!(!mouse.is_button_hold(MouseButton::Left));
}

#[test]
fn mouse_wheel_is_a_frame_edge() {
    let mut mouse = Mouse::new(MouseConfig::new()).unwrap();
    mouse.handle_wheel_scroll_event(Vector::new(0, -3));
    assert_eq!(mouse.wheel_delta(), Vector::new(0, -3));
    mouse.clear_states();
    assert_eq!(mouse.wheel_delta(), Vector::new(0, 0));
}

#[test]
fn touch_entries_follow_phases() {
    let mut touch = Touch::new(TouchConfig::new()).unwrap();
    touch.handle_event(5, TouchPhase::Start, Vector::new(1, 2));
    touch.handle_event(3, TouchPhase::Start, Vector::new(7, 8));
    assert_eq!(touch.position(5), Some(Vector::new(1, 2)));
    touch.handle_event(5, TouchPhase::Move, Vector::new(4, 6));
    assert_eq!(touch.position(5), Some(Vector::new(4, 6)));
    assert_eq!(touch.touches(), vec![3, 5]);
    touch.handle_event(5, TouchPhase::End, Vector::new(4, 6));
    assert_eq!(touch.position(5), None);
    assert_eq!(touch.touches(), vec![3]);
    touch.handle_event(3, TouchPhase::Cancel, Vector::new(0, 0));
    assert_eq!(touch.touches(), Vec::<u64>::new());
}

#[test]
fn touch_ids_enumerate_in_ascending_order() {
    let mut touch = Touch::new(TouchConfig::new()).unwrap();
    touch.handle_event(9, TouchPhase::Start, Vector::new(0, 0));
    touch.handle_event(2, TouchPhase::Start, Vector::new(0, 0));
    touch.handle_event(7, TouchPhase::Start, Vector::new(0, 0));
    assert_eq!(touch.touches(), vec![2, 7, 9]);
}

#[test]
fn touchpad_scroll_is_a_frame_edge_and_pressure_a_level() {
    let mut touchpad = Touchpad::new(TouchpadConfig::new()).unwrap();
    touchpad.handle_scroll_event(Vector::new(3, 4));
    touchpad.handle_press_event(750, 1);
    assert_eq!(touchpad.scroll_delta(), Vector::new(3, 4));
    assert_eq!(touchpad.pressure(), 750);
    assert_eq!(touchpad.click_stage(), 1);
    touchpad.clear_states();
    assert_eq!(touchpad.scroll_delta(), Vector::new(0, 0));
    assert_eq!(touchpad.pressure(), 750);
}

#[test]
fn gamepad_tracks_connections_and_buttons() {
    let mut gamepad = Gamepad::new(GamepadConfig::new()).unwrap();
    assert!(!gamepad.is_connected(0));
    gamepad.handle_connect_event(0);
    gamepad.handle_connect_event(1);
    assert!(gamepad.is_connected(0));
    assert!(gamepad.is_connected(1));
    gamepad.handle_disconnect_event(0);
    assert!(!gamepad.is_connected(0));
    assert!(gamepad.is_connected(1));

    let rep = gamepad.handle_button_input_event(1, GamepadButton::South, KeyAction::Down);
    assert!(!rep);
    assert!(gamepad.is_button_down(1, GamepadButton::South));
    assert!(!gamepad.is_button_down(1, GamepadButton::North));
    assert!(!gamepad.is_button_down(0, GamepadButton::South));
    let rep = gamepad.handle_button_input_event(1, GamepadButton::South, KeyAction::Down);
    assert!(rep);
    assert!(gamepad.is_button_hold(1, GamepadButton::South));
    gamepad.clear_states();
    assert!(gamepad.is_button_hold(1, GamepadButton::South));
    gamepad.handle_button_input_event(1, GamepadButton::South, KeyAction::Up);
    assert!(gamepad.is_button_up(1, GamepadButton::South));
}

#[test]
fn gamepad_analog_values_are_stored() {
    let mut gamepad = Gamepad::new(GamepadConfig::new()).unwrap();
    assert_eq!(gamepad.axis_value(0, GamepadAxis::LeftStickX), None);
    gamepad.handle_axis_change_event(0, GamepadAxis::LeftStickX, -500);
    assert_eq!(gamepad.axis_value(0, GamepadAxis::LeftStickX), Some(-500));
    gamepad.handle_button_change_event(0, GamepadButton::LeftTrigger2, 250);
    assert_eq!(gamepad.button_value(0, GamepadButton::LeftTrigger2), Some(250));
    assert_eq!(gamepad.button_value(0, GamepadButton::RightTrigger2), None);
}
