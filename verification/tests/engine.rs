use tge::engine::{Engine, EngineBuilder, EngineState};
use tge::error::GameError;
use tge::event::{Event, KeyAction, TouchPhase};
use tge::fullscreen::preferred_video_mode_index;
use tge::math::{Size, Vector};
use tge::timer::TimerConfig;
use tge::window::WindowConfig;

fn fresh() -> Engine {
    EngineBuilder::new().build().unwrap()
}

#[test]
fn quit_during_running_finishes_and_rerun_is_rejected() {
    let mut engine = fresh();
    assert_eq!(engine.state(), EngineState::Ready);
    engine.begin_run().unwrap();
    assert_eq!(engine.state(), EngineState::Running);
    assert!(engine.is_running());

    engine.quit();
    assert_eq!(engine.state(), EngineState::Finished);
    assert!(!engine.is_running());
    engine.finish_run().unwrap();

    match engine.begin_run() {
        Err(GameError::StateError(_)) => (),
        _ => panic!("running a finished engine must be a state-contract error"),
    }
    assert_eq!(engine.state(), EngineState::Finished);
}

#[test]
fn exit_records_the_error_and_run_surfaces_it() {
    let mut engine = fresh();
    engine.begin_run().unwrap();
    engine.exit(GameError::RuntimeError("callback failed".to_owned()));
    assert_eq!(engine.state(), EngineState::Broken);
    // A later quit or exit is a no-op on a terminal machine.
    engine.quit();
    engine.exit(GameError::RuntimeError("later".to_owned()));
    assert_eq!(engine.state(), EngineState::Broken);
    match engine.finish_run() {
        Err(GameError::RuntimeError(m)) => assert_eq!(m, "callback failed"),
        _ => panic!("the recorded error must surface"),
    }
}

#[test]
fn a_broken_engine_surfaces_its_error_only_once() {
    let mut engine = fresh();
    engine.begin_run().unwrap();
    engine.exit(GameError::IoError("asset missing".to_owned()));
    match engine.finish_run() {
        Err(GameError::IoError(m)) => assert_eq!(m, "asset missing"),
        _ => panic!("the recorded error must surface"),
    }
    // The error was taken out; a second finish finds none to report.
    match engine.finish_run() {
        Err(GameError::RuntimeError(_)) => (),
        _ => panic!("a broken engine with no recorded error reports a runtime failure"),
    }
}

#[test]
fn keyboard_event_carries_the_repeat_flag() {
    let mut engine = fresh();
    let e = Event::KeyboardInput { key: 17, action: KeyAction::Down, repeated: false };
    let out = engine.apply_event(&e);
    assert_eq!(out, Event::KeyboardInput { key: 17, action: KeyAction::Down, repeated: false });
    let out = engine.apply_event(&e);
    assert_eq!(out, Event::KeyboardInput { key: 17, action: KeyAction::Down, repeated: true });
    assert!(engine.keyboard.is_key_hold(17));
}

#[test]
fn events_route_to_their_subsystems() {
    let mut engine = fresh();
    engine.apply_event(&Event::MouseMove(Vector::new(3, 4)));
    assert_eq!(engine.mouse.position(), Some(Vector::new(3, 4)));

    engine.apply_event(&Event::Touch { id: 2, phase: TouchPhase::Start, position: Vector::new(5, 6) });
    assert_eq!(engine.touch.position(2), Some(Vector::new(5, 6)));

    engine.apply_event(&Event::WindowResize(Size::new(640, 480)));
    assert_eq!(engine.graphics.screen_size(), Size::new(640, 480));

    engine.apply_event(&Event::AppSuspend);
    assert!(engine.audio.is_suspended());
    engine.apply_event(&Event::AppResume);
    assert!(!engine.audio.is_suspended());

    engine.apply_event(&Event::GamepadConnect(0));
    assert!(engine.gamepad.is_connected(0));
}

#[test]
fn end_frame_collapses_the_input_edges() {
    let mut engine = fresh();
    engine.apply_event(&Event::KeyboardInput { key: 9, action: KeyAction::Down, repeated: false });
    assert!(engine.keyboard.is_key_down(9));
    engine.end_frame();
    assert!(!engine.keyboard.is_key_down(9));
    assert!(engine.keyboard.is_key_hold(9));
}

#[test]
fn builder_defaults_give_a_sixty_hertz_ready_engine() {
    let engine = fresh();
    assert_eq!(engine.state(), EngineState::Ready);
    assert_eq!(engine.timer.interval_ns(), 16_666_666);
    assert_eq!(engine.graphics.transform_depth(), 1);
}

#[test]
fn builder_rejects_a_zero_target_rate() {
    let r = EngineBuilder::new().timer_config(TimerConfig::new().target_rate(Some(0))).build();
    match r {
        Err(GameError::InitError(_)) => (),
        _ => panic!("a zero target rate must fail the build"),
    }
}

#[test]
fn window_state_follows_resize_and_focus() {
    let mut engine = EngineBuilder::new()
        .window_config(WindowConfig::new().size(Size::new(320, 240)).resizable(false))
        .build()
        .unwrap();
    assert_eq!(engine.window.logical_size(), Size::new(320, 240));
    assert!(!engine.window.is_focused());
    engine.apply_event(&Event::WindowFocusChange(true));
    assert!(engine.window.is_focused());
    engine.apply_event(&Event::WindowResize(Size::new(640, 480)));
    assert_eq!(engine.window.logical_size(), Size::new(640, 480));
    assert_eq!(engine.graphics.screen_size(), Size::new(640, 480));
    engine.apply_event(&Event::WindowFocusChange(false));
    assert!(!engine.window.is_focused());
}

#[test]
fn preferred_video_mode_takes_the_earliest_largest() {
    assert_eq!(preferred_video_mode_index(&vec![]), None);
    assert_eq!(preferred_video_mode_index(&vec![(640, 480)]), Some(0));
    assert_eq!(preferred_video_mode_index(&vec![(640, 480), (1920, 1080), (1280, 720)]), Some(1));
    // Ties keep the earliest.
    assert_eq!(
        preferred_video_mode_index(&vec![(100, 100), (200, 200), (400, 100), (200, 200)]),
        Some(1)
    );
}

#[test]
fn error_messages_are_readable() {
    let e = GameError::StateError("engine cannot run in this state".to_owned());
    assert_eq!(e.message(), "engine cannot run in this state");
}
