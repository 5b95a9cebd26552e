use emusim::devices::controller::UnifiedGamepadState;
use emusim::worker::{frame_sleep_nanos, EmulatorCommand, EmulatorLoopState, WorkerAction, TARGET_FRAME_NANOS};

fn gp() -> UnifiedGamepadState {
    UnifiedGamepadState { buttons: 5, left_analog_x: 0, left_analog_y: 0, right_analog_x: 0, right_analog_y: 0 }
}

#[test]
fn load_then_run_until_paused() {
    let mut s = EmulatorLoopState::new();
    assert!(!s.should_run_frame());
    assert_eq!(s.on_command(EmulatorCommand::UpdateGamepad(gp())), WorkerAction::Nothing);
    assert_eq!(s.on_command(EmulatorCommand::Reset), WorkerAction::Nothing);
    let a = s.on_command(EmulatorCommand::LoadCore { core_path: "cores/x.so".to_string(), rom_path: None });
    assert_eq!(a, WorkerAction::LoadCore { core_path: "cores/x.so".to_string(), rom_path: None });
    s.core_load_finished(true);
    assert!(s.should_run_frame());
    assert_eq!(s.on_command(EmulatorCommand::UpdateGamepad(gp())), WorkerAction::ForwardGamepad(gp()));
    assert_eq!(s.on_command(EmulatorCommand::Reset), WorkerAction::ResetCore);
    assert_eq!(s.on_command(EmulatorCommand::Pause), WorkerAction::Nothing);
    assert!(!s.should_run_frame());
    s.on_command(EmulatorCommand::Resume);
    assert!(s.should_run_frame());
    assert_eq!(s.on_command(EmulatorCommand::Stop), WorkerAction::Exit);
}

#[test]
fn failed_load_leaves_no_core() {
    let mut s = EmulatorLoopState::new();
    s.on_command(EmulatorCommand::LoadCore { core_path: "a".to_string(), rom_path: Some("r".to_string()) });
    s.core_load_finished(true);
    s.on_command(EmulatorCommand::LoadCore { core_path: "b".to_string(), rom_path: None });
    assert!(!s.core_loaded);
    s.core_load_finished(false);
    assert!(!s.should_run_frame());
}

#[test]
fn frame_pacing_sleeps_the_rest_of_the_frame() {
    assert_eq!(TARGET_FRAME_NANOS, 16_666_667);
    assert_eq!(frame_sleep_nanos(0), 16_666_667);
    assert_eq!(frame_sleep_nanos(6_666_667), 10_000_000);
    assert_eq!(frame_sleep_nanos(16_666_667), 0);
    assert_eq!(frame_sleep_nanos(40_000_000), 0);
}
