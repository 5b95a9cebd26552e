use vstd::prelude::*;
use crate::devices::controller::UnifiedGamepadState;

verus! {

/// A request to the emulator worker.
#[derive(Debug, Clone, PartialEq, Eq)]
pub enum EmulatorCommand {
    /// Replace the running core by the core library at `core_path`, booted
    /// with the ROM at `rom_path`, or with no game (its BIOS) when there is none.
    LoadCore { core_path: String, rom_path: Option<String> },
    UpdateGamepad(UnifiedGamepadState),
    Reset,
    Pause,
    Resume,
    Stop,
}

/// What the worker does in answer to a command.
#[derive(Debug, Clone, PartialEq, Eq)]
pub enum WorkerAction {
    /// Drop the running core, then load the core library and boot it.
    LoadCore { core_path: String, rom_path: Option<String> },
    /// Hand the gamepad state to the running core.
    ForwardGamepad(UnifiedGamepadState),
    /// Reset the running core.
    ResetCore,
    /// Leave the worker loop.
    Exit,
    /// Nothing to do outside the worker's own state.
    Nothing,
}

/// Time one emulated frame takes at 60 frames a second, in nanoseconds.
pub const TARGET_FRAME_NANOS: u64 = 16_666_667;

/// The worker's decided state: whether emulation is paused, and whether a
/// core is loaded and running a game.
#[derive(Debug, Clone, Copy, PartialEq, Eq)]
pub struct EmulatorLoopState {
    pub paused: bool,
    pub core_loaded: bool,
}

/// The state after a command, and the action the command asks for.
pub open spec fn command_effect(s: EmulatorLoopState, cmd: EmulatorCommand) -> (EmulatorLoopState, WorkerAction) {
    match cmd {
        EmulatorCommand::LoadCore { core_path, rom_path } => (
            EmulatorLoopState { core_loaded: false, ..s },
            WorkerAction::LoadCore { core_path, rom_path },
        ),
        EmulatorCommand::UpdateGamepad(gp) => (
            s,
            if s.core_loaded {
                WorkerAction::ForwardGamepad(gp)
            } else {
                WorkerAction::Nothing
            },
        ),
        EmulatorCommand::Reset => (
            s,
            if s.core_loaded {
                WorkerAction::ResetCore
            } else {
                WorkerAction::Nothing
            },
        ),
        EmulatorCommand::Pause => (EmulatorLoopState { paused: true, ..s }, WorkerAction::Nothing),
        EmulatorCommand::Resume => (EmulatorLoopState { paused: false, ..s }, WorkerAction::Nothing),
        EmulatorCommand::Stop => (s, WorkerAction::Exit),
    }
}

impl EmulatorLoopState {
    /// A worker that has just started: running, with no core.
    pub fn new() -> (r: Self)
        ensures
            !r.paused,
            !r.core_loaded,
    {
        EmulatorLoopState { paused: false, core_loaded: false }
    }

    /// Takes one command. Loading a core drops the running one first; the
    /// gamepad and reset go to a running core only; pausing and resuming only
    /// change whether frames are run.
    pub fn on_command(&mut self, cmd: EmulatorCommand) -> (action: WorkerAction)
        ensures
            (*final(self), action) == command_effect(*old(self), cmd),
    {
        match cmd {
            EmulatorCommand::LoadCore { core_path, rom_path } => {
                self.core_loaded = false;
                WorkerAction::LoadCore { core_path, rom_path }
            },
            EmulatorCommand::UpdateGamepad(gp) => {
                if self.core_loaded {
                    WorkerAction::ForwardGamepad(gp)
                } else {
                    WorkerAction::Nothing
                }
            },
            EmulatorCommand::Reset => {
                if self.core_loaded {
                    WorkerAction::ResetCore
                } else {
                    WorkerAction::Nothing
                }
            },
            EmulatorCommand::Pause => {
                self.paused = true;
                WorkerAction::Nothing
            },
            EmulatorCommand::Resume => {
                self.paused = false;
                WorkerAction::Nothing
            },
            EmulatorCommand::Stop => WorkerAction::Exit,
        }
    }

    /// Records how loading a core and booting its game ended: only a core that
    /// booted stays loaded.
    pub fn core_load_finished(&mut self, booted: bool)
        ensures
            *final(self) == (EmulatorLoopState { core_loaded: booted, ..*old(self) }),
    {
        self.core_loaded = booted;
    }

    /// Whether a frame is emulated in this turn of the loop.
    pub fn should_run_frame(&self) -> (r: bool)
        ensures
            r == (!self.paused && self.core_loaded),
    {
        !self.paused && self.core_loaded
    }
}

/// How long to sleep after a turn of the loop that took `elapsed_nanos`, to
/// keep to 60 frames a second; a turn that overran does not sleep.
pub fn frame_sleep_nanos(elapsed_nanos: u64) -> (r: u64)
    ensures
        elapsed_nanos < TARGET_FRAME_NANOS ==> r == TARGET_FRAME_NANOS - elapsed_nanos,
        elapsed_nanos >= TARGET_FRAME_NANOS ==> r == 0,
{
    if elapsed_nanos < TARGET_FRAME_NANOS {
        TARGET_FRAME_NANOS - elapsed_nanos
    } else {
        0
    }
}

/// Pausing stops frames, and resuming after a pause runs them again exactly
/// when a core is loaded; neither touches the loaded core.
pub proof fn lemma_pause_resume(s: EmulatorLoopState)
    ensures
        ({
            let paused = command_effect(s, EmulatorCommand::Pause).0;
            let resumed = command_effect(paused, EmulatorCommand::Resume).0;
            &&& paused.paused
            &&& paused.core_loaded == s.core_loaded
            &&& (!resumed.paused && resumed.core_loaded) == s.core_loaded
        }),
{
}

/// A stop request is obeyed in every state and changes nothing else.
pub proof fn lemma_stop_exits(s: EmulatorLoopState)
    ensures
        command_effect(s, EmulatorCommand::Stop).1 is Exit,
        command_effect(s, EmulatorCommand::Stop).0 == s,
{
}

/// Loading a core leaves no core running until the load is reported: gamepad
/// input and resets sent in between go nowhere.
pub proof fn lemma_load_drops_core(s: EmulatorLoopState, core_path: String, rom_path: Option<String>, gp: UnifiedGamepadState)
    ensures
        ({
            let loading = command_effect(s, EmulatorCommand::LoadCore { core_path, rom_path }).0;
            &&& !loading.core_loaded
            &&& command_effect(loading, EmulatorCommand::UpdateGamepad(gp)).1 is Nothing
            &&& command_effect(loading, EmulatorCommand::Reset).1 is Nothing
        }),
{
}

} // verus!
