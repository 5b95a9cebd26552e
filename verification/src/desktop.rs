use vstd::prelude::*;
use crate::devices::controller::{
    button_bit, UnifiedGamepadState, AXIS_MAX, RETRO_DEVICE_ID_JOYPAD_A, RETRO_DEVICE_ID_JOYPAD_B,
    RETRO_DEVICE_ID_JOYPAD_DOWN, RETRO_DEVICE_ID_JOYPAD_L, RETRO_DEVICE_ID_JOYPAD_L2,
    RETRO_DEVICE_ID_JOYPAD_LEFT, RETRO_DEVICE_ID_JOYPAD_R, RETRO_DEVICE_ID_JOYPAD_R2,
    RETRO_DEVICE_ID_JOYPAD_RIGHT, RETRO_DEVICE_ID_JOYPAD_SELECT, RETRO_DEVICE_ID_JOYPAD_START,
    RETRO_DEVICE_ID_JOYPAD_UP, RETRO_DEVICE_ID_JOYPAD_X, RETRO_DEVICE_ID_JOYPAD_Y,
};
use crate::room::SelectedConsole;

verus! {

/// How the desktop player is playing.
#[derive(Debug, Clone, Copy, PartialEq, Eq, Structural)]
pub enum DesktopPlayMode {
    /// Walk around the room, grab cables, plug devices, press power switches.
    RoomExploration,
    /// Sit in front of the television; the keyboard is the retro controller.
    GameFocus,
}

/// The keys the desktop controls respond to, by their physical position.
#[derive(Debug, Clone, Copy, PartialEq, Eq, Structural)]
pub enum DesktopKey {
    Tab,
    KeyG,
    Escape,
    ArrowUp,
    ArrowDown,
    ArrowLeft,
    ArrowRight,
    KeyJ,
    KeyZ,
    Space,
    KeyK,
    KeyX,
    KeyU,
    KeyC,
    KeyI,
    KeyV,
    Enter,
    NumpadEnter,
    ShiftLeft,
    ShiftRight,
    Backspace,
    KeyH,
    KeyL,
    KeyO,
    KeyP,
    Digit0,
    Digit1,
    Digit2,
    Digit3,
    Numpad0,
    Numpad1,
    Numpad2,
    Numpad3,
    KeyW,
    KeyA,
    KeyS,
    KeyD,
    KeyE,
    KeyQ,
    /// Any other key.
    Other,
}

/// Mouse buttons.
#[derive(Debug, Clone, Copy, PartialEq, Eq, Structural)]
pub enum DesktopMouseButton {
    Left,
    Right,
    Other,
}

/// Where a key sends the camera.
#[derive(Debug, Clone, Copy, PartialEq, Eq, Structural)]
pub enum CameraPlacement {
    /// The camera stays where it is.
    Unchanged,
    /// Seated in front of the television, looking straight at it.
    SeatedAtTv,
    /// Standing up again at eye height, looking slightly down into the room.
    StandingInRoom,
    /// Stepped back from the television, keeping the direction of view.
    SteppedBack,
}

/// The desktop player's controls: play mode, walking and hand buttons held,
/// a console swap asked for, and the retro controller that the keyboard drives.
#[derive(Debug, Clone, Copy, PartialEq, Eq)]
pub struct DesktopFirstPersonController {
    pub mode: DesktopPlayMode,
    pub move_forward: bool,
    pub move_backward: bool,
    pub move_left: bool,
    pub move_right: bool,
    pub is_interact_pressed: bool,
    pub is_drop_pressed: bool,
    pub switch_to_console: Option<SelectedConsole>,
    pub retro_gamepad: UnifiedGamepadState,
}

/// The RetroPad button a key works in both modes: arrows for the D-pad; J, K,
/// U and I for A, B, X and Y, with X, Z or Space, V and C as alternatives;
/// Enter for Start, Shift/Backspace for Select, H and L for the shoulders, O
/// and P for the triggers.
pub open spec fn pad_button(k: DesktopKey) -> Option<u32> {
    match k {
        DesktopKey::ArrowUp => Some(RETRO_DEVICE_ID_JOYPAD_UP),
        DesktopKey::ArrowDown => Some(RETRO_DEVICE_ID_JOYPAD_DOWN),
        DesktopKey::ArrowLeft => Some(RETRO_DEVICE_ID_JOYPAD_LEFT),
        DesktopKey::ArrowRight => Some(RETRO_DEVICE_ID_JOYPAD_RIGHT),
        DesktopKey::KeyJ | DesktopKey::KeyX => Some(RETRO_DEVICE_ID_JOYPAD_A),
        DesktopKey::KeyK | DesktopKey::KeyZ | DesktopKey::Space => Some(RETRO_DEVICE_ID_JOYPAD_B),
        DesktopKey::KeyU | DesktopKey::KeyV => Some(RETRO_DEVICE_ID_JOYPAD_X),
        DesktopKey::KeyI | DesktopKey::KeyC => Some(RETRO_DEVICE_ID_JOYPAD_Y),
        DesktopKey::Enter | DesktopKey::NumpadEnter => Some(RETRO_DEVICE_ID_JOYPAD_START),
        DesktopKey::ShiftRight | DesktopKey::ShiftLeft | DesktopKey::Backspace => Some(
            RETRO_DEVICE_ID_JOYPAD_SELECT,
        ),
        DesktopKey::KeyH => Some(RETRO_DEVICE_ID_JOYPAD_L),
        DesktopKey::KeyL => Some(RETRO_DEVICE_ID_JOYPAD_R),
        DesktopKey::KeyO => Some(RETRO_DEVICE_ID_JOYPAD_L2),
        DesktopKey::KeyP => Some(RETRO_DEVICE_ID_JOYPAD_R2),
        _ => None,
    }
}

/// The RetroPad button a key works in game focus only: WASD for the D-pad,
/// Q and E for the shoulders.
pub open spec fn focus_pad_button(k: DesktopKey) -> Option<u32> {
    match k {
        DesktopKey::KeyW => Some(RETRO_DEVICE_ID_JOYPAD_UP),
        DesktopKey::KeyS => Some(RETRO_DEVICE_ID_JOYPAD_DOWN),
        DesktopKey::KeyA => Some(RETRO_DEVICE_ID_JOYPAD_LEFT),
        DesktopKey::KeyD => Some(RETRO_DEVICE_ID_JOYPAD_RIGHT),
        DesktopKey::KeyQ => Some(RETRO_DEVICE_ID_JOYPAD_L),
        DesktopKey::KeyE => Some(RETRO_DEVICE_ID_JOYPAD_R),
        _ => None,
    }
}

/// The console a number key swaps in: 1 the Nintendo 64, 2 the PlayStation,
/// 3 the PlayStation 2, 0 none.
pub open spec fn shortcut_console(k: DesktopKey) -> Option<SelectedConsole> {
    match k {
        DesktopKey::Digit1 | DesktopKey::Numpad1 => Some(SelectedConsole::Nintendo64),
        DesktopKey::Digit2 | DesktopKey::Numpad2 => Some(SelectedConsole::PlayStation1),
        DesktopKey::Digit3 | DesktopKey::Numpad3 => Some(SelectedConsole::PlayStation2),
        DesktopKey::Digit0 | DesktopKey::Numpad0 => Some(SelectedConsole::Unwired),
        _ => None,
    }
}

/// The button mask with button `b` held or released.
pub open spec fn with_button(mask: u32, b: u32, held: bool) -> u32 {
    if held {
        mask | (1u32 << b)
    } else {
        mask & !(1u32 << b)
    }
}

/// The gamepad after button `b` is pressed or released. The D-pad directions
/// also push the left stick fully that way, and let it go on release.
pub open spec fn pad_pressed(gp: UnifiedGamepadState, b: u32, pressed: bool) -> UnifiedGamepadState {
    let gp = UnifiedGamepadState { buttons: with_button(gp.buttons, b, pressed), ..gp };
    if b == RETRO_DEVICE_ID_JOYPAD_UP {
        UnifiedGamepadState { left_analog_y: if pressed { (-AXIS_MAX) as i16 } else { 0 }, ..gp }
    } else if b == RETRO_DEVICE_ID_JOYPAD_DOWN {
        UnifiedGamepadState { left_analog_y: if pressed { AXIS_MAX } else { 0 }, ..gp }
    } else if b == RETRO_DEVICE_ID_JOYPAD_LEFT {
        UnifiedGamepadState { left_analog_x: if pressed { (-AXIS_MAX) as i16 } else { 0 }, ..gp }
    } else if b == RETRO_DEVICE_ID_JOYPAD_RIGHT {
        UnifiedGamepadState { left_analog_x: if pressed { AXIS_MAX } else { 0 }, ..gp }
    } else {
        gp
    }
}

/// Walking and hand keys of room exploration: WASD walk, E interacts, Q drops.
pub open spec fn exploring_key(
    c: DesktopFirstPersonController,
    k: DesktopKey,
    pressed: bool,
) -> DesktopFirstPersonController {
    match k {
        DesktopKey::KeyW => DesktopFirstPersonController { move_forward: pressed, ..c },
        DesktopKey::KeyS => DesktopFirstPersonController { move_backward: pressed, ..c },
        DesktopKey::KeyA => DesktopFirstPersonController { move_left: pressed, ..c },
        DesktopKey::KeyD => DesktopFirstPersonController { move_right: pressed, ..c },
        DesktopKey::KeyE => DesktopFirstPersonController { is_interact_pressed: pressed, ..c },
        DesktopKey::KeyQ => DesktopFirstPersonController { is_drop_pressed: pressed, ..c },
        _ => c,
    }
}

/// The controls after key `k` goes down (`pressed`) or up, and where the
/// camera goes. In order: Tab or G, pressed, toggles game focus; Escape,
/// pressed in game focus, leaves it; a retro button key works the gamepad;
/// a number key, pressed, asks for a console swap; what is left goes by mode.
pub open spec fn key_outcome(c: DesktopFirstPersonController, k: DesktopKey, pressed: bool) -> (
    DesktopFirstPersonController,
    CameraPlacement,
) {
    if pressed && (k == DesktopKey::Tab || k == DesktopKey::KeyG) {
        match c.mode {
            DesktopPlayMode::RoomExploration => (
                DesktopFirstPersonController { mode: DesktopPlayMode::GameFocus, ..c },
                CameraPlacement::SeatedAtTv,
            ),
            DesktopPlayMode::GameFocus => (
                DesktopFirstPersonController { mode: DesktopPlayMode::RoomExploration, ..c },
                CameraPlacement::StandingInRoom,
            ),
        }
    } else if pressed && k == DesktopKey::Escape && c.mode == DesktopPlayMode::GameFocus {
        (
            DesktopFirstPersonController { mode: DesktopPlayMode::RoomExploration, ..c },
            CameraPlacement::SteppedBack,
        )
    } else {
        match pad_button(k) {
            Some(b) => (
                DesktopFirstPersonController { retro_gamepad: pad_pressed(c.retro_gamepad, b, pressed), ..c },
                CameraPlacement::Unchanged,
            ),
            None => if pressed && shortcut_console(k) is Some {
                (
                    DesktopFirstPersonController { switch_to_console: shortcut_console(k), ..c },
                    CameraPlacement::Unchanged,
                )
            } else {
                match c.mode {
                    DesktopPlayMode::RoomExploration => (exploring_key(c, k, pressed), CameraPlacement::Unchanged),
                    DesktopPlayMode::GameFocus => match focus_pad_button(k) {
                        Some(b) => (
                            DesktopFirstPersonController {
                                retro_gamepad: pad_pressed(c.retro_gamepad, b, pressed),
                                ..c
                            },
                            CameraPlacement::Unchanged,
                        ),
                        None => (c, CameraPlacement::Unchanged),
                    },
                }
            },
        }
    }
}

fn press_pad(gp: &mut UnifiedGamepadState, b: u32, pressed: bool)
    requires
        b < 32,
    ensures
        *final(gp) == pad_pressed(*old(gp), b, pressed),
{
    if pressed {
        gp.buttons = gp.buttons | (1u32 << b);
    } else {
        gp.buttons = gp.buttons & !(1u32 << b);
    }
    if b == RETRO_DEVICE_ID_JOYPAD_UP {
        gp.left_analog_y = if pressed { -AXIS_MAX } else { 0 };
    } else if b == RETRO_DEVICE_ID_JOYPAD_DOWN {
        gp.left_analog_y = if pressed { AXIS_MAX } else { 0 };
    } else if b == RETRO_DEVICE_ID_JOYPAD_LEFT {
        gp.left_analog_x = if pressed { -AXIS_MAX } else { 0 };
    } else if b == RETRO_DEVICE_ID_JOYPAD_RIGHT {
        gp.left_analog_x = if pressed { AXIS_MAX } else { 0 };
    }
}

fn pad_button_of(k: DesktopKey) -> (r: Option<u32>)
    ensures
        r == pad_button(k),
{
    match k {
        DesktopKey::ArrowUp => Some(RETRO_DEVICE_ID_JOYPAD_UP),
        DesktopKey::ArrowDown => Some(RETRO_DEVICE_ID_JOYPAD_DOWN),
        DesktopKey::ArrowLeft => Some(RETRO_DEVICE_ID_JOYPAD_LEFT),
        DesktopKey::ArrowRight => Some(RETRO_DEVICE_ID_JOYPAD_RIGHT),
        DesktopKey::KeyJ | DesktopKey::KeyX => Some(RETRO_DEVICE_ID_JOYPAD_A),
        DesktopKey::KeyK | DesktopKey::KeyZ | DesktopKey::Space => Some(RETRO_DEVICE_ID_JOYPAD_B),
        DesktopKey::KeyU | DesktopKey::KeyV => Some(RETRO_DEVICE_ID_JOYPAD_X),
        DesktopKey::KeyI | DesktopKey::KeyC => Some(RETRO_DEVICE_ID_JOYPAD_Y),
        DesktopKey::Enter | DesktopKey::NumpadEnter => Some(RETRO_DEVICE_ID_JOYPAD_START),
        DesktopKey::ShiftRight | DesktopKey::ShiftLeft | DesktopKey::Backspace => Some(
            RETRO_DEVICE_ID_JOYPAD_SELECT,
        ),
        DesktopKey::KeyH => Some(RETRO_DEVICE_ID_JOYPAD_L),
        DesktopKey::KeyL => Some(RETRO_DEVICE_ID_JOYPAD_R),
        DesktopKey::KeyO => Some(RETRO_DEVICE_ID_JOYPAD_L2),
        DesktopKey::KeyP => Some(RETRO_DEVICE_ID_JOYPAD_R2),
        _ => None,
    }
}

fn focus_pad_button_of(k: DesktopKey) -> (r: Option<u32>)
    ensures
        r == focus_pad_button(k),
{
    match k {
        DesktopKey::KeyW => Some(RETRO_DEVICE_ID_JOYPAD_UP),
        DesktopKey::KeyS => Some(RETRO_DEVICE_ID_JOYPAD_DOWN),
        DesktopKey::KeyA => Some(RETRO_DEVICE_ID_JOYPAD_LEFT),
        DesktopKey::KeyD => Some(RETRO_DEVICE_ID_JOYPAD_RIGHT),
        DesktopKey::KeyQ => Some(RETRO_DEVICE_ID_JOYPAD_L),
        DesktopKey::KeyE => Some(RETRO_DEVICE_ID_JOYPAD_R),
        _ => None,
    }
}

fn shortcut_console_of(k: DesktopKey) -> (r: Option<SelectedConsole>)
    ensures
        r == shortcut_console(k),
{
    match k {
        DesktopKey::Digit1 | DesktopKey::Numpad1 => Some(SelectedConsole::Nintendo64),
        DesktopKey::Digit2 | DesktopKey::Numpad2 => Some(SelectedConsole::PlayStation1),
        DesktopKey::Digit3 | DesktopKey::Numpad3 => Some(SelectedConsole::PlayStation2),
        DesktopKey::Digit0 | DesktopKey::Numpad0 => Some(SelectedConsole::Unwired),
        _ => None,
    }
}

impl DesktopFirstPersonController {
    /// Exploring the room, nothing held, no swap asked for, gamepad at rest.
    pub fn new() -> (r: Self)
        ensures
            r.mode == DesktopPlayMode::RoomExploration,
            !r.move_forward && !r.move_backward && !r.move_left && !r.move_right,
            !r.is_interact_pressed && !r.is_drop_pressed,
            r.switch_to_console is None,
            r.retro_gamepad == (UnifiedGamepadState {
                buttons: 0,
                left_analog_x: 0,
                left_analog_y: 0,
                right_analog_x: 0,
                right_analog_y: 0,
            }),
    {
        DesktopFirstPersonController {
            mode: DesktopPlayMode::RoomExploration,
            move_forward: false,
            move_backward: false,
            move_left: false,
            move_right: false,
            is_interact_pressed: false,
            is_drop_pressed: false,
            switch_to_console: None,
            retro_gamepad: UnifiedGamepadState {
                buttons: 0,
                left_analog_x: 0,
                left_analog_y: 0,
                right_analog_x: 0,
                right_analog_y: 0,
            },
        }
    }

    /// Left button interacts, right button drops, while held.
    pub fn handle_mouse_button(&mut self, button: DesktopMouseButton, pressed: bool)
        ensures
            *final(self) == match button {
                DesktopMouseButton::Left => DesktopFirstPersonController { is_interact_pressed: pressed, ..*old(self) },
                DesktopMouseButton::Right => DesktopFirstPersonController { is_drop_pressed: pressed, ..*old(self) },
                DesktopMouseButton::Other => *old(self),
            },
    {
        match button {
            DesktopMouseButton::Left => {
                self.is_interact_pressed = pressed;
            },
            DesktopMouseButton::Right => {
                self.is_drop_pressed = pressed;
            },
            DesktopMouseButton::Other => {},
        }
    }

    /// Takes a key going down (`pressed`) or up, and tells where the camera goes.
    pub fn handle_keyboard_input(&mut self, key: DesktopKey, pressed: bool) -> (camera: CameraPlacement)
        ensures
            (*final(self), camera) == key_outcome(*old(self), key, pressed),
    {
        if pressed && (key == DesktopKey::Tab || key == DesktopKey::KeyG) {
            match self.mode {
                DesktopPlayMode::RoomExploration => {
                    self.mode = DesktopPlayMode::GameFocus;
                    return CameraPlacement::SeatedAtTv;
                },
                DesktopPlayMode::GameFocus => {
                    self.mode = DesktopPlayMode::RoomExploration;
                    return CameraPlacement::StandingInRoom;
                },
            }
        }
        if pressed && key == DesktopKey::Escape && self.mode == DesktopPlayMode::GameFocus {
            self.mode = DesktopPlayMode::RoomExploration;
            return CameraPlacement::SteppedBack;
        }
        match pad_button_of(key) {
            Some(b) => {
                press_pad(&mut self.retro_gamepad, b, pressed);
                return CameraPlacement::Unchanged;
            },
            None => {},
        }
        if pressed {
            match shortcut_console_of(key) {
                Some(c) => {
                    self.switch_to_console = Some(c);
                    return CameraPlacement::Unchanged;
                },
                None => {},
            }
        }
        match self.mode {
            DesktopPlayMode::RoomExploration => {
                match key {
                    DesktopKey::KeyW => {
                        self.move_forward = pressed;
                    },
                    DesktopKey::KeyS => {
                        self.move_backward = pressed;
                    },
                    DesktopKey::KeyA => {
                        self.move_left = pressed;
                    },
                    DesktopKey::KeyD => {
                        self.move_right = pressed;
                    },
                    DesktopKey::KeyE => {
                        self.is_interact_pressed = pressed;
                    },
                    DesktopKey::KeyQ => {
                        self.is_drop_pressed = pressed;
                    },
                    _ => {},
                }
            },
            DesktopPlayMode::GameFocus => {
                match focus_pad_button_of(key) {
                    Some(b) => {
                        press_pad(&mut self.retro_gamepad, b, pressed);
                    },
                    None => {},
                }
            },
        }
        CameraPlacement::Unchanged
    }
}

/// Tab (or G) pressed twice returns to the mode it started in: into game
/// focus seated at the television, and back into the room standing up.
pub proof fn lemma_focus_toggle_twice(c: DesktopFirstPersonController, k: DesktopKey)
    requires
        k == DesktopKey::Tab || k == DesktopKey::KeyG,
    ensures
        ({
            let (once, cam1) = key_outcome(c, k, true);
            let (twice, cam2) = key_outcome(once, k, true);
            &&& once.mode != c.mode
            &&& twice == c
            &&& (c.mode == DesktopPlayMode::RoomExploration ==> cam1 == CameraPlacement::SeatedAtTv
                && cam2 == CameraPlacement::StandingInRoom)
        }),
{
}

proof fn lemma_with_button_restores(mask: u32, b: u32)
    requires
        b < 32,
        !button_bit(mask, b),
    ensures
        with_button(with_button(mask, b, true), b, false) == mask,
        button_bit(with_button(mask, b, true), b),
{
    assert(((mask | (1u32 << b)) & !(1u32 << b)) == mask && ((mask | (1u32 << b)) >> b) & 1u32 == 1u32)
        by (bit_vector)
        requires
            b < 32,
            (mask >> b) & 1u32 != 1u32,
    ;
}

/// Pressing a retro button key holds its button, and letting it go gives back
/// the button mask there was, when the button was not held before; a D-pad
/// key's stick deflection goes back to rest. The other controls are untouched.
pub proof fn lemma_press_release(c: DesktopFirstPersonController, k: DesktopKey)
    requires
        pad_button(k) is Some,
        !button_bit(c.retro_gamepad.buttons, pad_button(k)->0),
    ensures
        ({
            let (down, _) = key_outcome(c, k, true);
            let (up, cam) = key_outcome(down, k, false);
            &&& button_bit(down.retro_gamepad.buttons, pad_button(k)->0)
            &&& up.retro_gamepad.buttons == c.retro_gamepad.buttons
            &&& up.retro_gamepad.right_analog_x == c.retro_gamepad.right_analog_x
            &&& up.retro_gamepad.right_analog_y == c.retro_gamepad.right_analog_y
            &&& up.mode == c.mode
            &&& up.switch_to_console == c.switch_to_console
            &&& cam == CameraPlacement::Unchanged
        }),
{
    lemma_with_button_restores(c.retro_gamepad.buttons, pad_button(k)->0);
}

/// Pressing a D-pad key pushes the left stick fully that way: down to
/// +32767 and up to -32767 vertically, right to +32767 and left to -32767
/// horizontally (in game focus WASD too); letting go centres that axis. The
/// other axis of the left stick is left as it was.
pub proof fn lemma_dpad_deflection(c: DesktopFirstPersonController, k: DesktopKey, pressed: bool)
    requires
        !(pressed && (k == DesktopKey::Tab || k == DesktopKey::KeyG || k == DesktopKey::Escape)),
    ensures
        ({
            let g = key_outcome(c, k, pressed).0.retro_gamepad;
            let down = k == DesktopKey::ArrowDown || (c.mode == DesktopPlayMode::GameFocus && k == DesktopKey::KeyS);
            let up = k == DesktopKey::ArrowUp || (c.mode == DesktopPlayMode::GameFocus && k == DesktopKey::KeyW);
            let left = k == DesktopKey::ArrowLeft || (c.mode == DesktopPlayMode::GameFocus && k == DesktopKey::KeyA);
            let right = k == DesktopKey::ArrowRight || (c.mode == DesktopPlayMode::GameFocus && k
                == DesktopKey::KeyD);
            &&& down ==> g.left_analog_y == (if pressed { 32767int } else { 0int })
                && g.left_analog_x == c.retro_gamepad.left_analog_x
            &&& up ==> g.left_analog_y == (if pressed { -32767int } else { 0int })
                && g.left_analog_x == c.retro_gamepad.left_analog_x
            &&& right ==> g.left_analog_x == (if pressed { 32767int } else { 0int })
                && g.left_analog_y == c.retro_gamepad.left_analog_y
            &&& left ==> g.left_analog_x == (if pressed { -32767int } else { 0int })
                && g.left_analog_y == c.retro_gamepad.left_analog_y
        }),
{
}

} // verus!
