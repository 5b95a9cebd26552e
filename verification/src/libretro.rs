use vstd::prelude::*;
use crate::devices::controller::{button_bit, UnifiedGamepadState};
use crate::framebuffer::{bytes_per_pixel, source_extent, RETRO_PIXEL_FORMAT_0RGB1555,
    RETRO_PIXEL_FORMAT_RGB565, RETRO_PIXEL_FORMAT_XRGB8888};

verus! {

/// Version of the libretro API that the frontend speaks.
pub const RETRO_API_VERSION: u32 = 1;

/// Environment command: the core reports whether it may hand back a frame twice.
pub const RETRO_ENVIRONMENT_GET_CAN_DUPE: u32 = 3;
/// Environment command: the core chooses the pixel format of its frames.
pub const RETRO_ENVIRONMENT_SET_PIXEL_FORMAT: u32 = 10;
/// Environment command: the core asks for the value of one of its options.
pub const RETRO_ENVIRONMENT_GET_VARIABLE: u32 = 15;

/// Input device: no device.
pub const RETRO_DEVICE_NONE: u32 = 0;
/// Input device: the RetroPad, with buttons by id.
pub const RETRO_DEVICE_JOYPAD: u32 = 1;
/// Input device: a mouse.
pub const RETRO_DEVICE_MOUSE: u32 = 2;
/// Input device: a keyboard.
pub const RETRO_DEVICE_KEYBOARD: u32 = 3;
/// Input device: a light gun.
pub const RETRO_DEVICE_LIGHTGUN: u32 = 4;
/// Input device: the analog sticks of a RetroPad.
pub const RETRO_DEVICE_ANALOG: u32 = 5;
/// Input device: a pointer or touch screen.
pub const RETRO_DEVICE_POINTER: u32 = 6;

/// Analog index of the left stick.
pub const RETRO_DEVICE_INDEX_ANALOG_LEFT: u32 = 0;
/// Analog index of the right stick.
pub const RETRO_DEVICE_INDEX_ANALOG_RIGHT: u32 = 1;
/// Analog index of the analog buttons.
pub const RETRO_DEVICE_INDEX_ANALOG_BUTTON: u32 = 2;
/// Analog axis id: horizontal.
pub const RETRO_DEVICE_ID_ANALOG_X: u32 = 0;
/// Analog axis id: vertical.
pub const RETRO_DEVICE_ID_ANALOG_Y: u32 = 1;

/// The value a core reads for input `id` of `device` (sub-device `index`) on
/// `port`: only the first port is connected; on the RetroPad a held button
/// reads 1 and a released one 0; on the analog device each stick axis reads
/// its deflection; everything else reads 0.
pub open spec fn input_value(gp: UnifiedGamepadState, port: u32, device: u32, index: u32, id: u32) -> i16 {
    if port != 0 {
        0
    } else if device == RETRO_DEVICE_JOYPAD {
        if button_bit(gp.buttons, id) {
            1
        } else {
            0
        }
    } else if device == RETRO_DEVICE_ANALOG {
        if index == RETRO_DEVICE_INDEX_ANALOG_LEFT && id == RETRO_DEVICE_ID_ANALOG_X {
            gp.left_analog_x
        } else if index == RETRO_DEVICE_INDEX_ANALOG_LEFT && id == RETRO_DEVICE_ID_ANALOG_Y {
            gp.left_analog_y
        } else if index == RETRO_DEVICE_INDEX_ANALOG_RIGHT && id == RETRO_DEVICE_ID_ANALOG_X {
            gp.right_analog_x
        } else if index == RETRO_DEVICE_INDEX_ANALOG_RIGHT && id == RETRO_DEVICE_ID_ANALOG_Y {
            gp.right_analog_y
        } else {
            0
        }
    } else {
        0
    }
}

/// Answers a core's input query from the current gamepad state.
pub fn input_state(gp: &UnifiedGamepadState, port: u32, device: u32, index: u32, id: u32) -> (r: i16)
    requires
        port == 0 && device == RETRO_DEVICE_JOYPAD ==> id < 32,
    ensures
        r == input_value(*gp, port, device, index, id),
{
    if port != 0 {
        return 0;
    }
    if device == RETRO_DEVICE_JOYPAD {
        let mask: u32 = gp.buttons;
        let held: bool = (mask & (1u32 << id)) != 0;
        assert(held == button_bit(mask, id)) by (bit_vector)
            requires
                id < 32,
                held == ((mask & (1u32 << id)) != 0),
        ;
        if held {
            1
        } else {
            0
        }
    } else if device == RETRO_DEVICE_ANALOG {
        if index == RETRO_DEVICE_INDEX_ANALOG_LEFT && id == RETRO_DEVICE_ID_ANALOG_X {
            gp.left_analog_x
        } else if index == RETRO_DEVICE_INDEX_ANALOG_LEFT && id == RETRO_DEVICE_ID_ANALOG_Y {
            gp.left_analog_y
        } else if index == RETRO_DEVICE_INDEX_ANALOG_RIGHT && id == RETRO_DEVICE_ID_ANALOG_X {
            gp.right_analog_x
        } else if index == RETRO_DEVICE_INDEX_ANALOG_RIGHT && id == RETRO_DEVICE_ID_ANALOG_Y {
            gp.right_analog_y
        } else {
            0
        }
    } else {
        0
    }
}

/// What the frontend does for an environment command from a core.
#[derive(Debug, Clone, Copy, PartialEq, Eq, Structural)]
pub enum EnvironmentAction {
    /// Take the pixel format that the data points to.
    StorePixelFormat,
    /// Write `true` where the data points: frames may be handed back twice.
    ReportCanDupe,
    /// The command is not supported, or came without data.
    Decline,
}

/// The action for environment command `cmd`; `has_data` says whether the
/// command came with a data pointer. Only setting the pixel format and the
/// frame-duplication query are served, and only with data.
pub open spec fn environment_action(cmd: u32, has_data: bool) -> EnvironmentAction {
    if cmd == RETRO_ENVIRONMENT_SET_PIXEL_FORMAT && has_data {
        EnvironmentAction::StorePixelFormat
    } else if cmd == RETRO_ENVIRONMENT_GET_CAN_DUPE && has_data {
        EnvironmentAction::ReportCanDupe
    } else {
        EnvironmentAction::Decline
    }
}

/// Decides how to answer an environment command.
pub fn environment_request(cmd: u32, has_data: bool) -> (r: EnvironmentAction)
    ensures
        r == environment_action(cmd, has_data),
{
    if cmd == RETRO_ENVIRONMENT_SET_PIXEL_FORMAT {
        if has_data {
            EnvironmentAction::StorePixelFormat
        } else {
            EnvironmentAction::Decline
        }
    } else if cmd == RETRO_ENVIRONMENT_GET_CAN_DUPE {
        if has_data {
            EnvironmentAction::ReportCanDupe
        } else {
            EnvironmentAction::Decline
        }
    } else {
        EnvironmentAction::Decline
    }
}

/// Whether the environment call succeeded: the value handed back to the core.
pub fn environment_accepted(action: EnvironmentAction) -> (r: bool)
    ensures
        r == (action != EnvironmentAction::Decline),
{
    match action {
        EnvironmentAction::Decline => false,
        _ => true,
    }
}

/// How many bytes of a core's frame buffer the frame occupies, so that the
/// frame can be read; `None` when that does not fit in memory.
pub fn frame_source_len(width: u32, height: u32, pitch: usize, pixel_format: u32) -> (r: Option<usize>)
    ensures
        match r {
            Some(n) => n == source_extent(width as int, height as int, pitch as int, pixel_format),
            None => source_extent(width as int, height as int, pitch as int, pixel_format) > usize::MAX,
        },
{
    let bpp: usize = if pixel_format == RETRO_PIXEL_FORMAT_XRGB8888 {
        4
    } else if pixel_format == RETRO_PIXEL_FORMAT_RGB565 || pixel_format == RETRO_PIXEL_FORMAT_0RGB1555 {
        2
    } else {
        0
    };
    assert(bpp == bytes_per_pixel(pixel_format));
    if width == 0 || height == 0 || bpp == 0 {
        return Some(0);
    }
    let rows: usize = (height - 1) as usize;
    let row_bytes: usize = match rows.checked_mul(pitch) {
        Some(v) => v,
        None => {
            assert((height - 1) * pitch > usize::MAX);
            assert((height - 1) * pitch + width * bpp > usize::MAX) by (nonlinear_arith)
                requires
                    (height - 1) * pitch > usize::MAX,
                    width * bpp >= 0,
            ;
            return None;
        },
    };
    let last_row: usize = match (width as usize).checked_mul(bpp) {
        Some(v) => v,
        None => {
            assert(width * bpp > usize::MAX);
            assert((height - 1) * pitch >= 0) by (nonlinear_arith)
                requires
                    height >= 1,
                    pitch >= 0,
            ;
            return None;
        },
    };
    row_bytes.checked_add(last_row)
}

} // verus!
