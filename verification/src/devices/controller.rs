use vstd::prelude::*;
use vstd::std_specs::convert::FromSpecImpl;

verus! {

/// State of an N64 controller. The analog stick is given already scaled to the
/// libretro axis range, -32767 to 32767 on each axis.
#[derive(Debug, Clone, Copy, PartialEq, Eq, Default)]
pub struct N64ControllerState {
    pub stick_x: i16,
    pub stick_y: i16,
    pub dpad_up: bool,
    pub dpad_down: bool,
    pub dpad_left: bool,
    pub dpad_right: bool,
    pub button_a: bool,
    pub button_b: bool,
    pub trigger_z: bool,
    pub button_l: bool,
    pub button_r: bool,
    pub button_start: bool,
    pub c_up: bool,
    pub c_down: bool,
    pub c_left: bool,
    pub c_right: bool,
}

/// State of a PlayStation DualShock controller. Both sticks are given already
/// scaled to the libretro axis range, -32767 to 32767 on each axis.
#[derive(Debug, Clone, Copy, PartialEq, Eq, Default)]
pub struct DualShockControllerState {
    pub left_stick_x: i16,
    pub left_stick_y: i16,
    pub right_stick_x: i16,
    pub right_stick_y: i16,
    pub dpad_up: bool,
    pub dpad_down: bool,
    pub dpad_left: bool,
    pub dpad_right: bool,
    pub cross: bool,
    pub circle: bool,
    pub square: bool,
    pub triangle: bool,
    pub l1: bool,
    pub l2: bool,
    pub l3: bool,
    pub r1: bool,
    pub r2: bool,
    pub r3: bool,
    pub select: bool,
    pub start: bool,
    pub analog_mode: bool,
}

/// Gamepad state in the libretro RetroPad layout: bit `id` of `buttons` is set
/// while the button with that RetroPad id is held.
#[derive(Debug, Clone, Copy, PartialEq, Eq, Structural)]
pub struct UnifiedGamepadState {
    pub buttons: u32,
    pub left_analog_x: i16,
    pub left_analog_y: i16,
    pub right_analog_x: i16,
    pub right_analog_y: i16,
}

impl Default for UnifiedGamepadState {
    fn default() -> (r: Self)
        ensures
            r.buttons == 0 && r.left_analog_x == 0 && r.left_analog_y == 0 && r.right_analog_x == 0
                && r.right_analog_y == 0,
    {
        UnifiedGamepadState {
            buttons: 0,
            left_analog_x: 0,
            left_analog_y: 0,
            right_analog_x: 0,
            right_analog_y: 0,
        }
    }
}

pub const RETRO_DEVICE_ID_JOYPAD_B: u32 = 0;
pub const RETRO_DEVICE_ID_JOYPAD_Y: u32 = 1;
pub const RETRO_DEVICE_ID_JOYPAD_SELECT: u32 = 2;
pub const RETRO_DEVICE_ID_JOYPAD_START: u32 = 3;
pub const RETRO_DEVICE_ID_JOYPAD_UP: u32 = 4;
pub const RETRO_DEVICE_ID_JOYPAD_DOWN: u32 = 5;
pub const RETRO_DEVICE_ID_JOYPAD_LEFT: u32 = 6;
pub const RETRO_DEVICE_ID_JOYPAD_RIGHT: u32 = 7;
pub const RETRO_DEVICE_ID_JOYPAD_A: u32 = 8;
pub const RETRO_DEVICE_ID_JOYPAD_X: u32 = 9;
pub const RETRO_DEVICE_ID_JOYPAD_L: u32 = 10;
pub const RETRO_DEVICE_ID_JOYPAD_R: u32 = 11;
pub const RETRO_DEVICE_ID_JOYPAD_L2: u32 = 12;
pub const RETRO_DEVICE_ID_JOYPAD_R2: u32 = 13;
pub const RETRO_DEVICE_ID_JOYPAD_L3: u32 = 14;
pub const RETRO_DEVICE_ID_JOYPAD_R3: u32 = 15;

/// Full deflection of a libretro analog axis.
pub const AXIS_MAX: i16 = 32767;

/// Whether the button with RetroPad id `id` is held in the mask.
pub open spec fn button_bit(mask: u32, id: u32) -> bool {
    (mask >> id) & 1u32 == 1u32
}

/// The mask bit of button `id` when it is held, nothing otherwise.
#[verifier::opaque]
pub open spec fn bit_if(pressed: bool, id: u32) -> u32 {
    if pressed {
        1u32 << id
    } else {
        0u32
    }
}

fn bit_when(pressed: bool, id: u32) -> (r: u32)
    requires
        id < 32,
    ensures
        r == bit_if(pressed, id),
{
    reveal(bit_if);
    if pressed {
        1u32 << id
    } else {
        0u32
    }
}

/// The union of two button masks.
#[verifier::opaque]
pub open spec fn mask_union(a: u32, b: u32) -> u32 {
    a | b
}

fn union_masks(a: u32, b: u32) -> (r: u32)
    ensures
        r == mask_union(a, b),
{
    reveal(mask_union);
    a | b
}

/// The RetroPad button mask of an N64 controller: A to A, B to B, Z to L2, L to
/// L, R to R, Start to Start and the D-pad to the D-pad.
pub open spec fn n64_buttons(s: N64ControllerState) -> u32 {
    mask_union(mask_union(mask_union(mask_union(mask_union(mask_union(mask_union(mask_union(mask_union(bit_if(s.button_a, 8), bit_if(s.button_b, 0)), bit_if(s.trigger_z, 12)), bit_if(s.button_l, 10)), bit_if(s.button_r, 11)), bit_if(s.button_start, 3)), bit_if(s.dpad_up, 4)), bit_if(s.dpad_down, 5)), bit_if(s.dpad_left, 6)), bit_if(s.dpad_right, 7))
}

/// Full deflection in the direction of the `plus` button, opposite for `minus`,
/// centred when both or neither are held.
pub open spec fn digital_axis(plus: bool, minus: bool) -> i16 {
    ((if plus { 32767int } else { 0int }) - (if minus { 32767int } else { 0int })) as i16
}

/// The gamepad state of an N64 controller: the stick drives the left analog
/// stick and the C buttons drive the right analog stick at full deflection.
pub open spec fn n64_gamepad(s: N64ControllerState) -> UnifiedGamepadState {
    UnifiedGamepadState {
        buttons: n64_buttons(s),
        left_analog_x: s.stick_x,
        left_analog_y: s.stick_y,
        right_analog_x: digital_axis(s.c_right, s.c_left),
        right_analog_y: digital_axis(s.c_up, s.c_down),
    }
}

/// The RetroPad button mask of a DualShock: Cross to B, Circle to A, Square to
/// Y, Triangle to X, shoulders and sticks to L/R/L2/R2/L3/R3, Select, Start and
/// the D-pad to their namesakes.
pub open spec fn dualshock_buttons(s: DualShockControllerState) -> u32 {
    mask_union(mask_union(mask_union(mask_union(mask_union(mask_union(mask_union(mask_union(mask_union(mask_union(mask_union(mask_union(mask_union(mask_union(mask_union(bit_if(s.cross, 0), bit_if(s.circle, 8)), bit_if(s.square, 1)), bit_if(s.triangle, 9)), bit_if(s.l1, 10)), bit_if(s.r1, 11)), bit_if(s.l2, 12)), bit_if(s.r2, 13)), bit_if(s.l3, 14)), bit_if(s.r3, 15)), bit_if(s.select, 2)), bit_if(s.start, 3)), bit_if(s.dpad_up, 4)), bit_if(s.dpad_down, 5)), bit_if(s.dpad_left, 6)), bit_if(s.dpad_right, 7))
}

/// The gamepad state of a DualShock: both sticks pass through unchanged.
pub open spec fn dualshock_gamepad(s: DualShockControllerState) -> UnifiedGamepadState {
    UnifiedGamepadState {
        buttons: dualshock_buttons(s),
        left_analog_x: s.left_stick_x,
        left_analog_y: s.left_stick_y,
        right_analog_x: s.right_stick_x,
        right_analog_y: s.right_stick_y,
    }
}

fn axis_from_buttons(plus: bool, minus: bool) -> (r: i16)
    ensures
        r == digital_axis(plus, minus),
{
    let mut v: i16 = 0;
    if minus {
        v = v - AXIS_MAX;
    }
    if plus {
        v = v + AXIS_MAX;
    }
    v
}

fn n64_mask(n64: &N64ControllerState) -> (r: u32)
    ensures
        r == n64_buttons(*n64),
{
    let mut buttons: u32 = bit_when(n64.button_a, RETRO_DEVICE_ID_JOYPAD_A);
    buttons = union_masks(buttons, bit_when(n64.button_b, RETRO_DEVICE_ID_JOYPAD_B));
    buttons = union_masks(buttons, bit_when(n64.trigger_z, RETRO_DEVICE_ID_JOYPAD_L2));
    buttons = union_masks(buttons, bit_when(n64.button_l, RETRO_DEVICE_ID_JOYPAD_L));
    buttons = union_masks(buttons, bit_when(n64.button_r, RETRO_DEVICE_ID_JOYPAD_R));
    buttons = union_masks(buttons, bit_when(n64.button_start, RETRO_DEVICE_ID_JOYPAD_START));
    buttons = union_masks(buttons, bit_when(n64.dpad_up, RETRO_DEVICE_ID_JOYPAD_UP));
    buttons = union_masks(buttons, bit_when(n64.dpad_down, RETRO_DEVICE_ID_JOYPAD_DOWN));
    buttons = union_masks(buttons, bit_when(n64.dpad_left, RETRO_DEVICE_ID_JOYPAD_LEFT));
    buttons = union_masks(buttons, bit_when(n64.dpad_right, RETRO_DEVICE_ID_JOYPAD_RIGHT));
    buttons
}

fn n64_to_gamepad(n64: &N64ControllerState) -> (r: UnifiedGamepadState)
    ensures
        r == n64_gamepad(*n64),
        r.left_analog_x == n64.stick_x,
        r.left_analog_y == n64.stick_y,
{
    UnifiedGamepadState {
        buttons: n64_mask(n64),
        left_analog_x: n64.stick_x,
        left_analog_y: n64.stick_y,
        right_analog_x: axis_from_buttons(n64.c_right, n64.c_left),
        right_analog_y: axis_from_buttons(n64.c_up, n64.c_down),
    }
}

impl<'a> From<&'a N64ControllerState> for UnifiedGamepadState {
    fn from(n64: &'a N64ControllerState) -> (r: Self) {
        n64_to_gamepad(n64)
    }
}

impl<'a> FromSpecImpl<&'a N64ControllerState> for UnifiedGamepadState {
    open spec fn obeys_from_spec() -> bool {
        true
    }

    open spec fn from_spec(v: &'a N64ControllerState) -> Self {
        n64_gamepad(*v)
    }
}

#[verifier::rlimit(100)]
fn dualshock_mask(ps: &DualShockControllerState) -> (r: u32)
    ensures
        r == dualshock_buttons(*ps),
{
    let mut buttons: u32 = bit_when(ps.cross, RETRO_DEVICE_ID_JOYPAD_B);
    buttons = union_masks(buttons, bit_when(ps.circle, RETRO_DEVICE_ID_JOYPAD_A));
    buttons = union_masks(buttons, bit_when(ps.square, RETRO_DEVICE_ID_JOYPAD_Y));
    buttons = union_masks(buttons, bit_when(ps.triangle, RETRO_DEVICE_ID_JOYPAD_X));
    buttons = union_masks(buttons, bit_when(ps.l1, RETRO_DEVICE_ID_JOYPAD_L));
    buttons = union_masks(buttons, bit_when(ps.r1, RETRO_DEVICE_ID_JOYPAD_R));
    buttons = union_masks(buttons, bit_when(ps.l2, RETRO_DEVICE_ID_JOYPAD_L2));
    buttons = union_masks(buttons, bit_when(ps.r2, RETRO_DEVICE_ID_JOYPAD_R2));
    buttons = union_masks(buttons, bit_when(ps.l3, RETRO_DEVICE_ID_JOYPAD_L3));
    buttons = union_masks(buttons, bit_when(ps.r3, RETRO_DEVICE_ID_JOYPAD_R3));
    buttons = union_masks(buttons, bit_when(ps.select, RETRO_DEVICE_ID_JOYPAD_SELECT));
    buttons = union_masks(buttons, bit_when(ps.start, RETRO_DEVICE_ID_JOYPAD_START));
    buttons = union_masks(buttons, bit_when(ps.dpad_up, RETRO_DEVICE_ID_JOYPAD_UP));
    buttons = union_masks(buttons, bit_when(ps.dpad_down, RETRO_DEVICE_ID_JOYPAD_DOWN));
    buttons = union_masks(buttons, bit_when(ps.dpad_left, RETRO_DEVICE_ID_JOYPAD_LEFT));
    buttons = union_masks(buttons, bit_when(ps.dpad_right, RETRO_DEVICE_ID_JOYPAD_RIGHT));
    buttons
}

fn dualshock_to_gamepad(ps: &DualShockControllerState) -> (r: UnifiedGamepadState)
    ensures
        r == dualshock_gamepad(*ps),
        r.left_analog_x == ps.left_stick_x,
        r.left_analog_y == ps.left_stick_y,
        r.right_analog_x == ps.right_stick_x,
        r.right_analog_y == ps.right_stick_y,
{
    UnifiedGamepadState {
        buttons: dualshock_mask(ps),
        left_analog_x: ps.left_stick_x,
        left_analog_y: ps.left_stick_y,
        right_analog_x: ps.right_stick_x,
        right_analog_y: ps.right_stick_y,
    }
}

impl<'a> From<&'a DualShockControllerState> for UnifiedGamepadState {
    fn from(ps: &'a DualShockControllerState) -> (r: Self) {
        dualshock_to_gamepad(ps)
    }
}

impl<'a> FromSpecImpl<&'a DualShockControllerState> for UnifiedGamepadState {
    open spec fn obeys_from_spec() -> bool {
        true
    }

    open spec fn from_spec(v: &'a DualShockControllerState) -> Self {
        dualshock_gamepad(*v)
    }
}

/// Whether the N64 control mapped to RetroPad button `id` is held.
pub open spec fn n64_holds(s: N64ControllerState, id: u32) -> bool {
    if id == RETRO_DEVICE_ID_JOYPAD_A {
        s.button_a
    } else if id == RETRO_DEVICE_ID_JOYPAD_B {
        s.button_b
    } else if id == RETRO_DEVICE_ID_JOYPAD_L2 {
        s.trigger_z
    } else if id == RETRO_DEVICE_ID_JOYPAD_L {
        s.button_l
    } else if id == RETRO_DEVICE_ID_JOYPAD_R {
        s.button_r
    } else if id == RETRO_DEVICE_ID_JOYPAD_START {
        s.button_start
    } else if id == RETRO_DEVICE_ID_JOYPAD_UP {
        s.dpad_up
    } else if id == RETRO_DEVICE_ID_JOYPAD_DOWN {
        s.dpad_down
    } else if id == RETRO_DEVICE_ID_JOYPAD_LEFT {
        s.dpad_left
    } else if id == RETRO_DEVICE_ID_JOYPAD_RIGHT {
        s.dpad_right
    } else {
        false
    }
}

proof fn lemma_single_bit(k: u32, id: u32)
    by (bit_vector)
    requires
        k < 32,
        id < 32,
    ensures
        (((1u32 << k) >> id) & 1u32 == 1u32) == (id == k),
        ((0u32 >> id) & 1u32 == 1u32) == false,
{
}

proof fn lemma_bit_if(p: bool, k: u32, id: u32)
    requires
        k < 32,
        id < 32,
    ensures
        button_bit(bit_if(p, k), id) == (p && id == k),
{
    reveal(bit_if);
    lemma_single_bit(k, id);
}

proof fn lemma_union_bit_raw(x: u32, y: u32, id: u32)
    by (bit_vector)
    requires
        id < 32,
    ensures
        (((x | y) >> id) & 1u32 == 1u32) == (((x >> id) & 1u32 == 1u32) || ((y >> id) & 1u32
            == 1u32)),
{
}

proof fn lemma_union_bit(x: u32, y: u32, id: u32)
    requires
        id < 32,
    ensures
        button_bit(mask_union(x, y), id) == (button_bit(x, id) || button_bit(y, id)),
{
    reveal(mask_union);
    lemma_union_bit_raw(x, y, id);
}

/// Each RetroPad button bit of a mapped N64 controller is set exactly while the
/// N64 control mapped to it is held; the bits of unmapped buttons stay clear.
pub proof fn lemma_n64_button_bits(s: N64ControllerState, id: u32)
    requires
        id < 32,
    ensures
        button_bit(n64_gamepad(s).buttons, id) == n64_holds(s, id),
{
    lemma_bit_if(s.button_a, 8, id);
    lemma_bit_if(s.button_b, 0, id);
    lemma_union_bit(bit_if(s.button_a, 8), bit_if(s.button_b, 0), id);
    lemma_bit_if(s.trigger_z, 12, id);
    lemma_union_bit(mask_union(bit_if(s.button_a, 8), bit_if(s.button_b, 0)), bit_if(s.trigger_z, 12), id);
    lemma_bit_if(s.button_l, 10, id);
    lemma_union_bit(mask_union(mask_union(bit_if(s.button_a, 8), bit_if(s.button_b, 0)), bit_if(s.trigger_z, 12)), bit_if(s.button_l, 10), id);
    lemma_bit_if(s.button_r, 11, id);
    lemma_union_bit(mask_union(mask_union(mask_union(bit_if(s.button_a, 8), bit_if(s.button_b, 0)), bit_if(s.trigger_z, 12)), bit_if(s.button_l, 10)), bit_if(s.button_r, 11), id);
    lemma_bit_if(s.button_start, 3, id);
    lemma_union_bit(mask_union(mask_union(mask_union(mask_union(bit_if(s.button_a, 8), bit_if(s.button_b, 0)), bit_if(s.trigger_z, 12)), bit_if(s.button_l, 10)), bit_if(s.button_r, 11)), bit_if(s.button_start, 3), id);
    lemma_bit_if(s.dpad_up, 4, id);
    lemma_union_bit(mask_union(mask_union(mask_union(mask_union(mask_union(bit_if(s.button_a, 8), bit_if(s.button_b, 0)), bit_if(s.trigger_z, 12)), bit_if(s.button_l, 10)), bit_if(s.button_r, 11)), bit_if(s.button_start, 3)), bit_if(s.dpad_up, 4), id);
    lemma_bit_if(s.dpad_down, 5, id);
    lemma_union_bit(mask_union(mask_union(mask_union(mask_union(mask_union(mask_union(bit_if(s.button_a, 8), bit_if(s.button_b, 0)), bit_if(s.trigger_z, 12)), bit_if(s.button_l, 10)), bit_if(s.button_r, 11)), bit_if(s.button_start, 3)), bit_if(s.dpad_up, 4)), bit_if(s.dpad_down, 5), id);
    lemma_bit_if(s.dpad_left, 6, id);
    lemma_union_bit(mask_union(mask_union(mask_union(mask_union(mask_union(mask_union(mask_union(bit_if(s.button_a, 8), bit_if(s.button_b, 0)), bit_if(s.trigger_z, 12)), bit_if(s.button_l, 10)), bit_if(s.button_r, 11)), bit_if(s.button_start, 3)), bit_if(s.dpad_up, 4)), bit_if(s.dpad_down, 5)), bit_if(s.dpad_left, 6), id);
    lemma_bit_if(s.dpad_right, 7, id);
    lemma_union_bit(mask_union(mask_union(mask_union(mask_union(mask_union(mask_union(mask_union(mask_union(bit_if(s.button_a, 8), bit_if(s.button_b, 0)), bit_if(s.trigger_z, 12)), bit_if(s.button_l, 10)), bit_if(s.button_r, 11)), bit_if(s.button_start, 3)), bit_if(s.dpad_up, 4)), bit_if(s.dpad_down, 5)), bit_if(s.dpad_left, 6)), bit_if(s.dpad_right, 7), id);
}

/// Whether the DualShock control mapped to RetroPad button `id` is held.
pub open spec fn dualshock_holds(s: DualShockControllerState, id: u32) -> bool {
    if id == RETRO_DEVICE_ID_JOYPAD_B {
        s.cross
    } else if id == RETRO_DEVICE_ID_JOYPAD_A {
        s.circle
    } else if id == RETRO_DEVICE_ID_JOYPAD_Y {
        s.square
    } else if id == RETRO_DEVICE_ID_JOYPAD_X {
        s.triangle
    } else if id == RETRO_DEVICE_ID_JOYPAD_L {
        s.l1
    } else if id == RETRO_DEVICE_ID_JOYPAD_R {
        s.r1
    } else if id == RETRO_DEVICE_ID_JOYPAD_L2 {
        s.l2
    } else if id == RETRO_DEVICE_ID_JOYPAD_R2 {
        s.r2
    } else if id == RETRO_DEVICE_ID_JOYPAD_L3 {
        s.l3
    } else if id == RETRO_DEVICE_ID_JOYPAD_R3 {
        s.r3
    } else if id == RETRO_DEVICE_ID_JOYPAD_SELECT {
        s.select
    } else if id == RETRO_DEVICE_ID_JOYPAD_START {
        s.start
    } else if id == RETRO_DEVICE_ID_JOYPAD_UP {
        s.dpad_up
    } else if id == RETRO_DEVICE_ID_JOYPAD_DOWN {
        s.dpad_down
    } else if id == RETRO_DEVICE_ID_JOYPAD_LEFT {
        s.dpad_left
    } else if id == RETRO_DEVICE_ID_JOYPAD_RIGHT {
        s.dpad_right
    } else {
        false
    }
}

/// Each RetroPad button bit of a mapped DualShock is set exactly while the
/// DualShock control mapped to it is held; the bits above the sixteen RetroPad
/// buttons stay clear.
#[verifier::rlimit(100)]
pub proof fn lemma_dualshock_button_bits(s: DualShockControllerState, id: u32)
    requires
        id < 32,
    ensures
        button_bit(dualshock_gamepad(s).buttons, id) == dualshock_holds(s, id),
{
    lemma_bit_if(s.cross, 0, id);
    lemma_bit_if(s.circle, 8, id);
    lemma_union_bit(bit_if(s.cross, 0), bit_if(s.circle, 8), id);
    lemma_bit_if(s.square, 1, id);
    lemma_union_bit(mask_union(bit_if(s.cross, 0), bit_if(s.circle, 8)), bit_if(s.square, 1), id);
    lemma_bit_if(s.triangle, 9, id);
    lemma_union_bit(mask_union(mask_union(bit_if(s.cross, 0), bit_if(s.circle, 8)), bit_if(s.square, 1)), bit_if(s.triangle, 9), id);
    lemma_bit_if(s.l1, 10, id);
    lemma_union_bit(mask_union(mask_union(mask_union(bit_if(s.cross, 0), bit_if(s.circle, 8)), bit_if(s.square, 1)), bit_if(s.triangle, 9)), bit_if(s.l1, 10), id);
    lemma_bit_if(s.r1, 11, id);
    lemma_union_bit(mask_union(mask_union(mask_union(mask_union(bit_if(s.cross, 0), bit_if(s.circle, 8)), bit_if(s.square, 1)), bit_if(s.triangle, 9)), bit_if(s.l1, 10)), bit_if(s.r1, 11), id);
    lemma_bit_if(s.l2, 12, id);
    lemma_union_bit(mask_union(mask_union(mask_union(mask_union(mask_union(bit_if(s.cross, 0), bit_if(s.circle, 8)), bit_if(s.square, 1)), bit_if(s.triangle, 9)), bit_if(s.l1, 10)), bit_if(s.r1, 11)), bit_if(s.l2, 12), id);
    lemma_bit_if(s.r2, 13, id);
    lemma_union_bit(mask_union(mask_union(mask_union(mask_union(mask_union(mask_union(bit_if(s.cross, 0), bit_if(s.circle, 8)), bit_if(s.square, 1)), bit_if(s.triangle, 9)), bit_if(s.l1, 10)), bit_if(s.r1, 11)), bit_if(s.l2, 12)), bit_if(s.r2, 13), id);
    lemma_bit_if(s.l3, 14, id);
    lemma_union_bit(mask_union(mask_union(mask_union(mask_union(mask_union(mask_union(mask_union(bit_if(s.cross, 0), bit_if(s.circle, 8)), bit_if(s.square, 1)), bit_if(s.triangle, 9)), bit_if(s.l1, 10)), bit_if(s.r1, 11)), bit_if(s.l2, 12)), bit_if(s.r2, 13)), bit_if(s.l3, 14), id);
    lemma_bit_if(s.r3, 15, id);
    lemma_union_bit(mask_union(mask_union(mask_union(mask_union(mask_union(mask_union(mask_union(mask_union(bit_if(s.cross, 0), bit_if(s.circle, 8)), bit_if(s.square, 1)), bit_if(s.triangle, 9)), bit_if(s.l1, 10)), bit_if(s.r1, 11)), bit_if(s.l2, 12)), bit_if(s.r2, 13)), bit_if(s.l3, 14)), bit_if(s.r3, 15), id);
    lemma_bit_if(s.select, 2, id);
    lemma_union_bit(mask_union(mask_union(mask_union(mask_union(mask_union(mask_union(mask_union(mask_union(mask_union(bit_if(s.cross, 0), bit_if(s.circle, 8)), bit_if(s.square, 1)), bit_if(s.triangle, 9)), bit_if(s.l1, 10)), bit_if(s.r1, 11)), bit_if(s.l2, 12)), bit_if(s.r2, 13)), bit_if(s.l3, 14)), bit_if(s.r3, 15)), bit_if(s.select, 2), id);
    lemma_bit_if(s.start, 3, id);
    lemma_union_bit(mask_union(mask_union(mask_union(mask_union(mask_union(mask_union(mask_union(mask_union(mask_union(mask_union(bit_if(s.cross, 0), bit_if(s.circle, 8)), bit_if(s.square, 1)), bit_if(s.triangle, 9)), bit_if(s.l1, 10)), bit_if(s.r1, 11)), bit_if(s.l2, 12)), bit_if(s.r2, 13)), bit_if(s.l3, 14)), bit_if(s.r3, 15)), bit_if(s.select, 2)), bit_if(s.start, 3), id);
    lemma_bit_if(s.dpad_up, 4, id);
    lemma_union_bit(mask_union(mask_union(mask_union(mask_union(mask_union(mask_union(mask_union(mask_union(mask_union(mask_union(mask_union(bit_if(s.cross, 0), bit_if(s.circle, 8)), bit_if(s.square, 1)), bit_if(s.triangle, 9)), bit_if(s.l1, 10)), bit_if(s.r1, 11)), bit_if(s.l2, 12)), bit_if(s.r2, 13)), bit_if(s.l3, 14)), bit_if(s.r3, 15)), bit_if(s.select, 2)), bit_if(s.start, 3)), bit_if(s.dpad_up, 4), id);
    lemma_bit_if(s.dpad_down, 5, id);
    lemma_union_bit(mask_union(mask_union(mask_union(mask_union(mask_union(mask_union(mask_union(mask_union(mask_union(mask_union(mask_union(mask_union(bit_if(s.cross, 0), bit_if(s.circle, 8)), bit_if(s.square, 1)), bit_if(s.triangle, 9)), bit_if(s.l1, 10)), bit_if(s.r1, 11)), bit_if(s.l2, 12)), bit_if(s.r2, 13)), bit_if(s.l3, 14)), bit_if(s.r3, 15)), bit_if(s.select, 2)), bit_if(s.start, 3)), bit_if(s.dpad_up, 4)), bit_if(s.dpad_down, 5), id);
    lemma_bit_if(s.dpad_left, 6, id);
    lemma_union_bit(mask_union(mask_union(mask_union(mask_union(mask_union(mask_union(mask_union(mask_union(mask_union(mask_union(mask_union(mask_union(mask_union(bit_if(s.cross, 0), bit_if(s.circle, 8)), bit_if(s.square, 1)), bit_if(s.triangle, 9)), bit_if(s.l1, 10)), bit_if(s.r1, 11)), bit_if(s.l2, 12)), bit_if(s.r2, 13)), bit_if(s.l3, 14)), bit_if(s.r3, 15)), bit_if(s.select, 2)), bit_if(s.start, 3)), bit_if(s.dpad_up, 4)), bit_if(s.dpad_down, 5)), bit_if(s.dpad_left, 6), id);
    lemma_bit_if(s.dpad_right, 7, id);
    lemma_union_bit(mask_union(mask_union(mask_union(mask_union(mask_union(mask_union(mask_union(mask_union(mask_union(mask_union(mask_union(mask_union(mask_union(mask_union(bit_if(s.cross, 0), bit_if(s.circle, 8)), bit_if(s.square, 1)), bit_if(s.triangle, 9)), bit_if(s.l1, 10)), bit_if(s.r1, 11)), bit_if(s.l2, 12)), bit_if(s.r2, 13)), bit_if(s.l3, 14)), bit_if(s.r3, 15)), bit_if(s.select, 2)), bit_if(s.start, 3)), bit_if(s.dpad_up, 4)), bit_if(s.dpad_down, 5)), bit_if(s.dpad_left, 6)), bit_if(s.dpad_right, 7), id);
}

/// Each DualShock stick axis passes through unchanged to the same RetroPad
/// axis: left to left, right to right, horizontal to horizontal.
pub proof fn lemma_dualshock_axes(s: DualShockControllerState)
    ensures
        dualshock_gamepad(s).left_analog_x == s.left_stick_x,
        dualshock_gamepad(s).left_analog_y == s.left_stick_y,
        dualshock_gamepad(s).right_analog_x == s.right_stick_x,
        dualshock_gamepad(s).right_analog_y == s.right_stick_y,
{
}

/// The N64 stick drives the left RetroPad stick unchanged; the C buttons
/// push the right stick fully: C-right to +32767 and C-left to -32767 on the
/// horizontal axis, C-up to +32767 and C-down to -32767 on the vertical one,
/// opposite buttons together cancelling out.
pub proof fn lemma_n64_axes(s: N64ControllerState)
    ensures
        n64_gamepad(s).left_analog_x == s.stick_x,
        n64_gamepad(s).left_analog_y == s.stick_y,
        n64_gamepad(s).right_analog_x == (if s.c_right == s.c_left {
            0int
        } else if s.c_right {
            32767int
        } else {
            -32767int
        }),
        n64_gamepad(s).right_analog_y == (if s.c_up == s.c_down {
            0int
        } else if s.c_up {
            32767int
        } else {
            -32767int
        }),
{
}

} // verus!
