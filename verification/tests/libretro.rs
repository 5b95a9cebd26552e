use emusim::devices::controller::{UnifiedGamepadState, RETRO_DEVICE_ID_JOYPAD_A, RETRO_DEVICE_ID_JOYPAD_B};
use emusim::framebuffer::{
    VideoFrame, RETRO_PIXEL_FORMAT_0RGB1555, RETRO_PIXEL_FORMAT_RGB565, RETRO_PIXEL_FORMAT_XRGB8888,
};
use emusim::libretro::{
    environment_accepted, environment_request, frame_source_len, input_state, EnvironmentAction,
    RETRO_DEVICE_ANALOG, RETRO_DEVICE_JOYPAD, RETRO_DEVICE_MOUSE, RETRO_ENVIRONMENT_GET_CAN_DUPE,
    RETRO_ENVIRONMENT_GET_VARIABLE, RETRO_ENVIRONMENT_SET_PIXEL_FORMAT,
};

fn pad() -> UnifiedGamepadState {
    UnifiedGamepadState {
        buttons: 1 << RETRO_DEVICE_ID_JOYPAD_A,
        left_analog_x: -100,
        left_analog_y: 200,
        right_analog_x: 300,
        right_analog_y: -400,
    }
}

#[test]
fn input_state_reads_buttons_and_sticks_on_port_zero() {
    let gp = pad();
    assert_eq!(input_state(&gp, 0, RETRO_DEVICE_JOYPAD, 0, RETRO_DEVICE_ID_JOYPAD_A), 1);
    assert_eq!(input_state(&gp, 0, RETRO_DEVICE_JOYPAD, 0, RETRO_DEVICE_ID_JOYPAD_B), 0);
    assert_eq!(input_state(&gp, 1, RETRO_DEVICE_JOYPAD, 0, RETRO_DEVICE_ID_JOYPAD_A), 0);
    assert_eq!(input_state(&gp, 0, RETRO_DEVICE_ANALOG, 0, 0), -100);
    assert_eq!(input_state(&gp, 0, RETRO_DEVICE_ANALOG, 0, 1), 200);
    assert_eq!(input_state(&gp, 0, RETRO_DEVICE_ANALOG, 1, 0), 300);
    assert_eq!(input_state(&gp, 0, RETRO_DEVICE_ANALOG, 1, 1), -400);
    assert_eq!(input_state(&gp, 0, RETRO_DEVICE_ANALOG, 2, 0), 0);
    assert_eq!(input_state(&gp, 0, RETRO_DEVICE_MOUSE, 0, 0), 0);
}

#[test]
fn environment_serves_pixel_format_and_dupe_with_data_only() {
    assert_eq!(environment_request(RETRO_ENVIRONMENT_SET_PIXEL_FORMAT, true), EnvironmentAction::StorePixelFormat);
    assert_eq!(environment_request(RETRO_ENVIRONMENT_SET_PIXEL_FORMAT, false), EnvironmentAction::Decline);
    assert_eq!(environment_request(RETRO_ENVIRONMENT_GET_CAN_DUPE, true), EnvironmentAction::ReportCanDupe);
    assert_eq!(environment_request(RETRO_ENVIRONMENT_GET_CAN_DUPE, false), EnvironmentAction::Decline);
    assert_eq!(environment_request(RETRO_ENVIRONMENT_GET_VARIABLE, true), EnvironmentAction::Decline);
    assert_eq!(environment_request(99, true), EnvironmentAction::Decline);
    assert!(environment_accepted(EnvironmentAction::StorePixelFormat));
    assert!(environment_accepted(EnvironmentAction::ReportCanDupe));
    assert!(!environment_accepted(EnvironmentAction::Decline));
}

#[test]
fn frame_source_length() {
    assert_eq!(frame_source_len(2, 3, 16, RETRO_PIXEL_FORMAT_XRGB8888), Some(2 * 16 + 2 * 4));
    assert_eq!(frame_source_len(2, 3, 16, RETRO_PIXEL_FORMAT_RGB565), Some(2 * 16 + 2 * 2));
    assert_eq!(frame_source_len(0, 3, 16, RETRO_PIXEL_FORMAT_RGB565), Some(0));
    assert_eq!(frame_source_len(2, 3, 16, 7), Some(0));
    assert_eq!(frame_source_len(2, 3, usize::MAX, RETRO_PIXEL_FORMAT_RGB565), None);
}

#[test]
fn default_frame_is_black_320_by_240() {
    let f = VideoFrame::default();
    assert_eq!((f.width, f.height, f.frame_index), (320, 240, 0));
    assert_eq!(f.pixels.len(), 320 * 240 * 4);
    assert!(f.pixels.iter().all(|&b| b == 0));
}

#[test]
fn xrgb8888_frame_converts_with_pitch() {
    let mut f = VideoFrame::new_blank();
    // 2x2 frame, pitch 12 bytes (one pad pixel per row); pixels B,G,R,X
    let raw: Vec<u8> = vec![
        1, 2, 3, 0, 4, 5, 6, 0, 9, 9, 9, 9, //
        7, 8, 9, 0, 10, 11, 12, 0,
    ];
    f.update_from_raw(&raw, 2, 2, 12, RETRO_PIXEL_FORMAT_XRGB8888, 7);
    assert_eq!((f.width, f.height, f.frame_index), (2, 2, 7));
    assert_eq!(f.pixels, vec![3, 2, 1, 255, 6, 5, 4, 255, 9, 8, 7, 255, 12, 11, 10, 255]);
}

#[test]
fn rgb565_and_0rgb1555_scale_channels() {
    let mut f = VideoFrame::new_blank();
    // white, black, pure red (0xF800), pure green (0x07E0)
    let raw: Vec<u8> = vec![0xFF, 0xFF, 0x00, 0x00, 0x00, 0xF8, 0xE0, 0x07];
    f.update_from_raw(&raw, 4, 1, 8, RETRO_PIXEL_FORMAT_RGB565, 1);
    assert_eq!(
        f.pixels,
        vec![255, 255, 255, 255, 0, 0, 0, 255, 255, 0, 0, 255, 0, 255, 0, 255]
    );
    // 0RGB1555: 0x7C00 red, 0x001F blue, 0x0210 = r0 g16 b16
    let raw: Vec<u8> = vec![0x00, 0x7C, 0x1F, 0x00, 0x10, 0x02];
    f.update_from_raw(&raw, 3, 1, 6, RETRO_PIXEL_FORMAT_0RGB1555, 2);
    assert_eq!(f.pixels, vec![255, 0, 0, 255, 0, 0, 255, 255, 0, 131, 131, 255]);
}

#[test]
fn empty_or_unknown_frames() {
    let mut f = VideoFrame::new_blank();
    let before = f.clone();
    f.update_from_raw(&[], 0, 10, 0, RETRO_PIXEL_FORMAT_RGB565, 9);
    assert_eq!(f, before);
    f.update_from_raw(&[], 2, 1, 0, 42, 9);
    assert_eq!((f.width, f.height, f.frame_index), (2, 1, 9));
    assert_eq!(f.pixels, vec![0u8; 8]);
}
