use emusim::osd::text_fits_screen;
use emusim::devices::controller::{
    DualShockControllerState, N64ControllerState, UnifiedGamepadState, RETRO_DEVICE_ID_JOYPAD_A,
    RETRO_DEVICE_ID_JOYPAD_B, RETRO_DEVICE_ID_JOYPAD_L2, RETRO_DEVICE_ID_JOYPAD_START,
};
use emusim::devices::n64::{N64RamPak, Nintendo64Console};
use emusim::devices::ps1::PlayStation1Console;
use emusim::devices::ps2::{PlayStation2Console, Ps2TrayState};
use emusim::devices::tv::{CrtTelevision, TvInputSource};
use emusim::interaction::VrInteractionManager;
use emusim::media::{CartridgeMedia, DiscMedia, PhysicalMedia, Platform};
use emusim::osd::{draw_char, draw_text};

fn disc(id: &str) -> DiscMedia {
    DiscMedia {
        id: id.to_string(),
        title: "Crash".to_string(),
        platform: Platform::PlayStation1,
        disc_path: "crash.cue".to_string(),
        label_texture_path: None,
        is_dvd: false,
    }
}

#[test]
fn tv_inputs_cycle_through_five_sources() {
    let mut s = TvInputSource::AntennaChannel3;
    let labels = ["CH 03", "CH 04", "VIDEO 1", "VIDEO 2", "COMPONENT"];
    for l in labels {
        assert_eq!(s.display_label(), l);
        s = s.next();
    }
    assert_eq!(s, TvInputSource::AntennaChannel3);
}

#[test]
fn retro_crt_defaults_and_power_toggle() {
    let mut tv = CrtTelevision::new_retro_crt("tv");
    assert!(!tv.power_on);
    assert_eq!(tv.input_source, TvInputSource::CompositeAv1);
    assert_eq!((tv.screen_diagonal_inches, tv.screen_aspect_width, tv.screen_aspect_height), (21, 4, 3));
    assert_eq!(tv.sockets.len(), 10);
    assert_eq!(tv.sockets[7].id, "tv_component_y");
    assert_eq!(tv.sockets[1].id, "tv_av1_video");
    tv.toggle_power();
    assert!(tv.power_on);
    assert_eq!(tv.degauss_active_timer_ms, 800);
    assert_eq!(tv.tick_degauss(300), 500);
    tv.toggle_power();
    assert!(!tv.power_on);
    assert_eq!(tv.degauss_active_timer_ms, 500);
}

#[test]
fn ps1_lid_guards_the_disc() {
    let mut ps1 = PlayStation1Console::new("ps1");
    assert_eq!(ps1.insert_disc(disc("a")), None);
    assert!(ps1.spindle_disc.is_none());
    ps1.press_open_button();
    assert_eq!(ps1.insert_disc(disc("a")), None);
    assert_eq!(ps1.insert_disc(disc("b")), Some(disc("a")));
    ps1.close_lid();
    assert_eq!(ps1.remove_disc(), None);
    ps1.press_open_button();
    assert_eq!(ps1.remove_disc(), Some(disc("b")));
    ps1.press_power_button();
    assert!(ps1.power_button_latched);
}

#[test]
fn ps2_tray_moves_over_time() {
    let mut ps2 = PlayStation2Console::new("ps2");
    assert_eq!(ps2.tray_state, Ps2TrayState::Closed);
    assert_eq!(ps2.insert_disc(disc("a")), None);
    ps2.press_eject_button();
    assert_eq!(ps2.tray_state, Ps2TrayState::Opening(0));
    ps2.update_tray(500);
    assert_eq!(ps2.tray_state, Ps2TrayState::Opening(3000));
    ps2.update_tray(500);
    assert_eq!(ps2.tray_state, Ps2TrayState::Open);
    assert_eq!(ps2.insert_disc(disc("a")), None);
    assert_eq!(ps2.tray_disc, Some(disc("a")));
    ps2.press_eject_button();
    assert_eq!(ps2.tray_state, Ps2TrayState::Closing(0));
    assert_eq!(ps2.remove_disc(), None);
    for _ in 0..833 {
        ps2.update_tray(1);
    }
    assert_eq!(ps2.tray_state, Ps2TrayState::Closing(4998));
    ps2.update_tray(1);
    assert_eq!(ps2.tray_state, Ps2TrayState::Closed);
    ps2.press_reset_standby_button();
    assert!(ps2.is_system_running);
    ps2.rear_rocker_switch_on = false;
    ps2.press_reset_standby_button();
    assert!(ps2.is_system_running);
}

#[test]
fn n64_controller_maps_to_retropad() {
    let s = N64ControllerState {
        stick_x: 1000,
        stick_y: -2000,
        button_a: true,
        trigger_z: true,
        c_right: true,
        c_up: true,
        ..Default::default()
    };
    let g = UnifiedGamepadState::from(&s);
    assert_eq!(g.buttons, (1 << RETRO_DEVICE_ID_JOYPAD_A) | (1 << RETRO_DEVICE_ID_JOYPAD_L2));
    assert_eq!((g.left_analog_x, g.left_analog_y), (1000, -2000));
    assert_eq!((g.right_analog_x, g.right_analog_y), (32767, 32767));
    let idle = UnifiedGamepadState::from(&N64ControllerState::default());
    assert_eq!(idle, UnifiedGamepadState::default());
}

#[test]
fn dualshock_maps_to_retropad() {
    let s = DualShockControllerState { cross: true, start: true, left_stick_x: 5, ..Default::default() };
    let g = UnifiedGamepadState::from(&s);
    assert_eq!(g.buttons, (1 << RETRO_DEVICE_ID_JOYPAD_B) | (1 << RETRO_DEVICE_ID_JOYPAD_START));
    assert_eq!(g.left_analog_x, 5);
}

#[test]
fn platforms_names_cores_and_extensions() {
    assert_eq!(Platform::Nintendo64.name(), "Nintendo 64");
    assert_eq!(Platform::Nintendo64.default_core_name(true), "mupen64plus_next");
    assert_eq!(Platform::Nintendo64.default_core_name(false), "mupen64plus_next");
    assert_eq!(Platform::PlayStation1.default_core_name(false), "duckstation");
    assert_eq!(Platform::PlayStation2.default_core_name(true), "play");
    assert_eq!(Platform::Nintendo64.preferred_core_library(), None);
    assert_eq!(Platform::PlayStation1.preferred_core_library(), Some("cores/swanstation_libretro.so"));
    assert_eq!(Platform::PlayStation1.default_core_name(true), "swanstation");
    assert_eq!(Platform::SegaGenesis.preferred_core_library(), None);
    assert!(Platform::Nintendo64.matches_extension("Z64"));
    assert!(!Platform::Nintendo64.matches_extension("iso"));
    assert!(Platform::PlayStation2.matches_extension("elf"));
    assert!(Platform::SegaGenesis.matches_extension("bin"));
}

#[test]
fn physical_media_accessors() {
    let c = PhysicalMedia::Cartridge(CartridgeMedia {
        id: "c".to_string(),
        title: "Mario".to_string(),
        platform: Platform::Nintendo64,
        rom_path: "m.z64".to_string(),
        label_texture_path: None,
        plastic_color_rgba: [1, 2, 3, 4],
    });
    assert_eq!((c.platform(), c.title(), c.rom_path()), (Platform::Nintendo64, "Mario", "m.z64"));
    let d = PhysicalMedia::OpticalDisc(disc("d"));
    assert_eq!((d.platform(), d.title(), d.rom_path()), (Platform::PlayStation1, "Crash", "crash.cue"));
}

#[test]
fn vr_hands_start_empty() {
    let m = VrInteractionManager::new();
    assert!(m.left_hand.held_object.is_none() && !m.left_hand.grip_latched);
    assert!(m.right_hand.held_object.is_none() && !m.right_hand.grip_latched);
    assert!(m.active_gameplay_controller.is_none());
}

#[test]
fn osd_draws_glyph_pixels() {
    let (w, h) = (16u32, 16u32);
    let mut buf = vec![0u8; (w * h * 4) as usize];
    draw_char(&mut buf, w, h, 0, 0, 1, 'I', [255, 0, 0, 255]);
    let painted = buf.chunks(4).filter(|p| p == &[255, 0, 0, 255]).count();
    assert!(painted > 0);
    // 'I' is a vertical bar: its top row is lit across the middle column
    assert_eq!(&buf[(2 * 4) as usize..(2 * 4 + 4) as usize], &[255, 0, 0, 255]);
    let mut buf2 = vec![0u8; (w * h * 4) as usize];
    draw_text(&mut buf2, w, h, 0, 0, 1, "I", [255, 0, 0, 255]);
    assert_eq!(buf, buf2);
    // characters outside the font draw nothing; off-screen pixels are skipped
    let mut buf3 = vec![0u8; (w * h * 4) as usize];
    draw_char(&mut buf3, w, h, 0, 0, 1, '\u{7f}', [255, 255, 255, 255]);
    draw_char(&mut buf3, w, h, 100, 100, 1, 'A', [255, 255, 255, 255]);
    assert!(buf3.iter().all(|&b| b == 0));
}

#[test]
fn n64_cartridge_slot() {
    let mut n64 = Nintendo64Console::new("n64");
    assert!(!n64.power_switch_on);
    assert_eq!(n64.ram_pak, N64RamPak::ExpansionPak8MB);
    let cart = CartridgeMedia {
        id: "c".to_string(),
        title: "Mario".to_string(),
        platform: Platform::Nintendo64,
        rom_path: "m.z64".to_string(),
        label_texture_path: None,
        plastic_color_rgba: [50, 50, 50, 255],
    };
    assert_eq!(n64.insert_cartridge(cart.clone()), None);
    assert_eq!(n64.insert_cartridge(cart.clone()), Some(cart.clone()));
    assert_eq!(n64.eject_cartridge(), Some(cart));
    assert_eq!(n64.eject_cartridge(), None);
    n64.set_power_switch(true);
    assert!(n64.power_switch_on);
}

#[test]
fn text_screen_check_and_drawing_by_characters() {
    let (w, h) = (32u32, 16u32);
    let len = (w * h * 4) as usize;
    assert!(text_fits_screen(len, w, h, 0, 0, 1, "HI"));
    assert!(!text_fits_screen(len - 1, w, h, 0, 0, 1, "HI"));
    assert!(!text_fits_screen(len, w, h, i32::MAX - 5, 0, 1, "HI"));
    assert!(text_fits_screen(len, w, h, 0, 0, 1, ""));
    let mut by_text = vec![0u8; len];
    draw_text(&mut by_text, w, h, 1, 2, 1, "HI", [9, 8, 7, 6]);
    let mut by_chars = vec![0u8; len];
    draw_char(&mut by_chars, w, h, 1, 2, 1, 'H', [9, 8, 7, 6]);
    draw_char(&mut by_chars, w, h, 7, 2, 1, 'I', [9, 8, 7, 6]);
    assert_eq!(by_text, by_chars);
    let mut untouched = vec![5u8; len];
    draw_text(&mut untouched, w, h, 0, 0, 1, "", [1, 1, 1, 1]);
    assert!(untouched.iter().all(|&b| b == 5));
}
