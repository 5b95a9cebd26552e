use emusim::room::EmulationStep;
use emusim::devices::tv::CrtTelevision;
use emusim::sound::{audio_route, AudioRoute};
use emusim::media::Platform;
use emusim::room::{
    core_library_candidates, found_n64_cartridge, found_ps1_disc, found_ps2_disc, RetroRoomScene,
    SelectedConsole,
};
use emusim::screen::TvScreenFeed;

fn tv_feed(scene: &RetroRoomScene) -> TvScreenFeed {
    scene.graph.evaluate_tv_screen("crt_tv_1")
}

#[test]
fn console_names_ignore_case_and_default_to_n64() {
    assert_eq!(SelectedConsole::from_str_name("n64"), SelectedConsole::Nintendo64);
    assert_eq!(SelectedConsole::from_str_name("Nintendo64"), SelectedConsole::Nintendo64);
    assert_eq!(SelectedConsole::from_str_name("PSX"), SelectedConsole::PlayStation1);
    assert_eq!(SelectedConsole::from_str_name("playstation"), SelectedConsole::PlayStation1);
    assert_eq!(SelectedConsole::from_str_name("PlayStation1"), SelectedConsole::PlayStation1);
    assert_eq!(SelectedConsole::from_str_name("ps2"), SelectedConsole::PlayStation2);
    assert_eq!(SelectedConsole::from_str_name("PLAYSTATION2"), SelectedConsole::PlayStation2);
    assert_eq!(SelectedConsole::from_str_name("none"), SelectedConsole::Unwired);
    assert_eq!(SelectedConsole::from_str_name("Static"), SelectedConsole::Unwired);
    assert_eq!(SelectedConsole::from_str_name("tv"), SelectedConsole::Unwired);
    assert_eq!(SelectedConsole::from_str_name("dreamcast"), SelectedConsole::Nintendo64);
    assert_eq!(SelectedConsole::from_str_name(""), SelectedConsole::Nintendo64);
}

#[test]
fn console_display_names() {
    assert_eq!(SelectedConsole::Nintendo64.display_name(), "Nintendo 64");
    assert_eq!(SelectedConsole::PlayStation1.display_name(), "Sony PlayStation 1");
    assert_eq!(SelectedConsole::PlayStation2.display_name(), "Sony PlayStation 2");
    assert_eq!(SelectedConsole::Unwired.display_name(), "None (Unwired)");
}

#[test]
fn furnished_room_is_unplugged_and_dark() {
    let scene = RetroRoomScene::new(None, None, None);
    assert_eq!(tv_feed(&scene), TvScreenFeed::PoweredOff);
    assert_eq!(scene.graph.cables.len(), 5);
    assert_eq!(scene.graph.connections.len(), 0);
    assert!(scene.active_platform.is_none());
    assert!(scene.active_loaded_rom.is_none());
}

#[test]
fn discs_are_not_kept_by_closed_playstations() {
    let cart = found_n64_cartridge("Mario", "games/n64/mario.z64");
    let scene = RetroRoomScene::new(
        Some(cart.clone()),
        Some(found_ps1_disc("Crash", "games/ps1/crash.cue")),
        Some(found_ps2_disc("Ico", "games/ps2/ico.iso")),
    );
    let n64 = scene.graph.n64_consoles.get("n64_console_1").unwrap();
    assert_eq!(n64.inserted_cartridge, Some(cart));
    assert!(scene.graph.ps1_consoles.get("ps1_console_1").unwrap().spindle_disc.is_none());
    assert!(scene.graph.ps2_consoles.get("ps2_console_1").unwrap().tray_disc.is_none());
}

#[test]
fn found_media_are_named_after_their_files() {
    let cart = found_n64_cartridge("Mario", "games/n64/mario.z64");
    assert_eq!(cart.id, "cart_Mario");
    assert_eq!(cart.title, "Mario");
    assert_eq!(cart.platform, Platform::Nintendo64);
    assert_eq!(cart.rom_path, "games/n64/mario.z64");
    assert_eq!(cart.plastic_color_rgba, [50, 50, 50, 255]);
    let d1 = found_ps1_disc("Crash", "c.cue");
    assert_eq!(d1.id, "disc_Crash");
    assert!(!d1.is_dvd);
    assert_eq!(d1.platform, Platform::PlayStation1);
    let d2 = found_ps2_disc("Ico", "i.iso");
    assert_eq!(d2.id, "disc_ps2_Ico");
    assert!(d2.is_dvd);
    assert_eq!(d2.platform, Platform::PlayStation2);
}

#[test]
fn wiring_each_console_shows_it_on_the_tv() {
    for (console, id, platform) in [
        (SelectedConsole::Nintendo64, "n64_console_1", Platform::Nintendo64),
        (SelectedConsole::PlayStation1, "ps1_console_1", Platform::PlayStation1),
        (SelectedConsole::PlayStation2, "ps2_console_1", Platform::PlayStation2),
    ] {
        let mut scene = RetroRoomScene::new(None, None, None);
        scene.wire_console_to_tv(console);
        assert_eq!(
            tv_feed(&scene),
            TvScreenFeed::ActiveVideo { console_id: id.to_string(), platform }
        );
        let tv = scene.graph.televisions.get("crt_tv_1").unwrap();
        assert!(tv.power_on);
        assert_eq!(tv.degauss_active_timer_ms, 800);
    }
}

#[test]
fn unwired_room_shows_static() {
    let mut scene = RetroRoomScene::new(None, None, None);
    scene.wire_console_to_tv(SelectedConsole::Unwired);
    assert_eq!(tv_feed(&scene), TvScreenFeed::StaticNoise);
}

#[test]
fn rewiring_switches_consoles() {
    let mut scene = RetroRoomScene::new(None, None, None);
    scene.wire_console_to_tv(SelectedConsole::Nintendo64);
    scene.record_boot(Platform::Nintendo64, &None);
    scene.wire_console_to_tv(SelectedConsole::PlayStation1);
    assert!(scene.active_platform.is_none());
    assert!(!scene.graph.n64_consoles.get("n64_console_1").unwrap().power_switch_on);
    assert!(scene.graph.ps1_consoles.get("ps1_console_1").unwrap().power_button_latched);
    assert!(!scene.graph.is_connected("n64_av_cable_1_rca_yellow", "crt_tv_1_av1_video"));
    assert!(scene.graph.is_connected("ps_av_cable_1_rca_yellow", "crt_tv_1_av1_video"));
    assert_eq!(
        tv_feed(&scene),
        TvScreenFeed::ActiveVideo { console_id: "ps1_console_1".to_string(), platform: Platform::PlayStation1 }
    );
    // the set was already on: its degauss timer is not restarted
    let mut scene2 = RetroRoomScene::new(None, None, None);
    scene2.wire_console_to_tv(SelectedConsole::Unwired);
    assert_eq!(scene2.tick_degauss(300), 500);
    scene2.wire_console_to_tv(SelectedConsole::Unwired);
    assert_eq!(scene2.graph.televisions.get("crt_tv_1").unwrap().degauss_active_timer_ms, 500);
}

#[test]
fn boot_decisions_follow_platform_and_rom() {
    let cart = found_n64_cartridge("Mario", "games/n64/mario.z64");
    let mut scene = RetroRoomScene::new(Some(cart), None, None);
    scene.wire_console_to_tv(SelectedConsole::Nintendo64);
    let rom = scene.media_path("n64_console_1", Platform::Nintendo64);
    assert_eq!(rom, Some("games/n64/mario.z64".to_string()));
    assert_eq!(scene.media_path("ps1_console_1", Platform::PlayStation1), None);
    assert_eq!(scene.media_path("n64_console_1", Platform::SegaGenesis), None);
    assert!(scene.needs_boot(Platform::Nintendo64, &rom));
    scene.record_boot(Platform::Nintendo64, &rom);
    assert!(!scene.needs_boot(Platform::Nintendo64, &rom));
    assert!(scene.needs_boot(Platform::Nintendo64, &None));
    assert!(scene.needs_boot(Platform::PlayStation1, &rom));
    assert!(scene.release_emulation());
    assert!(scene.active_platform.is_none() && scene.active_loaded_rom.is_none());
    assert!(!scene.release_emulation());
}

#[test]
fn degauss_runs_down_to_zero() {
    let mut scene = RetroRoomScene::new(None, None, None);
    assert_eq!(scene.tick_degauss(16), 0);
    scene.wire_console_to_tv(SelectedConsole::Unwired);
    assert_eq!(scene.tick_degauss(16), 784);
    assert_eq!(scene.tick_degauss(1000), 0);
    assert_eq!(scene.tick_degauss(5), 0);
}

#[test]
fn core_library_search_order() {
    let c = core_library_candidates("swanstation");
    assert_eq!(
        c,
        vec![
            "cores/swanstation_libretro.so".to_string(),
            "../../cores/swanstation_libretro.so".to_string(),
            "../cores/swanstation_libretro.so".to_string(),
        ]
    );
}

#[test]
fn wiring_twice_changes_nothing() {
    let mut scene = RetroRoomScene::new(None, None, None);
    scene.wire_console_to_tv(SelectedConsole::PlayStation2);
    let links_once: Vec<(String, String)> =
        scene.graph.connections.as_vec().iter().map(|l| (l.socket.clone(), l.mated.clone())).collect();
    let tv_once = scene.graph.televisions.get("crt_tv_1").unwrap().clone();
    scene.wire_console_to_tv(SelectedConsole::PlayStation2);
    let mut links_twice: Vec<(String, String)> =
        scene.graph.connections.as_vec().iter().map(|l| (l.socket.clone(), l.mated.clone())).collect();
    let mut sorted_once = links_once.clone();
    sorted_once.sort();
    links_twice.sort();
    assert_eq!(sorted_once, links_twice);
    assert_eq!(scene.graph.televisions.get("crt_tv_1").unwrap(), &tv_once);
    assert!(scene.graph.ps2_consoles.get("ps2_console_1").unwrap().is_system_running);
}

#[test]
fn sync_emulation_boots_pauses_and_shows_standby() {
    let mut scene = RetroRoomScene::new(None, None, None);
    scene.wire_console_to_tv(SelectedConsole::Nintendo64);
    let feed = scene.graph.evaluate_tv_screen("crt_tv_1");
    assert_eq!(
        scene.sync_emulation(&feed, None, None),
        EmulationStep::ShowStandby { platform: Platform::Nintendo64 }
    );
    assert!(scene.active_platform.is_none());
    let step = scene.sync_emulation(&feed, Some("m.z64".to_string()), Some("cores/x.so".to_string()));
    assert_eq!(step, EmulationStep::Boot { core_path: "cores/x.so".to_string(), rom: Some("m.z64".to_string()) });
    assert_eq!(scene.active_platform, Some(Platform::Nintendo64));
    assert_eq!(scene.sync_emulation(&feed, Some("m.z64".to_string()), None), EmulationStep::Keep);
    assert_eq!(scene.sync_emulation(&TvScreenFeed::StaticNoise, None, None), EmulationStep::Pause);
    assert!(scene.active_platform.is_none());
    assert_eq!(scene.sync_emulation(&TvScreenFeed::PoweredOff, None, None), EmulationStep::Keep);
}

#[test]
fn speaker_routes_by_screen_and_set() {
    let mut tv = CrtTelevision::new_retro_crt("crt_tv_1");
    let video = TvScreenFeed::ActiveVideo { console_id: "n64".to_string(), platform: Platform::Nintendo64 };
    assert_eq!(audio_route(&TvScreenFeed::PoweredOff, Some(&tv), true, true), AudioRoute::Silent);
    assert_eq!(audio_route(&TvScreenFeed::StaticNoise, Some(&tv), false, false), AudioRoute::Silent);
    tv.toggle_power();
    assert_eq!(audio_route(&TvScreenFeed::StaticNoise, Some(&tv), false, false), AudioRoute::Static { volume: 65 });
    assert_eq!(audio_route(&video, Some(&tv), true, true), AudioRoute::Console { volume: 65, audible: true, hum: false });
    assert_eq!(audio_route(&video, Some(&tv), false, false), AudioRoute::Console { volume: 65, audible: true, hum: true });
    assert_eq!(audio_route(&video, Some(&tv), false, true), AudioRoute::Console { volume: 65, audible: true, hum: false });
    tv.muted = true;
    assert_eq!(audio_route(&TvScreenFeed::StaticNoise, Some(&tv), false, false), AudioRoute::Silent);
    assert_eq!(audio_route(&video, Some(&tv), false, false), AudioRoute::Console { volume: 65, audible: false, hum: false });
    assert_eq!(audio_route(&video, None, false, false), AudioRoute::Console { volume: 100, audible: true, hum: true });
}
