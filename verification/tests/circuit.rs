use emusim::cables::CableEntity;
use emusim::devices::n64::Nintendo64Console;
use emusim::devices::power::{PowerStrip, WallOutlet};
use emusim::devices::tv::{CrtTelevision, TvInputSource};
use emusim::graph::CircuitGraph;
use emusim::media::{CartridgeMedia, Platform};
use emusim::screen::TvScreenFeed;
use emusim::sockets::{RcaColor, SocketKind};

#[test]
fn test_n64_signal_propagation() {
    let mut graph = CircuitGraph::new();

    let outlet = WallOutlet::new("wall");
    let power_strip = PowerStrip::new("strip");
    let mut tv = CrtTelevision::new_retro_crt("tv");
    let mut n64 = Nintendo64Console::new("n64");
    let n64_av = CableEntity::new_nintendo_av_composite("n64_av");
    let n64_power = CableEntity::new_n64_power_adapter("n64_pwr");
    let tv_power = CableEntity::new_power_c7("tv_pwr");

    graph.outlets.insert(outlet);
    graph.power_strips.insert(power_strip);
    graph.televisions.insert(tv.clone());
    graph.n64_consoles.insert(n64.clone());
    graph.cables.insert(n64_av);
    graph.cables.insert(n64_power);
    graph.cables.insert(tv_power);

    // Initially unplugged
    assert_eq!(graph.evaluate_tv_screen("tv"), TvScreenFeed::PoweredOff);

    graph.connect("strip_cord_plug", "wall_top");
    graph.connect("tv_pwr_wall", "strip_outlet_1");
    graph.connect("tv_pwr_c7", "tv_power_in");
    tv.toggle_power();
    graph.televisions.insert(tv);

    // TV on with no input signal shows static
    assert_eq!(graph.evaluate_tv_screen("tv"), TvScreenFeed::StaticNoise);

    graph.connect("n64_pwr_wall", "strip_outlet_2");
    graph.connect("n64_pwr_n64plug", "n64_power_in");
    graph.connect("n64_av_multiout", "n64_multi_out");
    graph.connect("n64_av_rca_yellow", "tv_av1_video");
    graph.connect("n64_av_rca_white", "tv_av1_audio_l");
    graph.connect("n64_av_rca_red", "tv_av1_audio_r");

    let cart = CartridgeMedia {
        id: "mario64".to_string(),
        title: "Super Mario 64".to_string(),
        platform: Platform::Nintendo64,
        rom_path: "sm64.z64".to_string(),
        label_texture_path: None,
        plastic_color_rgba: [50, 50, 50, 255],
    };
    n64.insert_cartridge(cart);
    n64.set_power_switch(true);
    graph.n64_consoles.insert(n64);

    assert_eq!(
        graph.evaluate_tv_screen("tv"),
        TvScreenFeed::ActiveVideo {
            console_id: "n64".to_string(),
            platform: Platform::Nintendo64,
        }
    );
}

fn wired_n64_room() -> CircuitGraph {
    let mut graph = CircuitGraph::new();
    graph.outlets.insert(WallOutlet::new("wall"));
    graph.power_strips.insert(PowerStrip::new("strip"));
    let mut tv = CrtTelevision::new_retro_crt("tv");
    tv.toggle_power();
    graph.televisions.insert(tv);
    let mut n64 = Nintendo64Console::new("n64");
    n64.set_power_switch(true);
    graph.n64_consoles.insert(n64);
    graph.cables.insert(CableEntity::new_nintendo_av_composite("n64_av"));
    graph.cables.insert(CableEntity::new_n64_power_adapter("n64_pwr"));
    graph.cables.insert(CableEntity::new_power_c7("tv_pwr"));
    graph.connect("strip_cord_plug", "wall_top");
    graph.connect("tv_pwr_wall", "strip_outlet_1");
    graph.connect("tv_pwr_c7", "tv_power_in");
    graph.connect("n64_pwr_wall", "strip_outlet_2");
    graph.connect("n64_pwr_n64plug", "n64_power_in");
    graph.connect("n64_av_multiout", "n64_multi_out");
    graph.connect("n64_av_rca_yellow", "tv_av1_video");
    graph
}

#[test]
fn connect_mates_both_ways_and_disconnect_frees_both() {
    let mut graph = CircuitGraph::new();
    graph.connect("a", "b");
    assert!(graph.is_connected("a", "b"));
    assert!(graph.is_connected("b", "a"));
    graph.connect("a", "c");
    assert!(graph.is_connected("a", "c"));
    assert!(graph.is_connected("c", "a"));
    assert!(!graph.is_connected("b", "a"));
    graph.disconnect("c");
    assert!(!graph.is_connected("a", "c"));
    assert!(!graph.is_connected("c", "a"));
    assert_eq!(graph.connections.len(), 0);
}

#[test]
fn mains_power_reaches_console_through_strip() {
    let graph = wired_n64_room();
    let live = graph.evaluate_powered_sockets();
    assert!(live.iter().any(|s| s == "wall_top"));
    assert!(live.iter().any(|s| s == "strip_outlet_2"));
    assert!(graph.is_socket_energized(&live, "n64_power_in"));
    assert!(graph.is_n64_running(&live, "n64"));
    assert!(!graph.is_ps1_running(&live, "n64"));
    // no socket is listed twice
    for (i, a) in live.iter().enumerate() {
        for b in live.iter().skip(i + 1) {
            assert_ne!(a, b);
        }
    }
}

#[test]
fn strip_switched_off_cuts_power() {
    let mut graph = wired_n64_room();
    let mut strip = graph.power_strips.remove("strip").unwrap();
    strip.toggle_switch();
    graph.power_strips.insert(strip);
    let live = graph.evaluate_powered_sockets();
    assert!(!graph.is_socket_energized(&live, "n64_power_in"));
    assert_eq!(graph.evaluate_tv_screen("tv"), TvScreenFeed::PoweredOff);
}

#[test]
fn console_shows_without_cartridge_and_tv_off_is_dark() {
    let mut graph = wired_n64_room();
    assert_eq!(
        graph.evaluate_tv_screen("tv"),
        TvScreenFeed::ActiveVideo { console_id: "n64".to_string(), platform: Platform::Nintendo64 }
    );
    let mut tv = graph.televisions.remove("tv").unwrap();
    tv.cycle_input();
    assert_eq!(tv.input_source, TvInputSource::CompositeAv2);
    graph.televisions.insert(tv.clone());
    assert_eq!(graph.evaluate_tv_screen("tv"), TvScreenFeed::StaticNoise);
    tv.toggle_power();
    graph.televisions.insert(tv);
    assert_eq!(graph.evaluate_tv_screen("tv"), TvScreenFeed::PoweredOff);
    assert_eq!(graph.evaluate_tv_screen("no_such_tv"), TvScreenFeed::PoweredOff);
}

#[test]
fn console_switched_off_gives_static() {
    let mut graph = wired_n64_room();
    let mut n64 = graph.n64_consoles.remove("n64").unwrap();
    n64.set_power_switch(false);
    graph.n64_consoles.insert(n64);
    assert_eq!(graph.evaluate_tv_screen("tv"), TvScreenFeed::StaticNoise);
}

#[test]
fn socket_compatibility_is_symmetric_and_needs_one_plug() {
    let plug = SocketKind::RcaPlug(RcaColor::YellowVideo);
    let jack = SocketKind::RcaJack(RcaColor::YellowVideo);
    assert!(plug.is_compatible_with(&jack));
    assert!(jack.is_compatible_with(&plug));
    assert!(!plug.is_compatible_with(&plug));
    assert!(!jack.is_compatible_with(&jack));
    assert!(plug.is_plug() && !plug.is_jack());
    assert!(jack.is_jack() && !jack.is_plug());
    assert!(!SocketKind::WallAcPlug.is_compatible_with(&SocketKind::IecC7Jack));
    assert!(SocketKind::WallAcPlug.is_compatible_with(&SocketKind::WallAcOutlet));
    // a red plug fits a yellow jack
    assert!(SocketKind::RcaPlug(RcaColor::RedAudioRight).is_compatible_with(&jack));
}

#[test]
fn switched_off_strip_feeds_nothing_and_switching_on_only_adds_power() {
    let mut graph = wired_n64_room();
    let on = graph.evaluate_powered_sockets();
    let mut strip = graph.power_strips.remove("strip").unwrap();
    strip.toggle_switch();
    graph.power_strips.insert(strip);
    let off = graph.evaluate_powered_sockets();
    for j in 1..=6 {
        let id = format!("strip_outlet_{}", j);
        assert!(!off.contains(&id));
        assert!(on.contains(&id));
    }
    for s in &off {
        assert!(on.contains(s));
    }
}

#[test]
fn component_input_shows_the_console_wired_to_it() {
    let mut graph = wired_n64_room();
    graph.connect("n64_av_rca_yellow", "tv_component_y");
    let mut tv = graph.televisions.remove("tv").unwrap();
    assert_eq!(graph.evaluate_tv_screen("tv"), TvScreenFeed::PoweredOff);
    tv.cycle_input();
    tv.cycle_input();
    assert_eq!(tv.input_source, TvInputSource::ComponentYPbPr);
    graph.televisions.insert(tv.clone());
    assert_eq!(
        graph.evaluate_tv_screen("tv"),
        TvScreenFeed::ActiveVideo { console_id: "n64".to_string(), platform: Platform::Nintendo64 }
    );
    // the antenna channels have no jack and show static
    tv.cycle_input();
    graph.televisions.insert(tv);
    assert_eq!(graph.evaluate_tv_screen("tv"), TvScreenFeed::StaticNoise);
}
