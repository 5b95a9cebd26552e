use vstd::prelude::*;
use vstd::string::*;
use crate::cables::{
    n64_power_adapter_cable, nintendo_av_cable, playstation_av_cable, power_c7_cable, CableEntity,
};
use crate::devices::n64::{fresh_n64, Nintendo64Console};
use crate::devices::power::{fresh_power_strip, fresh_wall_outlet, PowerStrip, WallOutlet};
use crate::devices::ps1::{fresh_ps1, PlayStation1Console};
use crate::devices::ps2::{fresh_ps2, PlayStation2Console};
use crate::devices::tv::{fresh_retro_crt, CrtTelevision, DEGAUSS_DURATION_MS};
use crate::graph::{
    lemma_connect_mates, lemma_connect_symmetric, lemma_disconnect_frees, lemma_disconnect_symmetric,
    lemma_plug_keeps, lemma_steps_idempotent, lemma_unplug_keeps, links, plug_steps, plugged, symmetric,
    unplugged, CircuitGraph,
};
use crate::media::{CartridgeMedia, DiscMedia, Platform};
use crate::screen::TvScreenFeed;
use crate::text::{ascii_lower, ascii_lower_equals, suffixed};

verus! {

/// The console that the room wires to the television's first composite input.
#[derive(Debug, Clone, Copy, PartialEq, Eq, Structural)]
pub enum SelectedConsole {
    Nintendo64,
    PlayStation1,
    PlayStation2,
    Unwired,
}

/// The console a command-line name selects, compared without regard to
/// ASCII case; an unknown name selects the Nintendo 64.
pub open spec fn console_named(name: Seq<char>) -> SelectedConsole {
    let n = ascii_lower(name);
    if n == "n64"@ || n == "nintendo64"@ {
        SelectedConsole::Nintendo64
    } else if n == "ps1"@ || n == "psx"@ || n == "playstation"@ || n == "playstation1"@ {
        SelectedConsole::PlayStation1
    } else if n == "ps2"@ || n == "playstation2"@ {
        SelectedConsole::PlayStation2
    } else if n == "none"@ || n == "static"@ || n == "tv"@ {
        SelectedConsole::Unwired
    } else {
        SelectedConsole::Nintendo64
    }
}

/// The name shown for a selection.
pub open spec fn console_title(c: SelectedConsole) -> Seq<char> {
    match c {
        SelectedConsole::Nintendo64 => "Nintendo 64"@,
        SelectedConsole::PlayStation1 => "Sony PlayStation 1"@,
        SelectedConsole::PlayStation2 => "Sony PlayStation 2"@,
        SelectedConsole::Unwired => "None (Unwired)"@,
    }
}

impl SelectedConsole {
    pub fn from_str_name(name: &str) -> (r: Self)
        ensures
            r == console_named(name@),
    {
        if ascii_lower_equals(name, "n64") || ascii_lower_equals(name, "nintendo64") {
            SelectedConsole::Nintendo64
        } else if ascii_lower_equals(name, "ps1") || ascii_lower_equals(name, "psx")
            || ascii_lower_equals(name, "playstation") || ascii_lower_equals(name, "playstation1") {
            SelectedConsole::PlayStation1
        } else if ascii_lower_equals(name, "ps2") || ascii_lower_equals(name, "playstation2") {
            SelectedConsole::PlayStation2
        } else if ascii_lower_equals(name, "none") || ascii_lower_equals(name, "static")
            || ascii_lower_equals(name, "tv") {
            SelectedConsole::Unwired
        } else {
            SelectedConsole::Nintendo64
        }
    }

    pub fn display_name(&self) -> (r: &'static str)
        ensures
            r@ == console_title(*self),
    {
        match self {
            SelectedConsole::Nintendo64 => "Nintendo 64",
            SelectedConsole::PlayStation1 => "Sony PlayStation 1",
            SelectedConsole::PlayStation2 => "Sony PlayStation 2",
            SelectedConsole::Unwired => "None (Unwired)",
        }
    }
}


/// The map with the entry under `k`, if there is one, replaced by `f` of it.
pub open spec fn updated<T>(m: Map<Seq<char>, T>, k: Seq<char>, f: spec_fn(T) -> T) -> Map<Seq<char>, T> {
    if m.contains_key(k) {
        m.insert(k, f(m[k]))
    } else {
        m
    }
}

/// A set that is on stays as it is; one that is off is switched on, which
/// starts the degauss wobble.
pub open spec fn switched_on(t: CrtTelevision) -> CrtTelevision {
    if t.power_on {
        t
    } else {
        CrtTelevision { power_on: true, degauss_active_timer_ms: DEGAUSS_DURATION_MS, ..t }
    }
}

/// The Nintendo 64 with its power slider on exactly when it is the selection.
pub open spec fn n64_for(c: SelectedConsole) -> spec_fn(Nintendo64Console) -> Nintendo64Console {
    |n: Nintendo64Console| Nintendo64Console { power_switch_on: c == SelectedConsole::Nintendo64, ..n }
}

/// The PlayStation with its power button latched exactly when it is the selection.
pub open spec fn ps1_for(c: SelectedConsole) -> spec_fn(PlayStation1Console) -> PlayStation1Console {
    |p: PlayStation1Console| PlayStation1Console { power_button_latched: c == SelectedConsole::PlayStation1, ..p }
}

/// The PlayStation 2 running exactly when it is the selection; selecting it
/// also turns its rear switch on.
pub open spec fn ps2_for(c: SelectedConsole) -> spec_fn(PlayStation2Console) -> PlayStation2Console {
    |p: PlayStation2Console|
        if c == SelectedConsole::PlayStation2 {
            PlayStation2Console { rear_rocker_switch_on: true, is_system_running: true, ..p }
        } else {
            PlayStation2Console { is_system_running: false, ..p }
        }
}

/// The room's mains wiring: strip into the wall, television into the strip,
/// and the television's first composite input emptied.
pub open spec fn mains_wiring(m: Map<Seq<char>, Seq<char>>) -> Map<Seq<char>, Seq<char>> {
    let m = plugged(m, "power_strip_1_cord_plug"@, "wall_outlet_1_top"@);
    let m = plugged(m, "tv_power_1_wall"@, "power_strip_1_outlet_1"@);
    let m = plugged(m, "tv_power_1_c7"@, "crt_tv_1_power_in"@);
    let m = unplugged(m, "crt_tv_1_av1_video"@);
    let m = unplugged(m, "crt_tv_1_av1_audio_l"@);
    unplugged(m, "crt_tv_1_av1_audio_r"@)
}

/// A PlayStation console, given by its power inlet and multi-out sockets, on
/// the shared power cord from the third strip outlet, and the PlayStation AV
/// cable from its multi-out into the television's first composite input.
pub open spec fn playstation_wiring(
    m: Map<Seq<char>, Seq<char>>,
    power_in: Seq<char>,
    multi_out: Seq<char>,
) -> Map<Seq<char>, Seq<char>> {
    let m = plugged(m, "ps1_power_1_wall"@, "power_strip_1_outlet_3"@);
    let m = plugged(m, "ps1_power_1_c7"@, power_in);
    let m = plugged(m, "ps_av_cable_1_ps_multiout"@, multi_out);
    let m = plugged(m, "ps_av_cable_1_rca_yellow"@, "crt_tv_1_av1_video"@);
    let m = plugged(m, "ps_av_cable_1_rca_white"@, "crt_tv_1_av1_audio_l"@);
    plugged(m, "ps_av_cable_1_rca_red"@, "crt_tv_1_av1_audio_r"@)
}

/// The plug map after wiring the selection to the television.
pub open spec fn console_wiring(m: Map<Seq<char>, Seq<char>>, c: SelectedConsole) -> Map<
    Seq<char>,
    Seq<char>,
> {
    let m = mains_wiring(m);
    match c {
        SelectedConsole::Nintendo64 => {
            let m = plugged(m, "n64_power_1_wall"@, "power_strip_1_outlet_2"@);
            let m = plugged(m, "n64_power_1_n64plug"@, "n64_console_1_power_in"@);
            let m = plugged(m, "n64_av_cable_1_multiout"@, "n64_console_1_multi_out"@);
            let m = plugged(m, "n64_av_cable_1_rca_yellow"@, "crt_tv_1_av1_video"@);
            let m = plugged(m, "n64_av_cable_1_rca_white"@, "crt_tv_1_av1_audio_l"@);
            plugged(m, "n64_av_cable_1_rca_red"@, "crt_tv_1_av1_audio_r"@)
        },
        SelectedConsole::PlayStation1 => playstation_wiring(
            m,
            "ps1_console_1_power_in"@,
            "ps1_console_1_multi_out"@,
        ),
        SelectedConsole::PlayStation2 => playstation_wiring(
            m,
            "ps2_console_1_power_in"@,
            "ps2_console_1_multi_out"@,
        ),
        SelectedConsole::Unwired => m,
    }
}

/// `x` is plugged into `y`.
pub open spec fn mated(m: Map<Seq<char>, Seq<char>>, x: Seq<char>, y: Seq<char>) -> bool {
    m.contains_key(x) && m[x] == y
}

/// The lengths of the room's socket names, and a place where each pair of
/// equally long names differs: enough to tell any two of them apart.
proof fn lemma_socket_names()
    ensures
        "power_strip_1_cord_plug"@.len() == 23,
        "wall_outlet_1_top"@.len() == 17,
        "tv_power_1_wall"@.len() == 15,
        "power_strip_1_outlet_1"@.len() == 22,
        "tv_power_1_c7"@.len() == 13,
        "crt_tv_1_power_in"@.len() == 17,
        "crt_tv_1_av1_video"@.len() == 18,
        "crt_tv_1_av1_audio_l"@.len() == 20,
        "crt_tv_1_av1_audio_r"@.len() == 20,
        "n64_power_1_wall"@.len() == 16,
        "power_strip_1_outlet_2"@.len() == 22,
        "n64_power_1_n64plug"@.len() == 19,
        "n64_console_1_power_in"@.len() == 22,
        "n64_av_cable_1_multiout"@.len() == 23,
        "n64_console_1_multi_out"@.len() == 23,
        "n64_av_cable_1_rca_yellow"@.len() == 25,
        "n64_av_cable_1_rca_white"@.len() == 24,
        "n64_av_cable_1_rca_red"@.len() == 22,
        "ps1_power_1_wall"@.len() == 16,
        "power_strip_1_outlet_3"@.len() == 22,
        "ps1_power_1_c7"@.len() == 14,
        "ps1_console_1_power_in"@.len() == 22,
        "ps_av_cable_1_ps_multiout"@.len() == 25,
        "ps1_console_1_multi_out"@.len() == 23,
        "ps_av_cable_1_rca_yellow"@.len() == 24,
        "ps_av_cable_1_rca_white"@.len() == 23,
        "ps_av_cable_1_rca_red"@.len() == 21,
        "ps2_console_1_power_in"@.len() == 22,
        "ps2_console_1_multi_out"@.len() == 23,
        "power_strip_1_cord_plug"@[0] != "n64_av_cable_1_multiout"@[0],
        "power_strip_1_cord_plug"@[0] != "n64_console_1_multi_out"@[0],
        "power_strip_1_cord_plug"@[1] != "ps1_console_1_multi_out"@[1],
        "power_strip_1_cord_plug"@[1] != "ps_av_cable_1_rca_white"@[1],
        "power_strip_1_cord_plug"@[1] != "ps2_console_1_multi_out"@[1],
        "wall_outlet_1_top"@[0] != "crt_tv_1_power_in"@[0],
        "power_strip_1_outlet_1"@[21] != "power_strip_1_outlet_2"@[21],
        "power_strip_1_outlet_1"@[0] != "n64_console_1_power_in"@[0],
        "power_strip_1_outlet_1"@[0] != "n64_av_cable_1_rca_red"@[0],
        "power_strip_1_outlet_1"@[21] != "power_strip_1_outlet_3"@[21],
        "power_strip_1_outlet_1"@[1] != "ps1_console_1_power_in"@[1],
        "power_strip_1_outlet_1"@[1] != "ps2_console_1_power_in"@[1],
        "crt_tv_1_av1_audio_l"@[19] != "crt_tv_1_av1_audio_r"@[19],
        "n64_power_1_wall"@[0] != "ps1_power_1_wall"@[0],
        "power_strip_1_outlet_2"@[0] != "n64_console_1_power_in"@[0],
        "power_strip_1_outlet_2"@[0] != "n64_av_cable_1_rca_red"@[0],
        "power_strip_1_outlet_2"@[21] != "power_strip_1_outlet_3"@[21],
        "power_strip_1_outlet_2"@[1] != "ps1_console_1_power_in"@[1],
        "power_strip_1_outlet_2"@[1] != "ps2_console_1_power_in"@[1],
        "n64_console_1_power_in"@[4] != "n64_av_cable_1_rca_red"@[4],
        "n64_console_1_power_in"@[0] != "power_strip_1_outlet_3"@[0],
        "n64_console_1_power_in"@[0] != "ps1_console_1_power_in"@[0],
        "n64_console_1_power_in"@[0] != "ps2_console_1_power_in"@[0],
        "n64_av_cable_1_multiout"@[4] != "n64_console_1_multi_out"@[4],
        "n64_av_cable_1_multiout"@[0] != "ps1_console_1_multi_out"@[0],
        "n64_av_cable_1_multiout"@[0] != "ps_av_cable_1_rca_white"@[0],
        "n64_av_cable_1_multiout"@[0] != "ps2_console_1_multi_out"@[0],
        "n64_console_1_multi_out"@[0] != "ps1_console_1_multi_out"@[0],
        "n64_console_1_multi_out"@[0] != "ps_av_cable_1_rca_white"@[0],
        "n64_console_1_multi_out"@[0] != "ps2_console_1_multi_out"@[0],
        "n64_av_cable_1_rca_yellow"@[0] != "ps_av_cable_1_ps_multiout"@[0],
        "n64_av_cable_1_rca_white"@[0] != "ps_av_cable_1_rca_yellow"@[0],
        "n64_av_cable_1_rca_red"@[0] != "power_strip_1_outlet_3"@[0],
        "n64_av_cable_1_rca_red"@[0] != "ps1_console_1_power_in"@[0],
        "n64_av_cable_1_rca_red"@[0] != "ps2_console_1_power_in"@[0],
        "power_strip_1_outlet_3"@[1] != "ps1_console_1_power_in"@[1],
        "power_strip_1_outlet_3"@[1] != "ps2_console_1_power_in"@[1],
        "ps1_console_1_power_in"@[2] != "ps2_console_1_power_in"@[2],
        "ps1_console_1_multi_out"@[2] != "ps_av_cable_1_rca_white"@[2],
        "ps1_console_1_multi_out"@[2] != "ps2_console_1_multi_out"@[2],
        "ps_av_cable_1_rca_white"@[2] != "ps2_console_1_multi_out"@[2],
{
    reveal_strlit("power_strip_1_cord_plug");
    reveal_strlit("wall_outlet_1_top");
    reveal_strlit("tv_power_1_wall");
    reveal_strlit("power_strip_1_outlet_1");
    reveal_strlit("tv_power_1_c7");
    reveal_strlit("crt_tv_1_power_in");
    reveal_strlit("crt_tv_1_av1_video");
    reveal_strlit("crt_tv_1_av1_audio_l");
    reveal_strlit("crt_tv_1_av1_audio_r");
    reveal_strlit("n64_power_1_wall");
    reveal_strlit("power_strip_1_outlet_2");
    reveal_strlit("n64_power_1_n64plug");
    reveal_strlit("n64_console_1_power_in");
    reveal_strlit("n64_av_cable_1_multiout");
    reveal_strlit("n64_console_1_multi_out");
    reveal_strlit("n64_av_cable_1_rca_yellow");
    reveal_strlit("n64_av_cable_1_rca_white");
    reveal_strlit("n64_av_cable_1_rca_red");
    reveal_strlit("ps1_power_1_wall");
    reveal_strlit("power_strip_1_outlet_3");
    reveal_strlit("ps1_power_1_c7");
    reveal_strlit("ps1_console_1_power_in");
    reveal_strlit("ps_av_cable_1_ps_multiout");
    reveal_strlit("ps1_console_1_multi_out");
    reveal_strlit("ps_av_cable_1_rca_yellow");
    reveal_strlit("ps_av_cable_1_rca_white");
    reveal_strlit("ps_av_cable_1_rca_red");
    reveal_strlit("ps2_console_1_power_in");
    reveal_strlit("ps2_console_1_multi_out");
}

proof fn lemma_mains_wiring(m: Map<Seq<char>, Seq<char>>)
    requires
        symmetric(m),
    ensures
        symmetric(mains_wiring(m)),
        mated(mains_wiring(m), "crt_tv_1_power_in"@, "tv_power_1_c7"@),
        !mains_wiring(m).contains_key("crt_tv_1_av1_video"@),
        !mains_wiring(m).contains_key("crt_tv_1_av1_audio_l"@),
        !mains_wiring(m).contains_key("crt_tv_1_av1_audio_r"@),
{
    lemma_socket_names();
    let m1 = plugged(m, "power_strip_1_cord_plug"@, "wall_outlet_1_top"@);
    lemma_connect_symmetric(m, "power_strip_1_cord_plug"@, "wall_outlet_1_top"@);
    let m2 = plugged(m1, "tv_power_1_wall"@, "power_strip_1_outlet_1"@);
    lemma_connect_symmetric(m1, "tv_power_1_wall"@, "power_strip_1_outlet_1"@);
    let m3 = plugged(m2, "tv_power_1_c7"@, "crt_tv_1_power_in"@);
    lemma_connect_symmetric(m2, "tv_power_1_c7"@, "crt_tv_1_power_in"@);
    lemma_connect_mates(m2, "tv_power_1_c7"@, "crt_tv_1_power_in"@);
    let m4 = unplugged(m3, "crt_tv_1_av1_video"@);
    lemma_unplug_keeps(m3, "crt_tv_1_av1_video"@, "crt_tv_1_power_in"@);
    lemma_disconnect_frees(m3, "crt_tv_1_av1_video"@);
    let m5 = unplugged(m4, "crt_tv_1_av1_audio_l"@);
    lemma_unplug_keeps(m4, "crt_tv_1_av1_audio_l"@, "crt_tv_1_power_in"@);
    lemma_disconnect_frees(m4, "crt_tv_1_av1_audio_l"@);
    lemma_unplug_keeps(m5, "crt_tv_1_av1_audio_r"@, "crt_tv_1_power_in"@);
    lemma_disconnect_frees(m5, "crt_tv_1_av1_audio_r"@);
}

proof fn lemma_console_plugs(
    m: Map<Seq<char>, Seq<char>>,
    wall: Seq<char>,
    outlet: Seq<char>,
    cord: Seq<char>,
    power_in: Seq<char>,
    av_plug: Seq<char>,
    multi_out: Seq<char>,
    yellow: Seq<char>,
    white: Seq<char>,
    red: Seq<char>,
)
    requires
        symmetric(m),
        mated(m, "crt_tv_1_power_in"@, "tv_power_1_c7"@),
        !m.contains_key("crt_tv_1_av1_video"@),
        ({
            let named = seq![wall, outlet, cord, power_in, av_plug, multi_out, yellow, white, red,
                "crt_tv_1_power_in"@, "tv_power_1_c7"@, "crt_tv_1_av1_video"@, "crt_tv_1_av1_audio_l"@,
                "crt_tv_1_av1_audio_r"@];
            forall|i: int, j: int| 0 <= i < j < named.len() ==> named[i] != named[j]
        }),
    ensures
        ({
            let m = plugged(m, wall, outlet);
            let m = plugged(m, cord, power_in);
            let m = plugged(m, av_plug, multi_out);
            let m = plugged(m, yellow, "crt_tv_1_av1_video"@);
            let m = plugged(m, white, "crt_tv_1_av1_audio_l"@);
            let m = plugged(m, red, "crt_tv_1_av1_audio_r"@);
            &&& symmetric(m)
            &&& mated(m, "crt_tv_1_power_in"@, "tv_power_1_c7"@)
            &&& mated(m, power_in, cord)
            &&& mated(m, multi_out, av_plug)
            &&& mated(m, "crt_tv_1_av1_video"@, yellow)
        }),
{
    let named = seq![wall, outlet, cord, power_in, av_plug, multi_out, yellow, white, red,
        "crt_tv_1_power_in"@, "tv_power_1_c7"@, "crt_tv_1_av1_video"@, "crt_tv_1_av1_audio_l"@,
        "crt_tv_1_av1_audio_r"@];
    assert(named[0] != named[9] && named[0] != named[10] && named[1] != named[9] && named[1] != named[10]);
    assert(named[2] != named[9] && named[2] != named[10] && named[3] != named[9] && named[3] != named[10]);
    assert(named[4] != named[9] && named[4] != named[10] && named[5] != named[9] && named[5] != named[10]);
    assert(named[6] != named[9] && named[6] != named[10] && named[7] != named[9] && named[7] != named[10]);
    assert(named[8] != named[9] && named[8] != named[10] && named[11] != named[9] && named[11] != named[10]);
    assert(named[12] != named[9] && named[12] != named[10] && named[13] != named[9] && named[13] != named[10]);
    assert(named[2] != named[3] && named[4] != named[5] && named[6] != named[11]);
    assert(named[3] != named[4] && named[3] != named[5] && named[3] != named[6] && named[3] != named[7]);
    assert(named[3] != named[8] && named[3] != named[11] && named[3] != named[12] && named[3] != named[13]);
    assert(named[2] != named[4] && named[2] != named[5] && named[2] != named[6] && named[2] != named[7]);
    assert(named[2] != named[8] && named[2] != named[11] && named[2] != named[12] && named[2] != named[13]);
    assert(named[5] != named[6] && named[5] != named[7] && named[5] != named[8] && named[5] != named[11]);
    assert(named[5] != named[12] && named[5] != named[13] && named[4] != named[6] && named[4] != named[7]);
    assert(named[4] != named[8] && named[4] != named[11] && named[4] != named[12] && named[4] != named[13]);
    assert(named[11] != named[7] && named[11] != named[8] && named[11] != named[12] && named[11] != named[13]);
    assert(named[6] != named[7] && named[6] != named[8] && named[6] != named[12] && named[6] != named[13]);
    let tv_in = "crt_tv_1_power_in"@;
    let video = "crt_tv_1_av1_video"@;
    let n1 = plugged(m, wall, outlet);
    lemma_plug_keeps(m, wall, outlet, tv_in);
    let n2 = plugged(n1, cord, power_in);
    lemma_plug_keeps(n1, cord, power_in, tv_in);
    lemma_connect_mates(n1, cord, power_in);
    let n3 = plugged(n2, av_plug, multi_out);
    lemma_plug_keeps(n2, av_plug, multi_out, tv_in);
    lemma_plug_keeps(n2, av_plug, multi_out, power_in);
    lemma_connect_mates(n2, av_plug, multi_out);
    let n4 = plugged(n3, yellow, video);
    lemma_plug_keeps(n3, yellow, video, tv_in);
    lemma_plug_keeps(n3, yellow, video, power_in);
    lemma_plug_keeps(n3, yellow, video, multi_out);
    lemma_connect_mates(n3, yellow, video);
    let n5 = plugged(n4, white, "crt_tv_1_av1_audio_l"@);
    lemma_plug_keeps(n4, white, "crt_tv_1_av1_audio_l"@, tv_in);
    lemma_plug_keeps(n4, white, "crt_tv_1_av1_audio_l"@, power_in);
    lemma_plug_keeps(n4, white, "crt_tv_1_av1_audio_l"@, multi_out);
    lemma_plug_keeps(n4, white, "crt_tv_1_av1_audio_l"@, video);
    lemma_plug_keeps(n5, red, "crt_tv_1_av1_audio_r"@, tv_in);
    lemma_plug_keeps(n5, red, "crt_tv_1_av1_audio_r"@, power_in);
    lemma_plug_keeps(n5, red, "crt_tv_1_av1_audio_r"@, multi_out);
    lemma_plug_keeps(n5, red, "crt_tv_1_av1_audio_r"@, video);
}

/// Wiring a console to the television, from any consistent plug map, leaves
/// the television's power inlet on its mains cord, and the selected console
/// on its power cord with its multi-out carrying the AV cable whose yellow
/// plug sits in the television's first video input; with no console selected
/// that input is empty. Every connection stays recorded in both directions.
pub proof fn lemma_wiring_feeds_av1(m: Map<Seq<char>, Seq<char>>, c: SelectedConsole)
    requires
        symmetric(m),
    ensures
        symmetric(console_wiring(m, c)),
        mated(console_wiring(m, c), "crt_tv_1_power_in"@, "tv_power_1_c7"@),
        c == SelectedConsole::Nintendo64 ==> {
            &&& mated(console_wiring(m, c), "n64_console_1_power_in"@, "n64_power_1_n64plug"@)
            &&& mated(console_wiring(m, c), "n64_console_1_multi_out"@, "n64_av_cable_1_multiout"@)
            &&& mated(console_wiring(m, c), "crt_tv_1_av1_video"@, "n64_av_cable_1_rca_yellow"@)
        },
        c == SelectedConsole::PlayStation1 ==> {
            &&& mated(console_wiring(m, c), "ps1_console_1_power_in"@, "ps1_power_1_c7"@)
            &&& mated(console_wiring(m, c), "ps1_console_1_multi_out"@, "ps_av_cable_1_ps_multiout"@)
            &&& mated(console_wiring(m, c), "crt_tv_1_av1_video"@, "ps_av_cable_1_rca_yellow"@)
        },
        c == SelectedConsole::PlayStation2 ==> {
            &&& mated(console_wiring(m, c), "ps2_console_1_power_in"@, "ps1_power_1_c7"@)
            &&& mated(console_wiring(m, c), "ps2_console_1_multi_out"@, "ps_av_cable_1_ps_multiout"@)
            &&& mated(console_wiring(m, c), "crt_tv_1_av1_video"@, "ps_av_cable_1_rca_yellow"@)
        },
        c == SelectedConsole::Unwired ==> !console_wiring(m, c).contains_key("crt_tv_1_av1_video"@),
{
    lemma_socket_names();
    lemma_mains_wiring(m);
    let base = mains_wiring(m);
    match c {
        SelectedConsole::Nintendo64 => {
            lemma_console_plugs(
                base,
                "n64_power_1_wall"@,
                "power_strip_1_outlet_2"@,
                "n64_power_1_n64plug"@,
                "n64_console_1_power_in"@,
                "n64_av_cable_1_multiout"@,
                "n64_console_1_multi_out"@,
                "n64_av_cable_1_rca_yellow"@,
                "n64_av_cable_1_rca_white"@,
                "n64_av_cable_1_rca_red"@,
            );
        },
        SelectedConsole::PlayStation1 => {
            lemma_console_plugs(
                base,
                "ps1_power_1_wall"@,
                "power_strip_1_outlet_3"@,
                "ps1_power_1_c7"@,
                "ps1_console_1_power_in"@,
                "ps_av_cable_1_ps_multiout"@,
                "ps1_console_1_multi_out"@,
                "ps_av_cable_1_rca_yellow"@,
                "ps_av_cable_1_rca_white"@,
                "ps_av_cable_1_rca_red"@,
            );
        },
        SelectedConsole::PlayStation2 => {
            lemma_console_plugs(
                base,
                "ps1_power_1_wall"@,
                "power_strip_1_outlet_3"@,
                "ps1_power_1_c7"@,
                "ps2_console_1_power_in"@,
                "ps_av_cable_1_ps_multiout"@,
                "ps2_console_1_multi_out"@,
                "ps_av_cable_1_rca_yellow"@,
                "ps_av_cable_1_rca_white"@,
                "ps_av_cable_1_rca_red"@,
            );
        },
        SelectedConsole::Unwired => {},
    }
}

/// The plug changes that wiring the selection makes, in order.
pub open spec fn wiring_steps(c: SelectedConsole) -> Seq<(bool, Seq<char>, Seq<char>)> {
    match c {
        SelectedConsole::Nintendo64 => seq![
            (true, "power_strip_1_cord_plug"@, "wall_outlet_1_top"@),
            (true, "tv_power_1_wall"@, "power_strip_1_outlet_1"@),
            (true, "tv_power_1_c7"@, "crt_tv_1_power_in"@),
            (false, "crt_tv_1_av1_video"@, Seq::empty()),
            (false, "crt_tv_1_av1_audio_l"@, Seq::empty()),
            (false, "crt_tv_1_av1_audio_r"@, Seq::empty()),
            (true, "n64_power_1_wall"@, "power_strip_1_outlet_2"@),
            (true, "n64_power_1_n64plug"@, "n64_console_1_power_in"@),
            (true, "n64_av_cable_1_multiout"@, "n64_console_1_multi_out"@),
            (true, "n64_av_cable_1_rca_yellow"@, "crt_tv_1_av1_video"@),
            (true, "n64_av_cable_1_rca_white"@, "crt_tv_1_av1_audio_l"@),
            (true, "n64_av_cable_1_rca_red"@, "crt_tv_1_av1_audio_r"@),
        ],
        SelectedConsole::PlayStation1 => seq![
            (true, "power_strip_1_cord_plug"@, "wall_outlet_1_top"@),
            (true, "tv_power_1_wall"@, "power_strip_1_outlet_1"@),
            (true, "tv_power_1_c7"@, "crt_tv_1_power_in"@),
            (false, "crt_tv_1_av1_video"@, Seq::empty()),
            (false, "crt_tv_1_av1_audio_l"@, Seq::empty()),
            (false, "crt_tv_1_av1_audio_r"@, Seq::empty()),
            (true, "ps1_power_1_wall"@, "power_strip_1_outlet_3"@),
            (true, "ps1_power_1_c7"@, "ps1_console_1_power_in"@),
            (true, "ps_av_cable_1_ps_multiout"@, "ps1_console_1_multi_out"@),
            (true, "ps_av_cable_1_rca_yellow"@, "crt_tv_1_av1_video"@),
            (true, "ps_av_cable_1_rca_white"@, "crt_tv_1_av1_audio_l"@),
            (true, "ps_av_cable_1_rca_red"@, "crt_tv_1_av1_audio_r"@),
        ],
        SelectedConsole::PlayStation2 => seq![
            (true, "power_strip_1_cord_plug"@, "wall_outlet_1_top"@),
            (true, "tv_power_1_wall"@, "power_strip_1_outlet_1"@),
            (true, "tv_power_1_c7"@, "crt_tv_1_power_in"@),
            (false, "crt_tv_1_av1_video"@, Seq::empty()),
            (false, "crt_tv_1_av1_audio_l"@, Seq::empty()),
            (false, "crt_tv_1_av1_audio_r"@, Seq::empty()),
            (true, "ps1_power_1_wall"@, "power_strip_1_outlet_3"@),
            (true, "ps1_power_1_c7"@, "ps2_console_1_power_in"@),
            (true, "ps_av_cable_1_ps_multiout"@, "ps2_console_1_multi_out"@),
            (true, "ps_av_cable_1_rca_yellow"@, "crt_tv_1_av1_video"@),
            (true, "ps_av_cable_1_rca_white"@, "crt_tv_1_av1_audio_l"@),
            (true, "ps_av_cable_1_rca_red"@, "crt_tv_1_av1_audio_r"@),
        ],
        SelectedConsole::Unwired => seq![
            (true, "power_strip_1_cord_plug"@, "wall_outlet_1_top"@),
            (true, "tv_power_1_wall"@, "power_strip_1_outlet_1"@),
            (true, "tv_power_1_c7"@, "crt_tv_1_power_in"@),
            (false, "crt_tv_1_av1_video"@, Seq::empty()),
            (false, "crt_tv_1_av1_audio_l"@, Seq::empty()),
            (false, "crt_tv_1_av1_audio_r"@, Seq::empty()),
        ],
    }
}

proof fn lemma_wiring_as_steps(m: Map<Seq<char>, Seq<char>>, c: SelectedConsole)
    ensures
        console_wiring(m, c) == plug_steps(m, wiring_steps(c)),
{
    reveal_with_fuel(plug_steps, 13);
}

/// Wiring the same selection twice in a row plugs nothing differently than
/// wiring it once.
pub proof fn lemma_wiring_idempotent(m: Map<Seq<char>, Seq<char>>, c: SelectedConsole)
    requires
        symmetric(m),
    ensures
        console_wiring(console_wiring(m, c), c) == console_wiring(m, c),
{
    lemma_wiring_as_steps(m, c);
    lemma_wiring_as_steps(console_wiring(m, c), c);
    lemma_steps_idempotent(m, wiring_steps(c));
}

proof fn lemma_updated_twice<T>(m: Map<Seq<char>, T>, k: Seq<char>, f: spec_fn(T) -> T)
    requires
        m.contains_key(k) ==> f(f(m[k])) == f(m[k]),
    ensures
        updated(updated(m, k, f), k, f) == updated(m, k, f),
{
    if m.contains_key(k) {
        assert(updated(updated(m, k, f), k, f) =~= updated(m, k, f));
    }
}

/// The decided part of the room: its circuit graph, and the platform and ROM
/// that the emulator was last booted with.
#[derive(Debug)]
pub struct RetroRoomScene {
    pub graph: CircuitGraph,
    pub active_loaded_rom: Option<String>,
    pub active_platform: Option<Platform>,
}

fn switch_tv_on(g: &mut CircuitGraph, id: &str)
    ensures
        final(g).televisions.map() == updated(old(g).televisions.map(), id@, |t: CrtTelevision| switched_on(t)),
        *final(g) == (CircuitGraph { televisions: final(g).televisions, ..*old(g) }),
{
    let ghost m0 = g.televisions.map();
    match g.televisions.remove(id) {
        Some(mut tv) => {
            if !tv.power_on {
                tv.toggle_power();
            }
            g.televisions.insert(tv);
            proof {
                assert(g.televisions.map() =~= m0.insert(id@, switched_on(m0[id@])));
            }
        },
        None => {
            proof {
                assert(g.televisions.map() =~= m0);
            }
        },
    }
}

fn select_n64(g: &mut CircuitGraph, c: SelectedConsole)
    ensures
        final(g).n64_consoles.map() == updated(old(g).n64_consoles.map(), "n64_console_1"@, n64_for(c)),
        *final(g) == (CircuitGraph { n64_consoles: final(g).n64_consoles, ..*old(g) }),
{
    let ghost m0 = g.n64_consoles.map();
    match g.n64_consoles.remove("n64_console_1") {
        Some(mut n64) => {
            n64.set_power_switch(c == SelectedConsole::Nintendo64);
            g.n64_consoles.insert(n64);
            proof {
                assert(g.n64_consoles.map() =~= m0.insert("n64_console_1"@, n64_for(c)(m0["n64_console_1"@])));
            }
        },
        None => {
            proof {
                assert(g.n64_consoles.map() =~= m0);
            }
        },
    }
}

fn select_ps1(g: &mut CircuitGraph, c: SelectedConsole)
    ensures
        final(g).ps1_consoles.map() == updated(old(g).ps1_consoles.map(), "ps1_console_1"@, ps1_for(c)),
        *final(g) == (CircuitGraph { ps1_consoles: final(g).ps1_consoles, ..*old(g) }),
{
    let ghost m0 = g.ps1_consoles.map();
    match g.ps1_consoles.remove("ps1_console_1") {
        Some(mut ps1) => {
            ps1.power_button_latched = c == SelectedConsole::PlayStation1;
            g.ps1_consoles.insert(ps1);
            proof {
                assert(g.ps1_consoles.map() =~= m0.insert("ps1_console_1"@, ps1_for(c)(m0["ps1_console_1"@])));
            }
        },
        None => {
            proof {
                assert(g.ps1_consoles.map() =~= m0);
            }
        },
    }
}

fn select_ps2(g: &mut CircuitGraph, c: SelectedConsole)
    ensures
        final(g).ps2_consoles.map() == updated(old(g).ps2_consoles.map(), "ps2_console_1"@, ps2_for(c)),
        *final(g) == (CircuitGraph { ps2_consoles: final(g).ps2_consoles, ..*old(g) }),
{
    let ghost m0 = g.ps2_consoles.map();
    match g.ps2_consoles.remove("ps2_console_1") {
        Some(mut ps2) => {
            if c == SelectedConsole::PlayStation2 {
                ps2.rear_rocker_switch_on = true;
                ps2.is_system_running = true;
            } else {
                ps2.is_system_running = false;
            }
            g.ps2_consoles.insert(ps2);
            proof {
                assert(g.ps2_consoles.map() =~= m0.insert("ps2_console_1"@, ps2_for(c)(m0["ps2_console_1"@])));
            }
        },
        None => {
            proof {
                assert(g.ps2_consoles.map() =~= m0);
            }
        },
    }
}

/// `after` is the room `before` with `c` wired to the television: plugs as
/// `console_wiring` says, the set switched on, only the selection powered,
/// the other devices and cables as they were, and no emulator booted.
pub open spec fn wired_to_tv(before: RetroRoomScene, after: RetroRoomScene, c: SelectedConsole) -> bool {
    &&& links(after.graph) == console_wiring(links(before.graph), c)
    &&& after.graph.televisions.map() == updated(
        before.graph.televisions.map(),
        "crt_tv_1"@,
        |t: CrtTelevision| switched_on(t),
    )
    &&& after.graph.n64_consoles.map() == updated(before.graph.n64_consoles.map(), "n64_console_1"@, n64_for(c))
    &&& after.graph.ps1_consoles.map() == updated(before.graph.ps1_consoles.map(), "ps1_console_1"@, ps1_for(c))
    &&& after.graph.ps2_consoles.map() == updated(before.graph.ps2_consoles.map(), "ps2_console_1"@, ps2_for(c))
    &&& after.graph.outlets == before.graph.outlets
    &&& after.graph.power_strips == before.graph.power_strips
    &&& after.graph.cables == before.graph.cables
    &&& after.graph.controller_states == before.graph.controller_states
    &&& after.active_loaded_rom is None
    &&& after.active_platform is None
}

/// The room as first furnished: one of each device, the five cables, nothing
/// plugged in, and no emulator booted. A Nintendo 64 cartridge found on disk
/// sits in the console's slot.
pub open spec fn furnished(r: RetroRoomScene, cartridge: Option<CartridgeMedia>) -> bool {
    let g = r.graph;
    &&& g.outlets.map().dom() == set!["wall_outlet_1"@]
    &&& fresh_wall_outlet(g.outlets.map()["wall_outlet_1"@], "wall_outlet_1"@)
    &&& g.power_strips.map().dom() == set!["power_strip_1"@]
    &&& fresh_power_strip(g.power_strips.map()["power_strip_1"@], "power_strip_1"@)
    &&& g.televisions.map().dom() == set!["crt_tv_1"@]
    &&& fresh_retro_crt(g.televisions.map()["crt_tv_1"@], "crt_tv_1"@)
    &&& g.n64_consoles.map().dom() == set!["n64_console_1"@]
    &&& g.n64_consoles.map()["n64_console_1"@].inserted_cartridge == cartridge
    &&& fresh_n64(
        Nintendo64Console { inserted_cartridge: None, ..g.n64_consoles.map()["n64_console_1"@] },
        "n64_console_1"@,
    )
    &&& g.ps1_consoles.map().dom() == set!["ps1_console_1"@]
    &&& fresh_ps1(g.ps1_consoles.map()["ps1_console_1"@], "ps1_console_1"@)
    &&& g.ps2_consoles.map().dom() == set!["ps2_console_1"@]
    &&& fresh_ps2(g.ps2_consoles.map()["ps2_console_1"@], "ps2_console_1"@)
    &&& g.cables.map().dom() == set![
        "n64_av_cable_1"@,
        "ps_av_cable_1"@,
        "n64_power_1"@,
        "tv_power_1"@,
        "ps1_power_1"@,
    ]
    &&& nintendo_av_cable(g.cables.map()["n64_av_cable_1"@], "n64_av_cable_1"@)
    &&& playstation_av_cable(g.cables.map()["ps_av_cable_1"@], "ps_av_cable_1"@)
    &&& n64_power_adapter_cable(g.cables.map()["n64_power_1"@], "n64_power_1"@)
    &&& power_c7_cable(g.cables.map()["tv_power_1"@], "tv_power_1"@)
    &&& power_c7_cable(g.cables.map()["ps1_power_1"@], "ps1_power_1"@)
    &&& links(g).is_empty()
    &&& g.controller_states.map().is_empty()
    &&& r.active_loaded_rom is None
    &&& r.active_platform is None
}

impl RetroRoomScene {
    /// Furnishes the room. The media found on disk are offered to their
    /// consoles: the cartridge goes into the Nintendo 64's slot, while a disc
    /// offered to a PlayStation with its lid or tray shut is not kept.
    pub fn new(
        cartridge: Option<CartridgeMedia>,
        ps1_disc: Option<DiscMedia>,
        ps2_disc: Option<DiscMedia>,
    ) -> (r: Self)
        ensures
            furnished(r, cartridge),
    {
        let mut graph = CircuitGraph::new();
        graph.outlets.insert(WallOutlet::new("wall_outlet_1"));
        graph.power_strips.insert(PowerStrip::new("power_strip_1"));
        graph.televisions.insert(CrtTelevision::new_retro_crt("crt_tv_1"));
        let mut n64 = Nintendo64Console::new("n64_console_1");
        match cartridge {
            Some(cart) => {
                let _ = n64.insert_cartridge(cart);
            },
            None => {},
        }
        graph.n64_consoles.insert(n64);
        let mut ps1 = PlayStation1Console::new("ps1_console_1");
        match ps1_disc {
            Some(disc) => {
                let _ = ps1.insert_disc(disc);
            },
            None => {},
        }
        graph.ps1_consoles.insert(ps1);
        let mut ps2 = PlayStation2Console::new("ps2_console_1");
        match ps2_disc {
            Some(disc) => {
                let _ = ps2.insert_disc(disc);
            },
            None => {},
        }
        graph.ps2_consoles.insert(ps2);
        let ghost c0 = graph.cables.map();
        graph.cables.insert(CableEntity::new_nintendo_av_composite("n64_av_cable_1"));
        graph.cables.insert(CableEntity::new_playstation_av_composite("ps_av_cable_1"));
        graph.cables.insert(CableEntity::new_n64_power_adapter("n64_power_1"));
        graph.cables.insert(CableEntity::new_power_c7("tv_power_1"));
        graph.cables.insert(CableEntity::new_power_c7("ps1_power_1"));
        proof {
            reveal_strlit("n64_av_cable_1");
            reveal_strlit("ps_av_cable_1");
            reveal_strlit("n64_power_1");
            reveal_strlit("tv_power_1");
            reveal_strlit("ps1_power_1");
            assert("n64_power_1"@[0] != "ps1_power_1"@[0]);
            assert(graph.outlets.map().dom() =~= set!["wall_outlet_1"@]);
            assert(graph.power_strips.map().dom() =~= set!["power_strip_1"@]);
            assert(graph.televisions.map().dom() =~= set!["crt_tv_1"@]);
            assert(graph.n64_consoles.map().dom() =~= set!["n64_console_1"@]);
            assert(graph.ps1_consoles.map().dom() =~= set!["ps1_console_1"@]);
            assert(graph.ps2_consoles.map().dom() =~= set!["ps2_console_1"@]);
            assert(graph.cables.map().dom() =~= set![
                "n64_av_cable_1"@,
                "ps_av_cable_1"@,
                "n64_power_1"@,
                "tv_power_1"@,
                "ps1_power_1"@,
            ]);
        }
        RetroRoomScene { graph, active_loaded_rom: None, active_platform: None }
    }

    /// Wires the power strip to the wall and the television to the strip,
    /// switches the television on, and routes the selected console to the
    /// television's first composite input with every other console switched
    /// off. The emulator is marked as holding nothing, so that the next update
    /// boots the new platform cleanly.
    pub fn wire_console_to_tv(&mut self, console: SelectedConsole)
        ensures
            wired_to_tv(*old(self), *final(self), console),
    {
        self.graph.connect("power_strip_1_cord_plug", "wall_outlet_1_top");
        self.graph.connect("tv_power_1_wall", "power_strip_1_outlet_1");
        self.graph.connect("tv_power_1_c7", "crt_tv_1_power_in");
        switch_tv_on(&mut self.graph, "crt_tv_1");
        self.graph.disconnect("crt_tv_1_av1_video");
        self.graph.disconnect("crt_tv_1_av1_audio_l");
        self.graph.disconnect("crt_tv_1_av1_audio_r");
        select_n64(&mut self.graph, console);
        select_ps1(&mut self.graph, console);
        select_ps2(&mut self.graph, console);
        self.active_loaded_rom = None;
        self.active_platform = None;
        match console {
            SelectedConsole::Nintendo64 => {
                self.graph.connect("n64_power_1_wall", "power_strip_1_outlet_2");
                self.graph.connect("n64_power_1_n64plug", "n64_console_1_power_in");
                self.graph.connect("n64_av_cable_1_multiout", "n64_console_1_multi_out");
                self.graph.connect("n64_av_cable_1_rca_yellow", "crt_tv_1_av1_video");
                self.graph.connect("n64_av_cable_1_rca_white", "crt_tv_1_av1_audio_l");
                self.graph.connect("n64_av_cable_1_rca_red", "crt_tv_1_av1_audio_r");
            },
            SelectedConsole::PlayStation1 => {
                self.graph.connect("ps1_power_1_wall", "power_strip_1_outlet_3");
                self.graph.connect("ps1_power_1_c7", "ps1_console_1_power_in");
                self.graph.connect("ps_av_cable_1_ps_multiout", "ps1_console_1_multi_out");
                self.graph.connect("ps_av_cable_1_rca_yellow", "crt_tv_1_av1_video");
                self.graph.connect("ps_av_cable_1_rca_white", "crt_tv_1_av1_audio_l");
                self.graph.connect("ps_av_cable_1_rca_red", "crt_tv_1_av1_audio_r");
            },
            SelectedConsole::PlayStation2 => {
                self.graph.connect("ps1_power_1_wall", "power_strip_1_outlet_3");
                self.graph.connect("ps1_power_1_c7", "ps2_console_1_power_in");
                self.graph.connect("ps_av_cable_1_ps_multiout", "ps2_console_1_multi_out");
                self.graph.connect("ps_av_cable_1_rca_yellow", "crt_tv_1_av1_video");
                self.graph.connect("ps_av_cable_1_rca_white", "crt_tv_1_av1_audio_l");
                self.graph.connect("ps_av_cable_1_rca_red", "crt_tv_1_av1_audio_r");
            },
            SelectedConsole::Unwired => {},
        }
    }
}


/// The cartridge made for a Nintendo 64 ROM file found on disk: named after
/// the file, in dark grey plastic, without a label picture.
pub fn found_n64_cartridge(title: &str, rom_path: &str) -> (r: CartridgeMedia)
    ensures
        r.id@ == "cart_"@ + title@,
        r.title@ == title@,
        r.platform == Platform::Nintendo64,
        r.rom_path@ == rom_path@,
        r.label_texture_path is None,
        r.plastic_color_rgba == [50u8, 50u8, 50u8, 255u8],
{
    CartridgeMedia {
        id: suffixed("cart_", title),
        title: String::from_str(title),
        platform: Platform::Nintendo64,
        rom_path: String::from_str(rom_path),
        label_texture_path: None,
        plastic_color_rgba: [50u8, 50u8, 50u8, 255u8],
    }
}

/// The CD made for a PlayStation disc image found on disk.
pub fn found_ps1_disc(title: &str, disc_path: &str) -> (r: DiscMedia)
    ensures
        r.id@ == "disc_"@ + title@,
        r.title@ == title@,
        r.platform == Platform::PlayStation1,
        r.disc_path@ == disc_path@,
        r.label_texture_path is None,
        !r.is_dvd,
{
    DiscMedia {
        id: suffixed("disc_", title),
        title: String::from_str(title),
        platform: Platform::PlayStation1,
        disc_path: String::from_str(disc_path),
        label_texture_path: None,
        is_dvd: false,
    }
}

/// The DVD made for a PlayStation 2 disc image found on disk.
pub fn found_ps2_disc(title: &str, disc_path: &str) -> (r: DiscMedia)
    ensures
        r.id@ == "disc_ps2_"@ + title@,
        r.title@ == title@,
        r.platform == Platform::PlayStation2,
        r.disc_path@ == disc_path@,
        r.label_texture_path is None,
        r.is_dvd,
{
    DiscMedia {
        id: suffixed("disc_ps2_", title),
        title: String::from_str(title),
        platform: Platform::PlayStation2,
        disc_path: String::from_str(disc_path),
        label_texture_path: None,
        is_dvd: true,
    }
}

/// A path by its contents.
pub open spec fn path_view(p: Option<String>) -> Option<Seq<char>> {
    match p {
        Some(s) => Some(s@),
        None => None,
    }
}

/// The ROM or disc image held by console `id` of the platform: the
/// cartridge in a Nintendo 64's slot, the disc on a PlayStation's spindle or
/// in a PlayStation 2's tray. Other platforms have no console in the room.
pub open spec fn media_path_of(g: CircuitGraph, id: Seq<char>, p: Platform) -> Option<Seq<char>> {
    match p {
        Platform::Nintendo64 => if g.n64_consoles.map().contains_key(id) {
            match g.n64_consoles.map()[id].inserted_cartridge {
                Some(c) => Some(c.rom_path@),
                None => None,
            }
        } else {
            None
        },
        Platform::PlayStation1 => if g.ps1_consoles.map().contains_key(id) {
            match g.ps1_consoles.map()[id].spindle_disc {
                Some(d) => Some(d.disc_path@),
                None => None,
            }
        } else {
            None
        },
        Platform::PlayStation2 => if g.ps2_consoles.map().contains_key(id) {
            match g.ps2_consoles.map()[id].tray_disc {
                Some(d) => Some(d.disc_path@),
                None => None,
            }
        } else {
            None
        },
        _ => None,
    }
}

/// Where a core library of the given name is looked for, in order.
pub open spec fn core_library_paths(core_name: Seq<char>) -> Seq<Seq<char>> {
    seq![
        "cores/"@ + core_name + "_libretro.so"@,
        "../../cores/"@ + core_name + "_libretro.so"@,
        "../cores/"@ + core_name + "_libretro.so"@,
    ]
}

fn clone_path(p: &Option<String>) -> (r: Option<String>)
    ensures
        path_view(r) == path_view(*p),
{
    match p {
        Some(s) => Some(s.clone()),
        None => None,
    }
}

fn same_path(a: &Option<String>, b: &Option<String>) -> (r: bool)
    ensures
        r == (path_view(*a) == path_view(*b)),
{
    match (a, b) {
        (Some(x), Some(y)) => x.eq(y),
        (None, None) => true,
        _ => false,
    }
}

/// The file names under which a core library is looked for, in the order
/// they are tried.
pub fn core_library_candidates(core_name: &str) -> (r: Vec<String>)
    ensures
        r@.len() == 3,
        forall|i: int| 0 <= i < 3 ==> #[trigger] r@[i]@ == core_library_paths(core_name@)[i],
{
    let mut r: Vec<String> = Vec::new();
    let a = suffixed("cores/", core_name);
    r.push(suffixed(a.as_str(), "_libretro.so"));
    let b = suffixed("../../cores/", core_name);
    r.push(suffixed(b.as_str(), "_libretro.so"));
    let c = suffixed("../cores/", core_name);
    r.push(suffixed(c.as_str(), "_libretro.so"));
    r
}

impl RetroRoomScene {
    /// The ROM or disc image held by the console that the television shows.
    pub fn media_path(&self, console_id: &str, platform: Platform) -> (r: Option<String>)
        ensures
            path_view(r) == media_path_of(self.graph, console_id@, platform),
    {
        match platform {
            Platform::Nintendo64 => match self.graph.n64_consoles.get(console_id) {
                Some(n64) => match &n64.inserted_cartridge {
                    Some(c) => Some(c.rom_path.clone()),
                    None => None,
                },
                None => None,
            },
            Platform::PlayStation1 => match self.graph.ps1_consoles.get(console_id) {
                Some(ps1) => match &ps1.spindle_disc {
                    Some(d) => Some(d.disc_path.clone()),
                    None => None,
                },
                None => None,
            },
            Platform::PlayStation2 => match self.graph.ps2_consoles.get(console_id) {
                Some(ps2) => match &ps2.tray_disc {
                    Some(d) => Some(d.disc_path.clone()),
                    None => None,
                },
                None => None,
            },
            _ => None,
        }
    }

    /// Whether the emulator has to be booted for what the television shows:
    /// the platform, or the playable ROM, differs from the last boot.
    pub fn needs_boot(&self, platform: Platform, rom: &Option<String>) -> (r: bool)
        ensures
            r == (self.active_platform != Some(platform) || path_view(self.active_loaded_rom)
                != path_view(*rom)),
    {
        let same_platform = match self.active_platform {
            Some(p) => p == platform,
            None => false,
        };
        !same_platform || !same_path(&self.active_loaded_rom, rom)
    }

    /// Records that the emulator was booted for the platform with the ROM.
    pub fn record_boot(&mut self, platform: Platform, rom: &Option<String>)
        ensures
            final(self).active_platform == Some(platform),
            path_view(final(self).active_loaded_rom) == path_view(*rom),
            final(self).graph == old(self).graph,
    {
        self.active_platform = Some(platform);
        self.active_loaded_rom = clone_path(rom);
    }

    /// The television lost its picture: forgets the booted platform and ROM,
    /// and answers whether the emulator was running and has to be paused.
    pub fn release_emulation(&mut self) -> (pause: bool)
        ensures
            pause == old(self).active_platform is Some,
            pause ==> final(self).active_platform is None && final(self).active_loaded_rom is None,
            !pause ==> *final(self) == *old(self),
            final(self).graph == old(self).graph,
    {
        if self.active_platform.is_some() {
            self.active_platform = None;
            self.active_loaded_rom = None;
            true
        } else {
            false
        }
    }

    /// Runs the television's degauss wobble down by `elapsed_ms` and returns
    /// the time that remains; 0 when the room has no television `crt_tv_1`.
    pub fn tick_degauss(&mut self, elapsed_ms: u32) -> (remaining: u32)
        ensures
            old(self).graph.televisions.map().contains_key("crt_tv_1"@) ==> {
                let t = old(self).graph.televisions.map()["crt_tv_1"@];
                &&& remaining == if t.degauss_active_timer_ms > elapsed_ms {
                    t.degauss_active_timer_ms - elapsed_ms
                } else {
                    0
                }
                &&& final(self).graph.televisions.map() == old(self).graph.televisions.map().insert(
                    "crt_tv_1"@,
                    CrtTelevision { degauss_active_timer_ms: remaining, ..t },
                )
            },
            !old(self).graph.televisions.map().contains_key("crt_tv_1"@) ==> remaining == 0
                && final(self).graph.televisions.map() == old(self).graph.televisions.map(),
            final(self).graph == (CircuitGraph { televisions: final(self).graph.televisions, ..old(self).graph }),
            final(self).active_platform == old(self).active_platform,
            final(self).active_loaded_rom == old(self).active_loaded_rom,
    {
        let ghost m0 = self.graph.televisions.map();
        match self.graph.televisions.remove("crt_tv_1") {
            Some(mut tv) => {
                let remaining = tv.tick_degauss(elapsed_ms);
                self.graph.televisions.insert(tv);
                proof {
                    assert(self.graph.televisions.map() =~= m0.insert(
                        "crt_tv_1"@,
                        CrtTelevision { degauss_active_timer_ms: remaining, ..m0["crt_tv_1"@] },
                    ));
                }
                remaining
            },
            None => {
                proof {
                    assert(self.graph.televisions.map() =~= m0);
                }
                0
            },
        }
    }
}

/// What the emulator worker is told after a look at the television.
#[derive(Debug, Clone, PartialEq, Eq)]
pub enum EmulationStep {
    /// Nothing changes.
    Keep,
    /// Load the core library at `core_path` and boot it with `rom`.
    Boot { core_path: String, rom: Option<String> },
    /// The platform's core library is not installed: show its standby screen.
    ShowStandby { platform: Platform },
    /// The picture is gone: pause the emulator.
    Pause,
}

impl RetroRoomScene {
    /// One step of keeping the emulator in line with the television. For a
    /// console on screen, `playable_rom` is the media file it holds, if that
    /// file exists, and `core_path` the core library found for the platform,
    /// if any. When the platform or ROM differs from the last boot, a found
    /// core is booted and recorded, and a missing one shows the standby
    /// screen; otherwise nothing changes. When the picture is static or dark,
    /// a running emulator is forgotten and paused.
    pub fn sync_emulation(
        &mut self,
        feed: &TvScreenFeed,
        playable_rom: Option<String>,
        core_path: Option<String>,
    ) -> (step: EmulationStep)
        ensures
            final(self).graph == old(self).graph,
            match feed {
                TvScreenFeed::ActiveVideo { platform, .. } => {
                    let boot = old(self).active_platform != Some(*platform) || path_view(old(self).active_loaded_rom)
                        != path_view(playable_rom);
                    if !boot {
                        step == EmulationStep::Keep && *final(self) == *old(self)
                    } else {
                        match core_path {
                            Some(cp) => step == (EmulationStep::Boot { core_path: cp, rom: playable_rom })
                                && final(self).active_platform == Some(*platform)
                                && path_view(final(self).active_loaded_rom) == path_view(playable_rom),
                            None => step == (EmulationStep::ShowStandby { platform: *platform })
                                && *final(self) == *old(self),
                        }
                    }
                },
                _ => if old(self).active_platform is Some {
                    step == EmulationStep::Pause && final(self).active_platform is None
                        && final(self).active_loaded_rom is None
                } else {
                    step == EmulationStep::Keep && *final(self) == *old(self)
                },
            },
    {
        match feed {
            TvScreenFeed::ActiveVideo { platform, .. } => {
                if !self.needs_boot(*platform, &playable_rom) {
                    return EmulationStep::Keep;
                }
                match core_path {
                    Some(cp) => {
                        self.record_boot(*platform, &playable_rom);
                        EmulationStep::Boot { core_path: cp, rom: playable_rom }
                    },
                    None => EmulationStep::ShowStandby { platform: *platform },
                }
            },
            _ => {
                if self.release_emulation() {
                    EmulationStep::Pause
                } else {
                    EmulationStep::Keep
                }
            },
        }
    }
}

/// Wiring the same console a second time, right after the first, changes
/// nothing: the same plugs, devices, cables and emulator state.
pub proof fn lemma_rewiring_changes_nothing(
    s1: RetroRoomScene,
    s2: RetroRoomScene,
    s3: RetroRoomScene,
    c: SelectedConsole,
)
    requires
        symmetric(links(s1.graph)),
        wired_to_tv(s1, s2, c),
        wired_to_tv(s2, s3, c),
    ensures
        links(s3.graph) == links(s2.graph),
        s3.graph.televisions.map() == s2.graph.televisions.map(),
        s3.graph.n64_consoles.map() == s2.graph.n64_consoles.map(),
        s3.graph.ps1_consoles.map() == s2.graph.ps1_consoles.map(),
        s3.graph.ps2_consoles.map() == s2.graph.ps2_consoles.map(),
        s3.graph.outlets == s2.graph.outlets,
        s3.graph.power_strips == s2.graph.power_strips,
        s3.graph.cables == s2.graph.cables,
        s3.graph.controller_states == s2.graph.controller_states,
        s3.active_platform == s2.active_platform,
        s3.active_loaded_rom == s2.active_loaded_rom,
{
    lemma_wiring_idempotent(links(s1.graph), c);
    lemma_updated_twice(s1.graph.televisions.map(), "crt_tv_1"@, |t: CrtTelevision| switched_on(t));
    lemma_updated_twice(s1.graph.n64_consoles.map(), "n64_console_1"@, n64_for(c));
    lemma_updated_twice(s1.graph.ps1_consoles.map(), "ps1_console_1"@, ps1_for(c));
    lemma_updated_twice(s1.graph.ps2_consoles.map(), "ps2_console_1"@, ps2_for(c));
}

/// The media the emulator is given is what the console on screen holds: the
/// cartridge in a Nintendo 64's slot, the disc on a PlayStation's spindle,
/// the disc in a PlayStation 2's tray, and nothing for an empty console or
/// one that is not in the room.
pub proof fn lemma_media_path_reads_the_console(g: CircuitGraph, id: Seq<char>)
    ensures
        g.n64_consoles.map().contains_key(id) ==> match g.n64_consoles.map()[id].inserted_cartridge {
            Some(c) => media_path_of(g, id, Platform::Nintendo64) == Some(c.rom_path@),
            None => media_path_of(g, id, Platform::Nintendo64) is None,
        },
        g.ps1_consoles.map().contains_key(id) ==> match g.ps1_consoles.map()[id].spindle_disc {
            Some(d) => media_path_of(g, id, Platform::PlayStation1) == Some(d.disc_path@),
            None => media_path_of(g, id, Platform::PlayStation1) is None,
        },
        g.ps2_consoles.map().contains_key(id) ==> match g.ps2_consoles.map()[id].tray_disc {
            Some(d) => media_path_of(g, id, Platform::PlayStation2) == Some(d.disc_path@),
            None => media_path_of(g, id, Platform::PlayStation2) is None,
        },
        !g.n64_consoles.map().contains_key(id) ==> media_path_of(g, id, Platform::Nintendo64) is None,
        !g.ps1_consoles.map().contains_key(id) ==> media_path_of(g, id, Platform::PlayStation1) is None,
        !g.ps2_consoles.map().contains_key(id) ==> media_path_of(g, id, Platform::PlayStation2) is None,
{
}

} // verus!
