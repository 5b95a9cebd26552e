use vstd::prelude::*;
use vstd::string::*;
use crate::cables::CableEnd;
use crate::devices::tv::TvInputSource;
use crate::graph::{links, CircuitGraph};
use crate::mains::{ids, is_powered};
use crate::media::Platform;
use crate::registry::{lemma_map_at, keys_unique, seq_has_key, Keyed};
use crate::text::suffixed;

verus! {

/// What a television screen shows.
#[derive(Debug, Clone, PartialEq, Eq)]
pub enum TvScreenFeed {
    PoweredOff,
    StaticNoise,
    ActiveVideo { console_id: String, platform: Platform },
}

/// A screen feed with the console named by its identifier's contents.
pub enum ScreenView {
    PoweredOff,
    StaticNoise,
    ActiveVideo(Seq<char>, Platform),
}

pub open spec fn screen_view(f: TvScreenFeed) -> ScreenView {
    match f {
        TvScreenFeed::PoweredOff => ScreenView::PoweredOff,
        TvScreenFeed::StaticNoise => ScreenView::StaticNoise,
        TvScreenFeed::ActiveVideo { console_id, platform } => ScreenView::ActiveVideo(console_id@, platform),
    }
}

/// Socket `s` is plugged into a socket listed in `live`.
pub open spec fn energized_by(g: CircuitGraph, live: Seq<Seq<char>>, s: Seq<char>) -> bool {
    links(g).contains_key(s) && live.contains(links(g)[s])
}

/// Socket `s` is plugged into a powered socket.
pub open spec fn socket_live(g: CircuitGraph, s: Seq<char>) -> bool {
    links(g).contains_key(s) && is_powered(g, links(g)[s])
}

/// The socket through which a device named `id` takes mains power.
pub open spec fn power_inlet(id: Seq<char>) -> Seq<char> {
    id + "_power_in"@
}

/// The AV output socket of a console named `id`.
pub open spec fn multi_out(id: Seq<char>) -> Seq<char> {
    id + "_multi_out"@
}

/// The N64 `id` exists, its power slider is on, and its power inlet is energized from `live`.
pub open spec fn n64_running_with(g: CircuitGraph, live: Seq<Seq<char>>, id: Seq<char>) -> bool {
    g.n64_consoles.map().contains_key(id) && g.n64_consoles.map()[id].power_switch_on
        && energized_by(g, live, power_inlet(id))
}

/// The PS1 `id` exists, its power button is latched, and its power inlet is energized from `live`.
pub open spec fn ps1_running_with(g: CircuitGraph, live: Seq<Seq<char>>, id: Seq<char>) -> bool {
    g.ps1_consoles.map().contains_key(id) && g.ps1_consoles.map()[id].power_button_latched
        && energized_by(g, live, power_inlet(id))
}

/// The PS2 `id` exists, its rear switch is on, it is out of standby, and its
/// power inlet is energized from `live`.
pub open spec fn ps2_running_with(g: CircuitGraph, live: Seq<Seq<char>>, id: Seq<char>) -> bool {
    g.ps2_consoles.map().contains_key(id) && g.ps2_consoles.map()[id].rear_rocker_switch_on
        && g.ps2_consoles.map()[id].is_system_running && energized_by(g, live, power_inlet(id))
}

/// The N64 `id` is switched on and receives mains power.
pub open spec fn n64_running(g: CircuitGraph, id: Seq<char>) -> bool {
    g.n64_consoles.map().contains_key(id) && g.n64_consoles.map()[id].power_switch_on
        && socket_live(g, power_inlet(id))
}

/// The PS1 `id` is switched on and receives mains power (it boots even with no disc).
pub open spec fn ps1_running(g: CircuitGraph, id: Seq<char>) -> bool {
    g.ps1_consoles.map().contains_key(id) && g.ps1_consoles.map()[id].power_button_latched
        && socket_live(g, power_inlet(id))
}

/// The PS2 `id` is switched on at the back, out of standby, and receives mains power.
pub open spec fn ps2_running(g: CircuitGraph, id: Seq<char>) -> bool {
    g.ps2_consoles.map().contains_key(id) && g.ps2_consoles.map()[id].rear_rocker_switch_on
        && g.ps2_consoles.map()[id].is_system_running && socket_live(g, power_inlet(id))
}

/// The first N64, from position `i` on, whose multi-out is `port` and which is running.
pub open spec fn first_n64_on(g: CircuitGraph, port: Seq<char>, i: int) -> Option<Seq<char>>
    decreases g.n64_consoles.entries().len() - i,
{
    if i < 0 || i >= g.n64_consoles.entries().len() {
        None
    } else {
        let id = g.n64_consoles.entries()[i].id@;
        if multi_out(id) == port && n64_running(g, id) {
            Some(id)
        } else {
            first_n64_on(g, port, i + 1)
        }
    }
}

/// The first PS1, from position `i` on, whose multi-out is `port` and which is running.
pub open spec fn first_ps1_on(g: CircuitGraph, port: Seq<char>, i: int) -> Option<Seq<char>>
    decreases g.ps1_consoles.entries().len() - i,
{
    if i < 0 || i >= g.ps1_consoles.entries().len() {
        None
    } else {
        let id = g.ps1_consoles.entries()[i].id@;
        if multi_out(id) == port && ps1_running(g, id) {
            Some(id)
        } else {
            first_ps1_on(g, port, i + 1)
        }
    }
}

/// The first PS2, from position `i` on, whose multi-out is `port` and which is running.
pub open spec fn first_ps2_on(g: CircuitGraph, port: Seq<char>, i: int) -> Option<Seq<char>>
    decreases g.ps2_consoles.entries().len() - i,
{
    if i < 0 || i >= g.ps2_consoles.entries().len() {
        None
    } else {
        let id = g.ps2_consoles.entries()[i].id@;
        if multi_out(id) == port && ps2_running(g, id) {
            Some(id)
        } else {
            first_ps2_on(g, port, i + 1)
        }
    }
}

/// The running console whose multi-out socket is `port`: N64s are checked
/// first, then PS1s, then PS2s.
pub open spec fn console_on_port(g: CircuitGraph, port: Seq<char>) -> Option<(Seq<char>, Platform)> {
    match first_n64_on(g, port, 0) {
        Some(id) => Some((id, Platform::Nintendo64)),
        None => match first_ps1_on(g, port, 0) {
            Some(id) => Some((id, Platform::PlayStation1)),
            None => match first_ps2_on(g, port, 0) {
                Some(id) => Some((id, Platform::PlayStation2)),
                None => None,
            },
        },
    }
}

/// Some plug in the list has identifier `id`.
pub open spec fn has_end(es: Seq<CableEnd>, id: Seq<char>) -> bool {
    exists|q: int| 0 <= q < es.len() && #[trigger] es[q].id@ == id
}

/// The console feeding video into plug `plug`: the first cable, from position
/// `i` on, that has `plug` on side B and whose first side A plug is in the
/// multi-out of a running console.
pub open spec fn video_source(g: CircuitGraph, plug: Seq<char>, i: int) -> Option<(Seq<char>, Platform)>
    decreases g.cables.entries().len() - i,
{
    if i < 0 || i >= g.cables.entries().len() {
        None
    } else {
        let c = g.cables.entries()[i];
        let here = if has_end(c.ends_b@, plug) && c.ends_a@.len() > 0 && links(g).contains_key(
            c.ends_a@[0].id@,
        ) {
            console_on_port(g, links(g)[c.ends_a@[0].id@])
        } else {
            None
        };
        match here {
            Some(x) => Some(x),
            None => video_source(g, plug, i + 1),
        }
    }
}

/// The video jack selected by an input source: the composite video jack of
/// AV1 or AV2, or the luma (Y) jack of the component input. The antenna
/// channels have no jack in the room.
pub open spec fn selected_video_jack(tv_id: Seq<char>, s: TvInputSource) -> Option<Seq<char>> {
    match s {
        TvInputSource::CompositeAv1 => Some(tv_id + "_av1_video"@),
        TvInputSource::CompositeAv2 => Some(tv_id + "_av2_video"@),
        TvInputSource::ComponentYPbPr => Some(tv_id + "_component_y"@),
        _ => None,
    }
}

/// What television `tv_id` shows: nothing unless it exists, is switched on and
/// its power inlet is energized; otherwise the video of the running console
/// wired to the selected video input, or static noise when there is none.
pub open spec fn tv_screen(g: CircuitGraph, tv_id: Seq<char>) -> ScreenView {
    if !g.televisions.map().contains_key(tv_id) {
        ScreenView::PoweredOff
    } else {
        let tv = g.televisions.map()[tv_id];
        if !tv.power_on || !socket_live(g, power_inlet(tv_id)) {
            ScreenView::PoweredOff
        } else {
            match selected_video_jack(tv_id, tv.input_source) {
                None => ScreenView::StaticNoise,
                Some(jack) => if links(g).contains_key(jack) {
                    match video_source(g, links(g)[jack], 0) {
                        Some((id, p)) => ScreenView::ActiveVideo(id, p),
                        None => ScreenView::StaticNoise,
                    }
                } else {
                    ScreenView::StaticNoise
                },
            }
        }
    }
}

/// `live` lists exactly the powered sockets.
pub open spec fn lists_powered(g: CircuitGraph, live: Seq<String>) -> bool {
    forall|k: Seq<char>| #[trigger] ids(live).contains(k) == is_powered(g, k)
}

impl CircuitGraph {
    /// Whether the socket is plugged into one of the live sockets.
    pub fn is_socket_energized(&self, live_sockets: &Vec<String>, socket_id: &str) -> (r: bool)
        ensures
            r == energized_by(*self, ids(live_sockets@), socket_id@),
    {
        match self.connections.get(socket_id) {
            Some(link) => crate::mains::list_contains(live_sockets, &link.mated),
            None => false,
        }
    }

    /// Whether N64 `console_id` is switched on and its power inlet is energized.
    pub fn is_n64_running(&self, live_sockets: &Vec<String>, console_id: &str) -> (r: bool)
        ensures
            r == n64_running_with(*self, ids(live_sockets@), console_id@),
    {
        match self.n64_consoles.get(console_id) {
            Some(n64) => {
                let power_socket_id = suffixed(console_id, "_power_in");
                n64.power_switch_on && self.is_socket_energized(live_sockets, power_socket_id.as_str())
            },
            None => false,
        }
    }

    /// Whether PS1 `console_id` is switched on and its power inlet is energized.
    pub fn is_ps1_running(&self, live_sockets: &Vec<String>, console_id: &str) -> (r: bool)
        ensures
            r == ps1_running_with(*self, ids(live_sockets@), console_id@),
    {
        match self.ps1_consoles.get(console_id) {
            Some(ps1) => {
                let power_socket_id = suffixed(console_id, "_power_in");
                ps1.power_button_latched && self.is_socket_energized(live_sockets, power_socket_id.as_str())
            },
            None => false,
        }
    }

    /// Whether PS2 `console_id` is switched on, out of standby, and its power inlet is energized.
    pub fn is_ps2_running(&self, live_sockets: &Vec<String>, console_id: &str) -> (r: bool)
        ensures
            r == ps2_running_with(*self, ids(live_sockets@), console_id@),
    {
        match self.ps2_consoles.get(console_id) {
            Some(ps2) => {
                let power_socket_id = suffixed(console_id, "_power_in");
                ps2.rear_rocker_switch_on && ps2.is_system_running && self.is_socket_energized(
                    live_sockets,
                    power_socket_id.as_str(),
                )
            },
            None => false,
        }
    }
}


proof fn lemma_energized_live(g: CircuitGraph, live: Seq<String>, s: Seq<char>)
    requires
        lists_powered(g, live),
    ensures
        energized_by(g, ids(live), s) == socket_live(g, s),
{
    if links(g).contains_key(s) {
        assert(ids(live).contains(links(g)[s]) == is_powered(g, links(g)[s]));
    }
}

fn has_end_id(es: &Vec<CableEnd>, id: &String) -> (r: bool)
    ensures
        r == has_end(es@, id@),
{
    let mut q: usize = 0;
    while q < es.len()
        invariant
            q <= es@.len(),
            forall|x: int| 0 <= x < q ==> #[trigger] es@[x].id@ != id@,
        decreases es@.len() - q,
    {
        if es[q].id.eq(id) {
            return true;
        }
        q = q + 1;
    }
    false
}

impl CircuitGraph {
    fn find_n64_on(&self, live: &Vec<String>, port: &String) -> (r: Option<String>)
        requires
            lists_powered(*self, live@),
        ensures
            match r {
                Some(id) => first_n64_on(*self, port@, 0) == Some(id@),
                None => first_n64_on(*self, port@, 0) is None,
            },
    {
        let consoles = self.n64_consoles.as_vec();
        let mut i: usize = 0;
        while i < consoles.len()
            invariant
                consoles@ == self.n64_consoles.entries(),
                keys_unique(consoles@),
                lists_powered(*self, live@),
                i <= consoles@.len(),
                first_n64_on(*self, port@, 0) == first_n64_on(*self, port@, i as int),
            decreases consoles@.len() - i,
        {
            let id = &consoles[i].id;
            proof {
                lemma_map_at(consoles@, i as int);
                lemma_energized_live(*self, live@, power_inlet(id@));
            }
            let out = suffixed(id.as_str(), "_multi_out");
            if out.eq(port) && self.is_n64_running(live, id.as_str()) {
                return Some(id.clone());
            }
            i = i + 1;
        }
        None
    }

    fn find_ps1_on(&self, live: &Vec<String>, port: &String) -> (r: Option<String>)
        requires
            lists_powered(*self, live@),
        ensures
            match r {
                Some(id) => first_ps1_on(*self, port@, 0) == Some(id@),
                None => first_ps1_on(*self, port@, 0) is None,
            },
    {
        let consoles = self.ps1_consoles.as_vec();
        let mut i: usize = 0;
        while i < consoles.len()
            invariant
                consoles@ == self.ps1_consoles.entries(),
                keys_unique(consoles@),
                lists_powered(*self, live@),
                i <= consoles@.len(),
                first_ps1_on(*self, port@, 0) == first_ps1_on(*self, port@, i as int),
            decreases consoles@.len() - i,
        {
            let id = &consoles[i].id;
            proof {
                lemma_map_at(consoles@, i as int);
                lemma_energized_live(*self, live@, power_inlet(id@));
            }
            let out = suffixed(id.as_str(), "_multi_out");
            if out.eq(port) && self.is_ps1_running(live, id.as_str()) {
                return Some(id.clone());
            }
            i = i + 1;
        }
        None
    }

    fn find_ps2_on(&self, live: &Vec<String>, port: &String) -> (r: Option<String>)
        requires
            lists_powered(*self, live@),
        ensures
            match r {
                Some(id) => first_ps2_on(*self, port@, 0) == Some(id@),
                None => first_ps2_on(*self, port@, 0) is None,
            },
    {
        let consoles = self.ps2_consoles.as_vec();
        let mut i: usize = 0;
        while i < consoles.len()
            invariant
                consoles@ == self.ps2_consoles.entries(),
                keys_unique(consoles@),
                lists_powered(*self, live@),
                i <= consoles@.len(),
                first_ps2_on(*self, port@, 0) == first_ps2_on(*self, port@, i as int),
            decreases consoles@.len() - i,
        {
            let id = &consoles[i].id;
            proof {
                lemma_map_at(consoles@, i as int);
                lemma_energized_live(*self, live@, power_inlet(id@));
            }
            let out = suffixed(id.as_str(), "_multi_out");
            if out.eq(port) && self.is_ps2_running(live, id.as_str()) {
                return Some(id.clone());
            }
            i = i + 1;
        }
        None
    }

    fn console_on(&self, live: &Vec<String>, port: &String) -> (r: Option<(String, Platform)>)
        requires
            lists_powered(*self, live@),
        ensures
            match r {
                Some((id, p)) => console_on_port(*self, port@) == Some((id@, p)),
                None => console_on_port(*self, port@) is None,
            },
    {
        match self.find_n64_on(live, port) {
            Some(id) => return Some((id, Platform::Nintendo64)),
            None => {},
        }
        match self.find_ps1_on(live, port) {
            Some(id) => return Some((id, Platform::PlayStation1)),
            None => {},
        }
        match self.find_ps2_on(live, port) {
            Some(id) => Some((id, Platform::PlayStation2)),
            None => None,
        }
    }

    fn find_video_source(&self, live: &Vec<String>, plug: &String) -> (r: Option<(String, Platform)>)
        requires
            lists_powered(*self, live@),
        ensures
            match r {
                Some((id, p)) => video_source(*self, plug@, 0) == Some((id@, p)),
                None => video_source(*self, plug@, 0) is None,
            },
    {
        let cables = self.cables.as_vec();
        let mut i: usize = 0;
        while i < cables.len()
            invariant
                cables@ == self.cables.entries(),
                lists_powered(*self, live@),
                i <= cables@.len(),
                video_source(*self, plug@, 0) == video_source(*self, plug@, i as int),
            decreases cables@.len() - i,
        {
            let cable = &cables[i];
            if has_end_id(&cable.ends_b, plug) && cable.ends_a.len() > 0 {
                match self.connections.get(cable.ends_a[0].id.as_str()) {
                    Some(link) => {
                        proof {
                            assert(links(*self)[cable.ends_a@[0].id@] == link.mated@);
                        }
                        match self.console_on(live, &link.mated) {
                            Some(found) => return Some(found),
                            None => {},
                        }
                    },
                    None => {},
                }
            }
            i = i + 1;
        }
        None
    }

    /// Traces what television `tv_id` currently shows.
    pub fn evaluate_tv_screen(&self, tv_id: &str) -> (r: TvScreenFeed)
        ensures
            screen_view(r) == tv_screen(*self, tv_id@),
    {
        let tv = match self.televisions.get(tv_id) {
            Some(t) => t,
            None => return TvScreenFeed::PoweredOff,
        };
        let live = self.evaluate_powered_sockets();
        let tv_power_socket_id = suffixed(tv_id, "_power_in");
        proof {
            lemma_energized_live(*self, live@, power_inlet(tv_id@));
        }
        if !tv.power_on || !self.is_socket_energized(&live, tv_power_socket_id.as_str()) {
            return TvScreenFeed::PoweredOff;
        }
        let target_video_jack = match tv.input_source {
            TvInputSource::CompositeAv1 => suffixed(tv_id, "_av1_video"),
            TvInputSource::CompositeAv2 => suffixed(tv_id, "_av2_video"),
            TvInputSource::ComponentYPbPr => suffixed(tv_id, "_component_y"),
            _ => return TvScreenFeed::StaticNoise,
        };
        match self.connections.get(target_video_jack.as_str()) {
            Some(link) => {
                proof {
                    assert(links(*self)[target_video_jack@] == link.mated@);
                }
                match self.find_video_source(&live, &link.mated) {
                    Some((console_id, platform)) => TvScreenFeed::ActiveVideo { console_id, platform },
                    None => TvScreenFeed::StaticNoise,
                }
            },
            None => TvScreenFeed::StaticNoise,
        }
    }
}


proof fn lemma_first_n64_running(g: CircuitGraph, port: Seq<char>, i: int, id: Seq<char>)
    requires
        first_n64_on(g, port, i) == Some(id),
    ensures
        n64_running(g, id) && multi_out(id) == port,
    decreases g.n64_consoles.entries().len() - i,
{
    if !(multi_out(g.n64_consoles.entries()[i].id@) == port && n64_running(g, g.n64_consoles.entries()[i].id@)) {
        lemma_first_n64_running(g, port, i + 1, id);
    }
}

proof fn lemma_first_ps1_running(g: CircuitGraph, port: Seq<char>, i: int, id: Seq<char>)
    requires
        first_ps1_on(g, port, i) == Some(id),
    ensures
        ps1_running(g, id) && multi_out(id) == port,
    decreases g.ps1_consoles.entries().len() - i,
{
    if !(multi_out(g.ps1_consoles.entries()[i].id@) == port && ps1_running(g, g.ps1_consoles.entries()[i].id@)) {
        lemma_first_ps1_running(g, port, i + 1, id);
    }
}

proof fn lemma_first_ps2_running(g: CircuitGraph, port: Seq<char>, i: int, id: Seq<char>)
    requires
        first_ps2_on(g, port, i) == Some(id),
    ensures
        ps2_running(g, id) && multi_out(id) == port,
    decreases g.ps2_consoles.entries().len() - i,
{
    if !(multi_out(g.ps2_consoles.entries()[i].id@) == port && ps2_running(g, g.ps2_consoles.entries()[i].id@)) {
        lemma_first_ps2_running(g, port, i + 1, id);
    }
}

/// The console is running on its platform and its multi-out is the given port.
pub open spec fn console_running_at(g: CircuitGraph, id: Seq<char>, p: Platform, port: Seq<char>) -> bool {
    &&& multi_out(id) == port
    &&& match p {
        Platform::Nintendo64 => n64_running(g, id),
        Platform::PlayStation1 => ps1_running(g, id),
        Platform::PlayStation2 => ps2_running(g, id),
        _ => false,
    }
}

/// A console found on a port is running on its platform and owns that port.
pub proof fn lemma_console_on_port_running(g: CircuitGraph, port: Seq<char>, id: Seq<char>, p: Platform)
    requires
        console_on_port(g, port) == Some((id, p)),
    ensures
        console_running_at(g, id, p, port),
{
    match first_n64_on(g, port, 0) {
        Some(x) => lemma_first_n64_running(g, port, 0, x),
        None => match first_ps1_on(g, port, 0) {
            Some(x) => lemma_first_ps1_running(g, port, 0, x),
            None => match first_ps2_on(g, port, 0) {
                Some(x) => lemma_first_ps2_running(g, port, 0, x),
                None => {},
            },
        },
    }
}

/// The console feeding a plug reaches it through a cable: the plug is on the
/// cable's side B and the console's multi-out holds the cable's side A plug.
pub open spec fn feeds_through_cable(g: CircuitGraph, plug: Seq<char>, id: Seq<char>, p: Platform) -> bool {
    exists|i: int|
        0 <= i < g.cables.entries().len() && has_end(#[trigger] g.cables.entries()[i].ends_b@, plug)
            && g.cables.entries()[i].ends_a@.len() > 0 && links(g).contains_key(
            g.cables.entries()[i].ends_a@[0].id@,
        ) && console_running_at(g, id, p, links(g)[g.cables.entries()[i].ends_a@[0].id@])
}

proof fn lemma_video_source_path(g: CircuitGraph, plug: Seq<char>, i: int, id: Seq<char>, p: Platform)
    requires
        video_source(g, plug, i) == Some((id, p)),
    ensures
        feeds_through_cable(g, plug, id, p),
    decreases g.cables.entries().len() - i,
{
    let c = g.cables.entries()[i];
    if has_end(c.ends_b@, plug) && c.ends_a@.len() > 0 && links(g).contains_key(c.ends_a@[0].id@) {
        let port = links(g)[c.ends_a@[0].id@];
        match console_on_port(g, port) {
            Some((x, q)) => {
                lemma_console_on_port_running(g, port, x, q);
            },
            None => lemma_video_source_path(g, plug, i + 1, id, p),
        }
    } else {
        lemma_video_source_path(g, plug, i + 1, id, p);
    }
}

/// A television shows a console's video only when the set is switched on and
/// energized, its selected composite input is plugged into a cable, and the
/// cable's other side is plugged into the multi-out of that console while the
/// console is running.
pub proof fn lemma_active_video_path(g: CircuitGraph, tv_id: Seq<char>, id: Seq<char>, p: Platform)
    requires
        tv_screen(g, tv_id) == ScreenView::ActiveVideo(id, p),
    ensures
        g.televisions.map().contains_key(tv_id),
        g.televisions.map()[tv_id].power_on,
        socket_live(g, power_inlet(tv_id)),
        exists|jack: Seq<char>|
            selected_video_jack(tv_id, g.televisions.map()[tv_id].input_source) == Some(jack)
                && #[trigger] links(g).contains_key(jack) && feeds_through_cable(g, links(g)[jack], id, p),
{
    let tv = g.televisions.map()[tv_id];
    let jack = selected_video_jack(tv_id, tv.input_source).unwrap();
    lemma_video_source_path(g, links(g)[jack], 0, id, p);
}

/// A switched-on, energized television whose selected video input has
/// nothing plugged in shows static noise.
pub proof fn lemma_unwired_input_shows_static(g: CircuitGraph, tv_id: Seq<char>)
    requires
        g.televisions.map().contains_key(tv_id),
        g.televisions.map()[tv_id].power_on,
        socket_live(g, power_inlet(tv_id)),
        match selected_video_jack(tv_id, g.televisions.map()[tv_id].input_source) {
            Some(jack) => !links(g).contains_key(jack),
            None => true,
        },
    ensures
        tv_screen(g, tv_id) == ScreenView::StaticNoise,
{
}

/// A television that is switched off, or whose power inlet is not energized,
/// shows nothing.
pub proof fn lemma_unpowered_tv_dark(g: CircuitGraph, tv_id: Seq<char>)
    requires
        g.televisions.map().contains_key(tv_id) ==> (!g.televisions.map()[tv_id].power_on
            || !socket_live(g, power_inlet(tv_id))),
    ensures
        tv_screen(g, tv_id) == ScreenView::PoweredOff,
{
}

proof fn lemma_first_n64_found(g: CircuitGraph, port: Seq<char>, i: int, k: int)
    requires
        0 <= i <= k < g.n64_consoles.entries().len(),
        multi_out(g.n64_consoles.entries()[k].id@) == port,
        n64_running(g, g.n64_consoles.entries()[k].id@),
    ensures
        first_n64_on(g, port, i) is Some,
    decreases k - i,
{
    if i < k {
        let id = g.n64_consoles.entries()[i].id@;
        if !(multi_out(id) == port && n64_running(g, id)) {
            lemma_first_n64_found(g, port, i + 1, k);
        }
    }
}

proof fn lemma_first_ps1_found(g: CircuitGraph, port: Seq<char>, i: int, k: int)
    requires
        0 <= i <= k < g.ps1_consoles.entries().len(),
        multi_out(g.ps1_consoles.entries()[k].id@) == port,
        ps1_running(g, g.ps1_consoles.entries()[k].id@),
    ensures
        first_ps1_on(g, port, i) is Some,
    decreases k - i,
{
    if i < k {
        let id = g.ps1_consoles.entries()[i].id@;
        if !(multi_out(id) == port && ps1_running(g, id)) {
            lemma_first_ps1_found(g, port, i + 1, k);
        }
    }
}

proof fn lemma_first_ps2_found(g: CircuitGraph, port: Seq<char>, i: int, k: int)
    requires
        0 <= i <= k < g.ps2_consoles.entries().len(),
        multi_out(g.ps2_consoles.entries()[k].id@) == port,
        ps2_running(g, g.ps2_consoles.entries()[k].id@),
    ensures
        first_ps2_on(g, port, i) is Some,
    decreases k - i,
{
    if i < k {
        let id = g.ps2_consoles.entries()[i].id@;
        if !(multi_out(id) == port && ps2_running(g, id)) {
            lemma_first_ps2_found(g, port, i + 1, k);
        }
    }
}

/// A running console of the platform named `id` (switched on, and its power
/// inlet plugged into a live socket).
pub open spec fn console_is_running(g: CircuitGraph, id: Seq<char>, p: Platform) -> bool {
    match p {
        Platform::Nintendo64 => g.n64_consoles.map().contains_key(id) && g.n64_consoles.map()[id].power_switch_on
            && socket_live(g, id + "_power_in"@),
        Platform::PlayStation1 => g.ps1_consoles.map().contains_key(id)
            && g.ps1_consoles.map()[id].power_button_latched && socket_live(g, id + "_power_in"@),
        Platform::PlayStation2 => g.ps2_consoles.map().contains_key(id)
            && g.ps2_consoles.map()[id].rear_rocker_switch_on && g.ps2_consoles.map()[id].is_system_running
            && socket_live(g, id + "_power_in"@),
        _ => false,
    }
}

proof fn lemma_console_found(g: CircuitGraph, id: Seq<char>, p: Platform)
    requires
        console_is_running(g, id, p),
    ensures
        console_on_port(g, id + "_multi_out"@) is Some,
{
    let port = id + "_multi_out"@;
    match p {
        Platform::Nintendo64 => {
            let s = g.n64_consoles.entries();
            assert(seq_has_key(s, id));
            let k = choose|k: int| 0 <= k < s.len() && #[trigger] s[k].key_view() == id;
            lemma_first_n64_found(g, port, 0, k);
        },
        Platform::PlayStation1 => {
            let s = g.ps1_consoles.entries();
            assert(seq_has_key(s, id));
            let k = choose|k: int| 0 <= k < s.len() && #[trigger] s[k].key_view() == id;
            lemma_first_ps1_found(g, port, 0, k);
        },
        Platform::PlayStation2 => {
            let s = g.ps2_consoles.entries();
            assert(seq_has_key(s, id));
            let k = choose|k: int| 0 <= k < s.len() && #[trigger] s[k].key_view() == id;
            lemma_first_ps2_found(g, port, 0, k);
        },
        _ => {},
    }
}

proof fn lemma_video_source_found(g: CircuitGraph, plug: Seq<char>, i: int, ci: int, b: int)
    requires
        0 <= i <= ci < g.cables.entries().len(),
        0 <= b < g.cables.entries()[ci].ends_b@.len(),
        g.cables.entries()[ci].ends_b@[b].id@ == plug,
        g.cables.entries()[ci].ends_a@.len() > 0,
        links(g).contains_key(g.cables.entries()[ci].ends_a@[0].id@),
        console_on_port(g, links(g)[g.cables.entries()[ci].ends_a@[0].id@]) is Some,
    ensures
        video_source(g, plug, i) is Some,
    decreases ci - i,
{
    if i == ci {
        assert(has_end(g.cables.entries()[ci].ends_b@, plug));
    } else {
        lemma_video_source_found(g, plug, i + 1, ci, b);
    }
}

/// A television that is switched on with its power inlet in a live socket
/// shows active video whenever the jack of its selected input (the AV1 or
/// AV2 video jack, or the component Y jack) holds a side-B plug of a cable
/// whose first side-A plug sits in the multi-out of a running console.
pub proof fn lemma_wired_console_shows(
    g: CircuitGraph,
    tv_id: Seq<char>,
    jack: Seq<char>,
    ci: int,
    b: int,
    id: Seq<char>,
    p: Platform,
)
    requires
        g.televisions.map().contains_key(tv_id),
        g.televisions.map()[tv_id].power_on,
        socket_live(g, tv_id + "_power_in"@),
        (g.televisions.map()[tv_id].input_source == TvInputSource::CompositeAv1 && jack == tv_id + "_av1_video"@)
            || (g.televisions.map()[tv_id].input_source == TvInputSource::CompositeAv2 && jack == tv_id
            + "_av2_video"@) || (g.televisions.map()[tv_id].input_source == TvInputSource::ComponentYPbPr
            && jack == tv_id + "_component_y"@),
        links(g).contains_key(jack),
        0 <= ci < g.cables.entries().len(),
        0 <= b < g.cables.entries()[ci].ends_b@.len(),
        g.cables.entries()[ci].ends_b@[b].id@ == links(g)[jack],
        g.cables.entries()[ci].ends_a@.len() > 0,
        links(g).contains_key(g.cables.entries()[ci].ends_a@[0].id@),
        links(g)[g.cables.entries()[ci].ends_a@[0].id@] == id + "_multi_out"@,
        console_is_running(g, id, p),
    ensures
        tv_screen(g, tv_id) is ActiveVideo,
{
    lemma_console_found(g, id, p);
    lemma_video_source_found(g, links(g)[jack], 0, ci, b);
    assert(selected_video_jack(tv_id, g.televisions.map()[tv_id].input_source) == Some(jack));
}

} // verus!
