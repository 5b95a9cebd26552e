use vstd::prelude::*;
use vstd::string::*;
use crate::registry::Keyed;
use crate::sockets::{RcaColor, SocketKind};
use crate::text::suffixed;

verus! {

#[derive(Debug, Clone, Copy, PartialEq, Eq, Structural)]
pub enum CableType {
    /// Two-prong wall plug to IEC C7 figure-8 (PS1, slim PS2, most small devices).
    PowerCordC7,
    /// Three-prong wall plug to IEC C13 kettle lead (fat PS2, PC, large TVs).
    PowerCordC13,
    /// N64 AC adapter with built-in wall cord and latching console plug.
    N64PowerAdapter,
    /// Nintendo Multi-Out to yellow, white and red RCA plugs.
    NintendoMultiOutToComposite,
    /// PlayStation AV Multi-Out to yellow, white and red RCA plugs.
    PlayStationMultiOutToComposite,
    /// Component cable with five RCA plugs: Y, Pb, Pr, audio left and right.
    Component5Rca,
    /// Three RCA plugs to three RCA plugs.
    RcaComposite3x3,
    /// N64 controller cord.
    N64ControllerCord,
    /// PS1/PS2 controller cord.
    PlayStationControllerCord,
}

/// Cables that carry mains power from their first side to their second.
pub open spec fn conducts_power(t: CableType) -> bool {
    t == CableType::PowerCordC7 || t == CableType::PowerCordC13 || t == CableType::N64PowerAdapter
}

impl CableType {
    /// Whether the cable carries mains power from side A to side B.
    pub fn carries_power(&self) -> (r: bool)
        ensures
            r == conducts_power(*self),
    {
        match self {
            CableType::PowerCordC7 | CableType::PowerCordC13 | CableType::N64PowerAdapter => true,
            _ => false,
        }
    }
}

/// A plug at one extremity of a cable.
#[derive(Debug, Clone, PartialEq, Eq)]
pub struct CableEnd {
    pub id: String,
    pub kind: SocketKind,
    /// The socket this plug is mated with, if any.
    pub connected_to_socket: Option<String>,
}

/// A cable holding one or more plugs at each of its two sides.
#[derive(Debug, Clone, PartialEq, Eq)]
pub struct CableEntity {
    pub id: String,
    pub cable_type: CableType,
    /// Plugs on side A, such as the wall plug or a console multi-out plug.
    pub ends_a: Vec<CableEnd>,
    /// Plugs on side B, such as the TV's RCA plugs or a console power connector.
    pub ends_b: Vec<CableEnd>,
    /// Jacket thickness in millimetres.
    pub thickness_mm: u32,
    /// Total length in millimetres.
    pub length_mm: u32,
    /// Jacket colour, red, green and blue.
    pub color_rgb: [u8; 3],
}

impl Keyed for CableEntity {
    open spec fn key_view(&self) -> Seq<char> {
        self.id@
    }

    fn key(&self) -> (r: &String) {
        &self.id
    }
}

/// The plug has exactly the given identifier and kind and is not plugged in.
pub open spec fn end_is(e: CableEnd, id: Seq<char>, kind: SocketKind) -> bool {
    e.id@ == id && e.kind == kind && e.connected_to_socket is None
}

fn cable_end(owner: &str, suffix: &str, kind: SocketKind) -> (r: CableEnd)
    ensures
        end_is(r, owner@ + suffix@, kind),
{
    CableEnd { id: suffixed(owner, suffix), kind, connected_to_socket: None }
}

/// The yellow, white and red RCA plugs of a composite AV cable named `id`.
pub open spec fn composite_rca_ends(e: Seq<CableEnd>, id: Seq<char>) -> bool {
    &&& e.len() == 3
    &&& end_is(e[0], id + "_rca_yellow"@, SocketKind::RcaPlug(RcaColor::YellowVideo))
    &&& end_is(e[1], id + "_rca_white"@, SocketKind::RcaPlug(RcaColor::WhiteAudioLeft))
    &&& end_is(e[2], id + "_rca_red"@, SocketKind::RcaPlug(RcaColor::RedAudioRight))
}

fn composite_rca_plugs(id: &str) -> (r: Vec<CableEnd>)
    ensures
        composite_rca_ends(r@, id@),
{
    let mut v: Vec<CableEnd> = Vec::new();
    v.push(cable_end(id, "_rca_yellow", SocketKind::RcaPlug(RcaColor::YellowVideo)));
    v.push(cable_end(id, "_rca_white", SocketKind::RcaPlug(RcaColor::WhiteAudioLeft)));
    v.push(cable_end(id, "_rca_red", SocketKind::RcaPlug(RcaColor::RedAudioRight)));
    v
}

/// A Nintendo multi-out to composite AV cable.
pub open spec fn nintendo_av_cable(r: CableEntity, id: Seq<char>) -> bool {
    &&& r.id@ == id
    &&& r.cable_type == CableType::NintendoMultiOutToComposite
    &&& r.ends_a@.len() == 1
    &&& end_is(r.ends_a@[0], id + "_multiout"@, SocketKind::NintendoMultiOutPlug)
    &&& composite_rca_ends(r.ends_b@, id)
    &&& r.thickness_mm == 6
    &&& r.length_mm == 1800
    &&& r.color_rgb == [30u8, 30u8, 30u8]
}

/// A PlayStation multi-out to composite AV cable.
pub open spec fn playstation_av_cable(r: CableEntity, id: Seq<char>) -> bool {
    &&& r.id@ == id
    &&& r.cable_type == CableType::PlayStationMultiOutToComposite
    &&& r.ends_a@.len() == 1
    &&& end_is(r.ends_a@[0], id + "_ps_multiout"@, SocketKind::PlayStationMultiOutPlug)
    &&& composite_rca_ends(r.ends_b@, id)
    &&& r.thickness_mm == 6
    &&& r.length_mm == 2000
    &&& r.color_rgb == [25u8, 25u8, 25u8]
}

/// A mains cord with an IEC C7 connector.
pub open spec fn power_c7_cable(r: CableEntity, id: Seq<char>) -> bool {
    &&& r.id@ == id
    &&& r.cable_type == CableType::PowerCordC7
    &&& r.ends_a@.len() == 1
    &&& end_is(r.ends_a@[0], id + "_wall"@, SocketKind::WallAcPlug)
    &&& r.ends_b@.len() == 1
    &&& end_is(r.ends_b@[0], id + "_c7"@, SocketKind::IecC7Plug)
    &&& r.thickness_mm == 7
    &&& r.length_mm == 1500
    &&& r.color_rgb == [20u8, 20u8, 20u8]
}

/// The Nintendo 64 AC brick and its cord.
pub open spec fn n64_power_adapter_cable(r: CableEntity, id: Seq<char>) -> bool {
    &&& r.id@ == id
    &&& r.cable_type == CableType::N64PowerAdapter
    &&& r.ends_a@.len() == 1
    &&& end_is(r.ends_a@[0], id + "_wall"@, SocketKind::WallAcPlug)
    &&& r.ends_b@.len() == 1
    &&& end_is(r.ends_b@[0], id + "_n64plug"@, SocketKind::N64AcBrickPlug)
    &&& r.thickness_mm == 8
    &&& r.length_mm == 2200
    &&& r.color_rgb == [35u8, 35u8, 38u8]
}

impl CableEntity {
    /// Nintendo Multi-Out to composite: one multi-out plug, three RCA plugs, 1.8 m.
    pub fn new_nintendo_av_composite(id: &str) -> (r: Self)
        ensures
            nintendo_av_cable(r, id@),
    {
        let mut ends_a: Vec<CableEnd> = Vec::new();
        ends_a.push(cable_end(id, "_multiout", SocketKind::NintendoMultiOutPlug));
        CableEntity {
            id: String::from_str(id),
            cable_type: CableType::NintendoMultiOutToComposite,
            ends_a,
            ends_b: composite_rca_plugs(id),
            thickness_mm: 6,
            length_mm: 1800,
            color_rgb: [30, 30, 30],
        }
    }

    /// PlayStation AV Multi-Out to composite: one multi-out plug, three RCA plugs, 2 m.
    pub fn new_playstation_av_composite(id: &str) -> (r: Self)
        ensures
            playstation_av_cable(r, id@),
    {
        let mut ends_a: Vec<CableEnd> = Vec::new();
        ends_a.push(cable_end(id, "_ps_multiout", SocketKind::PlayStationMultiOutPlug));
        CableEntity {
            id: String::from_str(id),
            cable_type: CableType::PlayStationMultiOutToComposite,
            ends_a,
            ends_b: composite_rca_plugs(id),
            thickness_mm: 6,
            length_mm: 2000,
            color_rgb: [25, 25, 25],
        }
    }

    /// Wall plug to IEC C7 figure-8 power cord, 1.5 m.
    pub fn new_power_c7(id: &str) -> (r: Self)
        ensures
            power_c7_cable(r, id@),
    {
        let mut ends_a: Vec<CableEnd> = Vec::new();
        ends_a.push(cable_end(id, "_wall", SocketKind::WallAcPlug));
        let mut ends_b: Vec<CableEnd> = Vec::new();
        ends_b.push(cable_end(id, "_c7", SocketKind::IecC7Plug));
        CableEntity {
            id: String::from_str(id),
            cable_type: CableType::PowerCordC7,
            ends_a,
            ends_b,
            thickness_mm: 7,
            length_mm: 1500,
            color_rgb: [20, 20, 20],
        }
    }

    /// N64 AC adapter: wall plug to the brick's console plug, 2.2 m.
    pub fn new_n64_power_adapter(id: &str) -> (r: Self)
        ensures
            n64_power_adapter_cable(r, id@),
    {
        let mut ends_a: Vec<CableEnd> = Vec::new();
        ends_a.push(cable_end(id, "_wall", SocketKind::WallAcPlug));
        let mut ends_b: Vec<CableEnd> = Vec::new();
        ends_b.push(cable_end(id, "_n64plug", SocketKind::N64AcBrickPlug));
        CableEntity {
            id: String::from_str(id),
            cable_type: CableType::N64PowerAdapter,
            ends_a,
            ends_b,
            thickness_mm: 8,
            length_mm: 2200,
            color_rgb: [35, 35, 38],
        }
    }
}

} // verus!
