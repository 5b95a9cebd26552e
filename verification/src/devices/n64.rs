use vstd::prelude::*;
use vstd::string::*;
use crate::media::CartridgeMedia;
use crate::registry::Keyed;
use crate::sockets::{device_port, port_is, SocketKind, SocketPort};

verus! {

/// Memory module fitted in the N64's front bay.
#[derive(Debug, Clone, Copy, PartialEq, Eq, Structural)]
pub enum N64RamPak {
    JumperPak4MB,
    /// Needed by games such as Donkey Kong 64, Majora's Mask and Perfect Dark.
    ExpansionPak8MB,
}

#[derive(Debug, Clone, PartialEq, Eq)]
pub struct Nintendo64Console {
    pub id: String,
    pub power_switch_on: bool,
    pub reset_button_pressed: bool,
    pub ram_pak: N64RamPak,
    pub inserted_cartridge: Option<CartridgeMedia>,
    pub sockets: Vec<SocketPort>,
}

/// The sockets of an N64 named `id`: rear power and multi-out, four front controller ports.
pub open spec fn n64_ports(s: Seq<SocketPort>, id: Seq<char>) -> bool {
    &&& s.len() == 6
    &&& port_is(s[0], id + "_power_in"@, SocketKind::N64AcBrickJack, "POWER IN"@)
    &&& port_is(s[1], id + "_multi_out"@, SocketKind::NintendoMultiOutJack, "MULTI OUT"@)
    &&& port_is(s[2], id + "_ctrl_1"@, SocketKind::N64ControllerJack, "PORT 1"@)
    &&& port_is(s[3], id + "_ctrl_2"@, SocketKind::N64ControllerJack, "PORT 2"@)
    &&& port_is(s[4], id + "_ctrl_3"@, SocketKind::N64ControllerJack, "PORT 3"@)
    &&& port_is(s[5], id + "_ctrl_4"@, SocketKind::N64ControllerJack, "PORT 4"@)
}

impl Keyed for Nintendo64Console {
    open spec fn key_view(&self) -> Seq<char> {
        self.id@
    }

    fn key(&self) -> (r: &String) {
        &self.id
    }
}

/// A Nintendo 64 out of the box: off, Expansion Pak fitted, slot empty.
pub open spec fn fresh_n64(r: Nintendo64Console, id: Seq<char>) -> bool {
    &&& r.id@ == id
    &&& !r.power_switch_on
    &&& !r.reset_button_pressed
    &&& r.ram_pak == N64RamPak::ExpansionPak8MB
    &&& r.inserted_cartridge is None
    &&& n64_ports(r.sockets@, id)
}

impl Nintendo64Console {
    /// A console switched off, with an Expansion Pak and no cartridge.
    pub fn new(id: &str) -> (r: Self)
        ensures
            fresh_n64(r, id@),
    {
        let mut sockets: Vec<SocketPort> = Vec::new();
        sockets.push(device_port(id, "_power_in", SocketKind::N64AcBrickJack, "POWER IN"));
        sockets.push(device_port(id, "_multi_out", SocketKind::NintendoMultiOutJack, "MULTI OUT"));
        sockets.push(device_port(id, "_ctrl_1", SocketKind::N64ControllerJack, "PORT 1"));
        sockets.push(device_port(id, "_ctrl_2", SocketKind::N64ControllerJack, "PORT 2"));
        sockets.push(device_port(id, "_ctrl_3", SocketKind::N64ControllerJack, "PORT 3"));
        sockets.push(device_port(id, "_ctrl_4", SocketKind::N64ControllerJack, "PORT 4"));
        Nintendo64Console {
            id: String::from_str(id),
            power_switch_on: false,
            reset_button_pressed: false,
            ram_pak: N64RamPak::ExpansionPak8MB,
            inserted_cartridge: None,
            sockets,
        }
    }

    /// Inserts a cartridge into the top slot and hands back the one it displaced.
    pub fn insert_cartridge(&mut self, cart: CartridgeMedia) -> (r: Option<CartridgeMedia>)
        ensures
            r == old(self).inserted_cartridge,
            *final(self) == (Nintendo64Console { inserted_cartridge: Some(cart), ..*old(self) }),
    {
        let previous = self.inserted_cartridge.take();
        self.inserted_cartridge = Some(cart);
        previous
    }

    /// Pulls the cartridge out of the slot.
    pub fn eject_cartridge(&mut self) -> (r: Option<CartridgeMedia>)
        ensures
            r == old(self).inserted_cartridge,
            *final(self) == (Nintendo64Console { inserted_cartridge: None, ..*old(self) }),
    {
        self.inserted_cartridge.take()
    }

    /// Sets the power slider.
    pub fn set_power_switch(&mut self, on: bool)
        ensures
            *final(self) == (Nintendo64Console { power_switch_on: on, ..*old(self) }),
    {
        self.power_switch_on = on;
    }
}

} // verus!
