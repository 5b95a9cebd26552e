use vstd::prelude::*;
use vstd::string::*;
use crate::media::DiscMedia;
use crate::registry::Keyed;
use crate::sockets::{device_port, port_is, SocketKind, SocketPort};

verus! {

#[derive(Debug, Clone, PartialEq, Eq)]
pub struct PlayStation1Console {
    pub id: String,
    pub power_button_latched: bool,
    pub lid_open: bool,
    pub spindle_disc: Option<DiscMedia>,
    pub sockets: Vec<SocketPort>,
}

/// The sockets of a PS1 named `id`: rear power and multi-out, two controller ports.
pub open spec fn ps1_ports(s: Seq<SocketPort>, id: Seq<char>) -> bool {
    &&& s.len() == 4
    &&& port_is(s[0], id + "_power_in"@, SocketKind::IecC7Jack, "AC IN"@)
    &&& port_is(s[1], id + "_multi_out"@, SocketKind::PlayStationMultiOutJack, "AV MULTI OUT"@)
    &&& port_is(s[2], id + "_ctrl_1"@, SocketKind::PlayStationControllerJack, "CONTROLLER 1"@)
    &&& port_is(s[3], id + "_ctrl_2"@, SocketKind::PlayStationControllerJack, "CONTROLLER 2"@)
}

impl Keyed for PlayStation1Console {
    open spec fn key_view(&self) -> Seq<char> {
        self.id@
    }

    fn key(&self) -> (r: &String) {
        &self.id
    }
}

/// A PlayStation out of the box: off, lid shut, no disc.
pub open spec fn fresh_ps1(r: PlayStation1Console, id: Seq<char>) -> bool {
    &&& r.id@ == id
    &&& !r.power_button_latched
    &&& !r.lid_open
    &&& r.spindle_disc is None
    &&& ps1_ports(r.sockets@, id)
}

impl PlayStation1Console {
    /// A console with the power button released, the lid shut and no disc.
    pub fn new(id: &str) -> (r: Self)
        ensures
            fresh_ps1(r, id@),
    {
        let mut sockets: Vec<SocketPort> = Vec::new();
        sockets.push(device_port(id, "_power_in", SocketKind::IecC7Jack, "AC IN"));
        sockets.push(device_port(id, "_multi_out", SocketKind::PlayStationMultiOutJack, "AV MULTI OUT"));
        sockets.push(device_port(id, "_ctrl_1", SocketKind::PlayStationControllerJack, "CONTROLLER 1"));
        sockets.push(device_port(id, "_ctrl_2", SocketKind::PlayStationControllerJack, "CONTROLLER 2"));
        PlayStation1Console {
            id: String::from_str(id),
            power_button_latched: false,
            lid_open: false,
            spindle_disc: None,
            sockets,
        }
    }

    /// The push-button power latch toggles on each press.
    pub fn press_power_button(&mut self)
        ensures
            final(self).power_button_latched == !old(self).power_button_latched,
            final(self).lid_open == old(self).lid_open,
            final(self).spindle_disc == old(self).spindle_disc,
            final(self).id == old(self).id,
            final(self).sockets == old(self).sockets,
    {
        self.power_button_latched = !self.power_button_latched;
    }

    /// The open button releases the spring lid.
    pub fn press_open_button(&mut self)
        ensures
            final(self).lid_open,
            final(self).power_button_latched == old(self).power_button_latched,
            final(self).spindle_disc == old(self).spindle_disc,
            final(self).id == old(self).id,
            final(self).sockets == old(self).sockets,
    {
        self.lid_open = true;
    }

    pub fn close_lid(&mut self)
        ensures
            !final(self).lid_open,
            final(self).power_button_latched == old(self).power_button_latched,
            final(self).spindle_disc == old(self).spindle_disc,
            final(self).id == old(self).id,
            final(self).sockets == old(self).sockets,
    {
        self.lid_open = false;
    }

    /// Places a disc on the spindle when the lid is open and hands back the disc
    /// it displaced; with the lid shut nothing changes and the disc is not kept.
    pub fn insert_disc(&mut self, disc: DiscMedia) -> (r: Option<DiscMedia>)
        ensures
            old(self).lid_open ==> r == old(self).spindle_disc && final(self).spindle_disc == Some(disc),
            !old(self).lid_open ==> r is None && final(self).spindle_disc == old(self).spindle_disc,
            final(self).lid_open == old(self).lid_open,
            final(self).power_button_latched == old(self).power_button_latched,
            final(self).id == old(self).id,
            final(self).sockets == old(self).sockets,
    {
        if self.lid_open {
            let previous = self.spindle_disc.take();
            self.spindle_disc = Some(disc);
            previous
        } else {
            None
        }
    }

    /// Lifts the disc off the spindle when the lid is open.
    pub fn remove_disc(&mut self) -> (r: Option<DiscMedia>)
        ensures
            old(self).lid_open ==> r == old(self).spindle_disc && final(self).spindle_disc is None,
            !old(self).lid_open ==> r is None && final(self).spindle_disc == old(self).spindle_disc,
            final(self).lid_open == old(self).lid_open,
            final(self).power_button_latched == old(self).power_button_latched,
            final(self).id == old(self).id,
            final(self).sockets == old(self).sockets,
    {
        if self.lid_open {
            self.spindle_disc.take()
        } else {
            None
        }
    }
}

} // verus!
