use vstd::prelude::*;
use vstd::string::*;
use crate::media::DiscMedia;
use crate::registry::Keyed;
use crate::sockets::{device_port, port_is, SocketKind, SocketPort};

verus! {

/// Full travel of the motorized tray, in steps of 1/5000 of the travel.
pub const TRAY_TRAVEL: u32 = 5000;

/// Motorized disc tray position. Movement progress is counted in steps of
/// 1/5000 of the full travel, so that every millisecond adds exactly 6 steps
/// and no fraction is lost between updates.
#[derive(Debug, Clone, Copy, PartialEq, Eq, Structural)]
pub enum Ps2TrayState {
    Closed,
    Opening(u32),
    Open,
    Closing(u32),
}

#[derive(Debug, Clone, PartialEq, Eq)]
pub struct PlayStation2Console {
    pub id: String,
    pub rear_rocker_switch_on: bool,
    /// False while in standby (red LED), true while running (green LED).
    pub is_system_running: bool,
    pub tray_state: Ps2TrayState,
    pub tray_disc: Option<DiscMedia>,
    pub sockets: Vec<SocketPort>,
}

/// The sockets of a PS2 named `id`: rear power and multi-out, two controller ports.
pub open spec fn ps2_ports(s: Seq<SocketPort>, id: Seq<char>) -> bool {
    &&& s.len() == 4
    &&& port_is(s[0], id + "_power_in"@, SocketKind::IecC7Jack, "AC IN"@)
    &&& port_is(s[1], id + "_multi_out"@, SocketKind::PlayStationMultiOutJack, "AV MULTI OUT"@)
    &&& port_is(s[2], id + "_ctrl_1"@, SocketKind::PlayStationControllerJack, "CONTROLLER 1"@)
    &&& port_is(s[3], id + "_ctrl_2"@, SocketKind::PlayStationControllerJack, "CONTROLLER 2"@)
}

/// The tray state after the eject button is pressed: a closed or closing tray
/// starts opening, an open or opening tray starts closing.
pub open spec fn eject_pressed(t: Ps2TrayState) -> Ps2TrayState {
    match t {
        Ps2TrayState::Closed | Ps2TrayState::Closing(_) => Ps2TrayState::Opening(0),
        Ps2TrayState::Open | Ps2TrayState::Opening(_) => Ps2TrayState::Closing(0),
    }
}

/// Tray progress, in steps of 1/5000 of the travel, gained over `dt_ms` milliseconds at a speed of
/// 1.2 full travels per second.
pub open spec fn tray_advance(dt_ms: u32) -> int {
    (dt_ms as int) * 6
}

/// The tray state after `dt_ms` milliseconds of motor travel.
pub open spec fn tray_after(t: Ps2TrayState, dt_ms: u32) -> Ps2TrayState {
    match t {
        Ps2TrayState::Opening(p) => if p + tray_advance(dt_ms) >= TRAY_TRAVEL {
            Ps2TrayState::Open
        } else {
            Ps2TrayState::Opening((p + tray_advance(dt_ms)) as u32)
        },
        Ps2TrayState::Closing(p) => if p + tray_advance(dt_ms) >= TRAY_TRAVEL {
            Ps2TrayState::Closed
        } else {
            Ps2TrayState::Closing((p + tray_advance(dt_ms)) as u32)
        },
        _ => t,
    }
}

impl Keyed for PlayStation2Console {
    open spec fn key_view(&self) -> Seq<char> {
        self.id@
    }

    fn key(&self) -> (r: &String) {
        &self.id
    }
}

/// A PlayStation 2 out of the box: rear switch on, in standby, tray closed and empty.
pub open spec fn fresh_ps2(r: PlayStation2Console, id: Seq<char>) -> bool {
    &&& r.id@ == id
    &&& r.rear_rocker_switch_on
    &&& !r.is_system_running
    &&& r.tray_state == Ps2TrayState::Closed
    &&& r.tray_disc is None
    &&& ps2_ports(r.sockets@, id)
}

impl PlayStation2Console {
    /// A console with the rear switch on, in standby, tray closed and empty.
    pub fn new(id: &str) -> (r: Self)
        ensures
            fresh_ps2(r, id@),
    {
        let mut sockets: Vec<SocketPort> = Vec::new();
        sockets.push(device_port(id, "_power_in", SocketKind::IecC7Jack, "AC IN"));
        sockets.push(device_port(id, "_multi_out", SocketKind::PlayStationMultiOutJack, "AV MULTI OUT"));
        sockets.push(device_port(id, "_ctrl_1", SocketKind::PlayStationControllerJack, "CONTROLLER 1"));
        sockets.push(device_port(id, "_ctrl_2", SocketKind::PlayStationControllerJack, "CONTROLLER 2"));
        PlayStation2Console {
            id: String::from_str(id),
            rear_rocker_switch_on: true,
            is_system_running: false,
            tray_state: Ps2TrayState::Closed,
            tray_disc: None,
            sockets,
        }
    }

    /// The front Reset/Standby button toggles between standby and running, but
    /// only while the rear master switch is on.
    pub fn press_reset_standby_button(&mut self)
        ensures
            final(self).is_system_running == if old(self).rear_rocker_switch_on {
                !old(self).is_system_running
            } else {
                old(self).is_system_running
            },
            final(self).rear_rocker_switch_on == old(self).rear_rocker_switch_on,
            final(self).tray_state == old(self).tray_state,
            final(self).tray_disc == old(self).tray_disc,
            final(self).id == old(self).id,
            final(self).sockets == old(self).sockets,
    {
        if self.rear_rocker_switch_on {
            self.is_system_running = !self.is_system_running;
        }
    }

    /// The front eject button reverses the tray's direction of travel.
    pub fn press_eject_button(&mut self)
        ensures
            final(self).tray_state == eject_pressed(old(self).tray_state),
            final(self).is_system_running == old(self).is_system_running,
            final(self).rear_rocker_switch_on == old(self).rear_rocker_switch_on,
            final(self).tray_disc == old(self).tray_disc,
            final(self).id == old(self).id,
            final(self).sockets == old(self).sockets,
    {
        match self.tray_state {
            Ps2TrayState::Closed | Ps2TrayState::Closing(_) => {
                self.tray_state = Ps2TrayState::Opening(0);
            },
            Ps2TrayState::Open | Ps2TrayState::Opening(_) => {
                self.tray_state = Ps2TrayState::Closing(0);
            },
        }
    }

    /// Puts a disc in the tray when it is fully open and hands back the disc it
    /// displaced; otherwise nothing changes and the disc is not kept.
    pub fn insert_disc(&mut self, disc: DiscMedia) -> (r: Option<DiscMedia>)
        ensures
            old(self).tray_state == Ps2TrayState::Open ==> r == old(self).tray_disc
                && final(self).tray_disc == Some(disc),
            old(self).tray_state != Ps2TrayState::Open ==> r is None && final(self).tray_disc
                == old(self).tray_disc,
            final(self).tray_state == old(self).tray_state,
            final(self).is_system_running == old(self).is_system_running,
            final(self).rear_rocker_switch_on == old(self).rear_rocker_switch_on,
            final(self).id == old(self).id,
            final(self).sockets == old(self).sockets,
    {
        if self.tray_state == Ps2TrayState::Open {
            let previous = self.tray_disc.take();
            self.tray_disc = Some(disc);
            previous
        } else {
            None
        }
    }

    /// Takes the disc out of a fully open tray.
    pub fn remove_disc(&mut self) -> (r: Option<DiscMedia>)
        ensures
            old(self).tray_state == Ps2TrayState::Open ==> r == old(self).tray_disc
                && final(self).tray_disc is None,
            old(self).tray_state != Ps2TrayState::Open ==> r is None && final(self).tray_disc
                == old(self).tray_disc,
            final(self).tray_state == old(self).tray_state,
            final(self).is_system_running == old(self).is_system_running,
            final(self).rear_rocker_switch_on == old(self).rear_rocker_switch_on,
            final(self).id == old(self).id,
            final(self).sockets == old(self).sockets,
    {
        if self.tray_state == Ps2TrayState::Open {
            self.tray_disc.take()
        } else {
            None
        }
    }

    /// Advances the motorized tray by `dt_ms` milliseconds; a movement that
    /// reaches full travel ends in the open or closed position.
    pub fn update_tray(&mut self, dt_ms: u32)
        ensures
            final(self).tray_state == tray_after(old(self).tray_state, dt_ms),
            final(self).tray_disc == old(self).tray_disc,
            final(self).is_system_running == old(self).is_system_running,
            final(self).rear_rocker_switch_on == old(self).rear_rocker_switch_on,
            final(self).id == old(self).id,
            final(self).sockets == old(self).sockets,
    {
        let advance: u64 = (dt_ms as u64) * 6;
        match self.tray_state {
            Ps2TrayState::Opening(p) => {
                let total: u64 = (p as u64) + advance;
                if total >= TRAY_TRAVEL as u64 {
                    self.tray_state = Ps2TrayState::Open;
                } else {
                    self.tray_state = Ps2TrayState::Opening(total as u32);
                }
            },
            Ps2TrayState::Closing(p) => {
                let total: u64 = (p as u64) + advance;
                if total >= TRAY_TRAVEL as u64 {
                    self.tray_state = Ps2TrayState::Closed;
                } else {
                    self.tray_state = Ps2TrayState::Closing(total as u32);
                }
            },
            _ => {},
        }
    }
}

/// The motorised tray takes 834 ms to travel: pressing eject on a closed
/// tray and waiting that long leaves it fully open, and pressing eject again
/// and waiting as long leaves it closed.
pub proof fn lemma_tray_travel_time(dt_ms: u32)
    requires
        dt_ms >= 834,
    ensures
        tray_after(eject_pressed(Ps2TrayState::Closed), dt_ms) == Ps2TrayState::Open,
        tray_after(eject_pressed(Ps2TrayState::Open), dt_ms) == Ps2TrayState::Closed,
        tray_after(eject_pressed(Ps2TrayState::Closed), 833) != Ps2TrayState::Open,
{
}

/// How far the tray gets does not depend on how the time is cut up: two
/// updates of `a` and `b` milliseconds move it as one update of `a + b`.
pub proof fn lemma_tray_steps_add(t: Ps2TrayState, a: u32, b: u32)
    requires
        a + b <= u32::MAX,
    ensures
        tray_after(tray_after(t, a), b) == tray_after(t, (a + b) as u32),
{
}

} // verus!
