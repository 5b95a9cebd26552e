use vstd::prelude::*;
use vstd::string::*;
use crate::registry::Keyed;
use crate::sockets::{device_port, port_is, SocketKind, SocketPort};

verus! {

/// Fixed wall outlet offering two AC sockets.
#[derive(Debug, Clone, PartialEq, Eq)]
pub struct WallOutlet {
    pub id: String,
    pub sockets: Vec<SocketPort>,
}

impl Keyed for WallOutlet {
    open spec fn key_view(&self) -> Seq<char> {
        self.id@
    }

    fn key(&self) -> (r: &String) {
        &self.id
    }
}

/// A wall outlet as installed: two live sockets, top and bottom.
pub open spec fn fresh_wall_outlet(r: WallOutlet, id: Seq<char>) -> bool {
    &&& r.id@ == id
    &&& r.sockets@.len() == 2
    &&& port_is(r.sockets@[0], id + "_top"@, SocketKind::WallAcOutlet, "AC 120V TOP"@)
    &&& port_is(r.sockets@[1], id + "_bottom"@, SocketKind::WallAcOutlet, "AC 120V BOTTOM"@)
}

impl WallOutlet {
    pub fn new(id: &str) -> (r: Self)
        ensures
            fresh_wall_outlet(r, id@),
    {
        let mut sockets: Vec<SocketPort> = Vec::new();
        sockets.push(device_port(id, "_top", SocketKind::WallAcOutlet, "AC 120V TOP"));
        sockets.push(device_port(id, "_bottom", SocketKind::WallAcOutlet, "AC 120V BOTTOM"));
        WallOutlet { id: String::from_str(id), sockets }
    }
}

/// The decimal numeral of an outlet position, 1 to 6.
pub open spec fn outlet_numeral(n: int) -> Seq<char> {
    if n == 1 {
        "1"@
    } else if n == 2 {
        "2"@
    } else if n == 3 {
        "3"@
    } else if n == 4 {
        "4"@
    } else if n == 5 {
        "5"@
    } else {
        "6"@
    }
}

fn outlet_numeral_str(n: usize) -> (r: &'static str)
    requires
        1 <= n <= 6,
    ensures
        r@ == outlet_numeral(n as int),
{
    if n == 1 {
        "1"
    } else if n == 2 {
        "2"
    } else if n == 3 {
        "3"
    } else if n == 4 {
        "4"
    } else if n == 5 {
        "5"
    } else {
        "6"
    }
}

/// Number of outlets on a power strip.
pub const STRIP_OUTLETS: usize = 6;

/// Surge protector strip with a master rocker switch, a cord plug and six AC outlets.
#[derive(Debug, Clone, PartialEq, Eq)]
pub struct PowerStrip {
    pub id: String,
    pub switch_on: bool,
    /// The cord plug that goes into a wall outlet.
    pub plug_id: String,
    pub sockets: Vec<SocketPort>,
}

impl Keyed for PowerStrip {
    open spec fn key_view(&self) -> Seq<char> {
        self.id@
    }

    fn key(&self) -> (r: &String) {
        &self.id
    }
}

/// A power strip as delivered: switched on, with its cord plug and six outlets.
pub open spec fn fresh_power_strip(r: PowerStrip, id: Seq<char>) -> bool {
    &&& r.id@ == id
    &&& r.switch_on
    &&& r.plug_id@ == id + "_cord_plug"@
    &&& r.sockets@.len() == STRIP_OUTLETS
    &&& forall|i: int|
            0 <= i < STRIP_OUTLETS ==> port_is(
                #[trigger] r.sockets@[i],
                id + "_outlet_"@ + outlet_numeral(i + 1),
                SocketKind::WallAcOutlet,
                "OUTLET "@ + outlet_numeral(i + 1),
            )
}

impl PowerStrip {
    /// A strip that is switched on, with outlets numbered 1 to 6.
    pub fn new(id: &str) -> (r: Self)
        ensures
            fresh_power_strip(r, id@),
    {
        let mut sockets: Vec<SocketPort> = Vec::new();
        let mut i: usize = 0;
        while i < STRIP_OUTLETS
            invariant
                i <= STRIP_OUTLETS,
                sockets@.len() == i,
                forall|j: int|
                    0 <= j < i ==> port_is(
                        #[trigger] sockets@[j],
                        id@ + "_outlet_"@ + outlet_numeral(j + 1),
                        SocketKind::WallAcOutlet,
                        "OUTLET "@ + outlet_numeral(j + 1),
                    ),
            decreases STRIP_OUTLETS - i,
        {
            let numeral = outlet_numeral_str(i + 1);
            let prefix = crate::text::suffixed(id, "_outlet_");
            let socket_id = crate::text::suffixed(prefix.as_str(), numeral);
            let label = crate::text::suffixed("OUTLET ", numeral);
            sockets.push(SocketPort { id: socket_id, kind: SocketKind::WallAcOutlet, label });
            i = i + 1;
        }
        PowerStrip {
            id: String::from_str(id),
            switch_on: true,
            plug_id: crate::text::suffixed(id, "_cord_plug"),
            sockets,
        }
    }

    /// Flips the master rocker switch.
    pub fn toggle_switch(&mut self)
        ensures
            final(self).switch_on == !old(self).switch_on,
            final(self).id == old(self).id,
            final(self).plug_id == old(self).plug_id,
            final(self).sockets == old(self).sockets,
    {
        self.switch_on = !self.switch_on;
    }
}

} // verus!
