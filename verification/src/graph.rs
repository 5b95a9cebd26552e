use vstd::prelude::*;
use vstd::string::*;
use crate::cables::{conducts_power, CableEnd, CableEntity};
use crate::devices::controller::UnifiedGamepadState;
use crate::devices::n64::Nintendo64Console;
use crate::devices::power::{PowerStrip, WallOutlet};
use crate::devices::ps1::PlayStation1Console;
use crate::devices::ps2::PlayStation2Console;
use crate::devices::tv::CrtTelevision;
use crate::registry::{keys_unique, Keyed, Registry};
use crate::sockets::SocketPort;

verus! {

/// One direction of a plugged connection: `socket` is mated with `mated`.
#[derive(Debug, Clone, PartialEq, Eq)]
pub struct SocketLink {
    pub socket: String,
    pub mated: String,
}

impl Keyed for SocketLink {
    open spec fn key_view(&self) -> Seq<char> {
        self.socket@
    }

    fn key(&self) -> (r: &String) {
        &self.socket
    }
}

/// The input state reported by one controller.
#[derive(Debug, Clone, PartialEq, Eq)]
pub struct ControllerInput {
    pub controller_id: String,
    pub state: UnifiedGamepadState,
}

impl Keyed for ControllerInput {
    open spec fn key_view(&self) -> Seq<char> {
        self.controller_id@
    }

    fn key(&self) -> (r: &String) {
        &self.controller_id
    }
}

/// The room's circuit and signal routing graph: every device and cable by id,
/// and the plugged connections between their sockets.
#[derive(Debug)]
pub struct CircuitGraph {
    pub outlets: Registry<WallOutlet>,
    pub power_strips: Registry<PowerStrip>,
    pub televisions: Registry<CrtTelevision>,
    pub n64_consoles: Registry<Nintendo64Console>,
    pub ps1_consoles: Registry<PlayStation1Console>,
    pub ps2_consoles: Registry<PlayStation2Console>,
    pub cables: Registry<CableEntity>,
    /// Both directions of every plugged connection, keyed by socket id.
    pub connections: Registry<SocketLink>,
    /// Controller input states by controller id.
    pub controller_states: Registry<ControllerInput>,
}

/// Which socket each socket is plugged into.
pub open spec fn links(g: CircuitGraph) -> Map<Seq<char>, Seq<char>> {
    Map::new(
        |k: Seq<char>| g.connections.map().contains_key(k),
        |k: Seq<char>| g.connections.map()[k].mated@,
    )
}

/// The plug map after unplugging socket `s` and whatever it was mated with.
pub open spec fn unplugged(m: Map<Seq<char>, Seq<char>>, s: Seq<char>) -> Map<Seq<char>, Seq<char>> {
    if m.contains_key(s) {
        m.remove(s).remove(m[s])
    } else {
        m
    }
}

/// The plug map after mating `a` with `b`: both are first unplugged from
/// whatever they were mated with.
pub open spec fn plugged(m: Map<Seq<char>, Seq<char>>, a: Seq<char>, b: Seq<char>) -> Map<
    Seq<char>,
    Seq<char>,
> {
    unplugged(unplugged(m, a), b).insert(a, b).insert(b, a)
}

/// Every connection is recorded in both directions.
pub open spec fn symmetric(m: Map<Seq<char>, Seq<char>>) -> bool {
    forall|k: Seq<char>| #[trigger]
        m.contains_key(k) ==> m.contains_key(m[k]) && m[m[k]] == k
}

/// The devices and cables are the same in both graphs.
pub open spec fn same_devices(a: CircuitGraph, b: CircuitGraph) -> bool {
    &&& a.outlets == b.outlets
    &&& a.power_strips == b.power_strips
    &&& a.televisions == b.televisions
    &&& a.n64_consoles == b.n64_consoles
    &&& a.ps1_consoles == b.ps1_consoles
    &&& a.ps2_consoles == b.ps2_consoles
    &&& a.cables == b.cables
    &&& a.controller_states == b.controller_states
}

proof fn lemma_links_remove(before: CircuitGraph, after: CircuitGraph, k: Seq<char>)
    requires
        after.connections.map() == before.connections.map().remove(k),
    ensures
        links(after) == links(before).remove(k),
{
    assert(links(after) =~= links(before).remove(k));
}

proof fn lemma_links_insert(before: CircuitGraph, after: CircuitGraph, l: SocketLink)
    requires
        after.connections.map() == before.connections.map().insert(l.socket@, l),
    ensures
        links(after) == links(before).insert(l.socket@, l.mated@),
{
    assert(links(after) =~= links(before).insert(l.socket@, l.mated@));
}

impl CircuitGraph {
    /// An empty room: no devices, cables or connections.
    pub fn new() -> (r: Self)
        ensures
            r.outlets.map().is_empty(),
            r.power_strips.map().is_empty(),
            r.televisions.map().is_empty(),
            r.n64_consoles.map().is_empty(),
            r.ps1_consoles.map().is_empty(),
            r.ps2_consoles.map().is_empty(),
            r.cables.map().is_empty(),
            r.controller_states.map().is_empty(),
            links(r).is_empty(),
    {
        let r = CircuitGraph {
            outlets: Registry::new(),
            power_strips: Registry::new(),
            televisions: Registry::new(),
            n64_consoles: Registry::new(),
            ps1_consoles: Registry::new(),
            ps2_consoles: Registry::new(),
            cables: Registry::new(),
            connections: Registry::new(),
            controller_states: Registry::new(),
        };
        assert(links(r) =~= Map::<Seq<char>, Seq<char>>::empty());
        r
    }

    /// Unplugs a connector from its socket; the socket it was mated with is
    /// freed as well.
    pub fn disconnect(&mut self, socket_id: &str)
        ensures
            links(*final(self)) == unplugged(links(*old(self)), socket_id@),
            same_devices(*final(self), *old(self)),
    {
        let ghost g0 = *self;
        match self.connections.remove(socket_id) {
            Some(link) => {
                let ghost g1 = *self;
                proof {
                    lemma_links_remove(g0, g1, socket_id@);
                    assert(links(g0)[socket_id@] == link.mated@);
                }
                let _ = self.connections.remove(link.mated.as_str());
                proof {
                    lemma_links_remove(g1, *self, link.mated@);
                }
            },
            None => {
                proof {
                    lemma_links_remove(g0, *self, socket_id@);
                    assert(links(*self) =~= links(g0));
                }
            },
        }
    }

    /// Plugs `socket_a` and `socket_b` together, first unplugging each from
    /// whatever it was mated with.
    pub fn connect(&mut self, socket_a: &str, socket_b: &str)
        ensures
            links(*final(self)) == plugged(links(*old(self)), socket_a@, socket_b@),
            same_devices(*final(self), *old(self)),
    {
        self.disconnect(socket_a);
        self.disconnect(socket_b);
        let ghost g1 = *self;
        let forward = SocketLink { socket: String::from_str(socket_a), mated: String::from_str(socket_b) };
        self.connections.insert(forward);
        let ghost g2 = *self;
        proof {
            lemma_links_insert(g1, g2, forward);
        }
        let backward = SocketLink { socket: String::from_str(socket_b), mated: String::from_str(socket_a) };
        self.connections.insert(backward);
        proof {
            lemma_links_insert(g2, *self, backward);
        }
    }

    /// Whether `socket_a` is plugged into `socket_b`.
    pub fn is_connected(&self, socket_a: &str, socket_b: &str) -> (r: bool)
        ensures
            r == (links(*self).contains_key(socket_a@) && links(*self)[socket_a@] == socket_b@),
    {
        match self.connections.get(socket_a) {
            Some(link) => {
                let b = String::from_str(socket_b);
                link.mated.eq(&b)
            },
            None => false,
        }
    }
}

/// After plugging `a` into `b`, each is reported as connected to the other.
pub proof fn lemma_connect_mates(m: Map<Seq<char>, Seq<char>>, a: Seq<char>, b: Seq<char>)
    ensures
        plugged(m, a, b).contains_key(a) && plugged(m, a, b)[a] == b,
        plugged(m, a, b).contains_key(b) && plugged(m, a, b)[b] == a,
{
}

/// After unplugging a socket it is connected to nothing, and in a symmetric
/// plug map the socket it was mated with is connected to nothing either.
pub proof fn lemma_disconnect_frees(m: Map<Seq<char>, Seq<char>>, s: Seq<char>)
    ensures
        !unplugged(m, s).contains_key(s),
        symmetric(m) && m.contains_key(s) ==> !unplugged(m, s).contains_key(m[s]),
{
}

/// Unplugging keeps every connection recorded in both directions.
pub proof fn lemma_disconnect_symmetric(m: Map<Seq<char>, Seq<char>>, s: Seq<char>)
    requires
        symmetric(m),
    ensures
        symmetric(unplugged(m, s)),
{
    if m.contains_key(s) {
        let t = m[s];
        let u = unplugged(m, s);
        assert forall|k: Seq<char>| #[trigger] u.contains_key(k) implies u.contains_key(u[k]) && u[u[k]]
            == k by {
            assert(m.contains_key(k) && k != s && k != t);
            let v = m[k];
            assert(m.contains_key(v) && m[v] == k);
            if v == s {
                assert(m[s] == k);
            }
            if v == t {
                assert(m[t] == s);
            }
        }
    }
}

/// Plugging keeps every connection recorded in both directions.
pub proof fn lemma_connect_symmetric(m: Map<Seq<char>, Seq<char>>, a: Seq<char>, b: Seq<char>)
    requires
        symmetric(m),
    ensures
        symmetric(plugged(m, a, b)),
{
    lemma_disconnect_symmetric(m, a);
    lemma_disconnect_symmetric(unplugged(m, a), b);
    let m2 = unplugged(unplugged(m, a), b);
    lemma_disconnect_frees(m, a);
    lemma_disconnect_frees(unplugged(m, a), b);
    assert(!m2.contains_key(a)) by {
        if m2.contains_key(a) {
            assert(unplugged(m, a).contains_key(a));
        }
    }
    let p = plugged(m, a, b);
    assert forall|k: Seq<char>| #[trigger] p.contains_key(k) implies p.contains_key(p[k]) && p[p[k]] == k by {
        if k != a && k != b {
            assert(m2.contains_key(k));
            let v = m2[k];
            assert(m2.contains_key(v) && m2[v] == k);
            assert(v != a);
            assert(v != b);
        }
    }
}

/// Unplugging a socket leaves every connection that does not involve it.
pub proof fn lemma_unplug_keeps(m: Map<Seq<char>, Seq<char>>, s: Seq<char>, k: Seq<char>)
    requires
        symmetric(m),
        m.contains_key(k),
        k != s,
        m[k] != s,
    ensures
        symmetric(unplugged(m, s)),
        unplugged(m, s).contains_key(k),
        unplugged(m, s)[k] == m[k],
{
    lemma_disconnect_symmetric(m, s);
    if m.contains_key(s) && m[s] == k {
        assert(m[m[k]] == k);
    }
}

/// Plugging `a` into `b` leaves every connection that involves neither.
pub proof fn lemma_plug_keeps(m: Map<Seq<char>, Seq<char>>, a: Seq<char>, b: Seq<char>, k: Seq<char>)
    requires
        symmetric(m),
        m.contains_key(k),
        k != a,
        k != b,
        m[k] != a,
        m[k] != b,
    ensures
        symmetric(plugged(m, a, b)),
        plugged(m, a, b).contains_key(k),
        plugged(m, a, b)[k] == m[k],
{
    lemma_connect_symmetric(m, a, b);
    lemma_unplug_keeps(m, a, k);
    lemma_unplug_keeps(unplugged(m, a), b, k);
}

/// One change of a plug map: with `.0` set, plug `.1` into `.2`; otherwise
/// unplug `.1`.
pub open spec fn plug_step(m: Map<Seq<char>, Seq<char>>, op: (bool, Seq<char>, Seq<char>)) -> Map<
    Seq<char>,
    Seq<char>,
> {
    if op.0 {
        plugged(m, op.1, op.2)
    } else {
        unplugged(m, op.1)
    }
}

/// The plug map after the changes, in order.
pub open spec fn plug_steps(m: Map<Seq<char>, Seq<char>>, ops: Seq<(bool, Seq<char>, Seq<char>)>) -> Map<
    Seq<char>,
    Seq<char>,
>
    decreases ops.len(),
{
    if ops.len() == 0 {
        m
    } else {
        plug_step(plug_steps(m, ops.drop_last()), ops.last())
    }
}

/// The sockets one change handles.
pub open spec fn step_sockets(op: (bool, Seq<char>, Seq<char>)) -> Set<Seq<char>> {
    if op.0 {
        set![op.1, op.2]
    } else {
        set![op.1]
    }
}

/// The sockets the changes handle.
pub open spec fn touched(ops: Seq<(bool, Seq<char>, Seq<char>)>) -> Set<Seq<char>>
    decreases ops.len(),
{
    if ops.len() == 0 {
        Set::empty()
    } else {
        touched(ops.drop_last()).union(step_sockets(ops.last()))
    }
}

/// The connections of `m` between sockets outside `t`.
pub open spec fn untouched(m: Map<Seq<char>, Seq<char>>, t: Set<Seq<char>>) -> Map<Seq<char>, Seq<char>> {
    Map::new(|k: Seq<char>| m.contains_key(k) && !t.contains(k) && !t.contains(m[k]), |k: Seq<char>| m[k])
}

proof fn lemma_step_split(m: Map<Seq<char>, Seq<char>>, op: (bool, Seq<char>, Seq<char>))
    requires
        symmetric(m),
    ensures
        plug_step(m, op) == untouched(m, step_sockets(op)).union_prefer_right(plug_step(Map::empty(), op)),
{
    let e = Map::<Seq<char>, Seq<char>>::empty();
    let u = untouched(m, step_sockets(op));
    if op.0 {
        let (a, b) = (op.1, op.2);
        let m1 = unplugged(m, a);
        assert(unplugged(e, a) =~= e);
        assert(unplugged(unplugged(e, a), b) =~= e);
        assert forall|k: Seq<char>| #![auto] unplugged(m1, b).contains_key(k) == u.contains_key(k) by {
            if m.contains_key(k) && m.contains_key(m[k]) {
                assert(m[m[k]] == k);
            }
            if m.contains_key(a) {
                assert(m[m[a]] == a);
            }
            if m1.contains_key(b) {
                assert(m1[b] == m[b]);
                assert(m[m[b]] == b);
            }
            if m.contains_key(b) {
                assert(m[m[b]] == b);
            }
        }
        assert(unplugged(m1, b) =~= u);
        assert(plug_step(m, op) =~= u.union_prefer_right(plug_step(e, op)));
    } else {
        let a = op.1;
        assert(unplugged(e, a) =~= e);
        assert forall|k: Seq<char>| #![auto] unplugged(m, a).contains_key(k) == u.contains_key(k) by {
            if m.contains_key(a) {
                assert(m[m[a]] == a);
            }
            if m.contains_key(k) {
                assert(m[m[k]] == k);
            }
        }
        assert(plug_step(m, op) =~= u.union_prefer_right(plug_step(e, op)));
    }
}

/// Plug changes keep every connection recorded in both directions.
pub proof fn lemma_steps_symmetric(m: Map<Seq<char>, Seq<char>>, ops: Seq<(bool, Seq<char>, Seq<char>)>)
    requires
        symmetric(m),
    ensures
        symmetric(plug_steps(m, ops)),
    decreases ops.len(),
{
    if ops.len() > 0 {
        lemma_steps_symmetric(m, ops.drop_last());
        let x = plug_steps(m, ops.drop_last());
        if ops.last().0 {
            lemma_connect_symmetric(x, ops.last().1, ops.last().2);
        } else {
            lemma_disconnect_symmetric(x, ops.last().1);
        }
    }
}

proof fn lemma_steps_from_empty(ops: Seq<(bool, Seq<char>, Seq<char>)>)
    ensures
        forall|k: Seq<char>| #[trigger] plug_steps(Map::empty(), ops).contains_key(k) ==> touched(ops).contains(k)
            && touched(ops).contains(plug_steps(Map::empty(), ops)[k]),
    decreases ops.len(),
{
    if ops.len() > 0 {
        let rest = ops.drop_last();
        lemma_steps_from_empty(rest);
        let x = plug_steps(Map::empty(), rest);
        let r = plug_steps(Map::empty(), ops);
        let o = ops.last();
        assert(r == plug_step(x, o));
        assert forall|k: Seq<char>| #[trigger] r.contains_key(k) implies touched(ops).contains(k)
            && touched(ops).contains(r[k]) by {
            if o.0 {
                let m1 = unplugged(x, o.1);
                let m2 = unplugged(m1, o.2);
                if k != o.1 && k != o.2 {
                    assert(m2.contains_key(k) && m1.contains_key(k) && x.contains_key(k));
                    assert(r[k] == x[k]);
                }
            } else {
                assert(x.contains_key(k) && r[k] == x[k]);
            }
        }
    }
}

proof fn lemma_steps_split(m: Map<Seq<char>, Seq<char>>, ops: Seq<(bool, Seq<char>, Seq<char>)>)
    requires
        symmetric(m),
    ensures
        plug_steps(m, ops) == untouched(m, touched(ops)).union_prefer_right(plug_steps(Map::empty(), ops)),
    decreases ops.len(),
{
    let e = Map::<Seq<char>, Seq<char>>::empty();
    if ops.len() == 0 {
        assert(plug_steps(m, ops) =~= untouched(m, touched(ops)).union_prefer_right(plug_steps(e, ops)));
    } else {
        let rest = ops.drop_last();
        let o = ops.last();
        let t = touched(rest);
        let so = step_sockets(o);
        lemma_steps_split(m, rest);
        lemma_steps_symmetric(m, rest);
        lemma_steps_symmetric(e, rest);
        lemma_steps_from_empty(rest);
        let x = plug_steps(m, rest);
        let er = plug_steps(e, rest);
        lemma_step_split(x, o);
        lemma_step_split(er, o);
        let a = untouched(m, t);
        assert(untouched(x, so) =~= untouched(m, t.union(so)).union_prefer_right(untouched(er, so)));
        assert(plug_steps(m, ops) =~= untouched(m, touched(ops)).union_prefer_right(plug_steps(e, ops)));
    }
}

/// Making the same plug changes twice leaves what making them once leaves.
pub proof fn lemma_steps_idempotent(m: Map<Seq<char>, Seq<char>>, ops: Seq<(bool, Seq<char>, Seq<char>)>)
    requires
        symmetric(m),
    ensures
        plug_steps(plug_steps(m, ops), ops) == plug_steps(m, ops),
{
    let e = Map::<Seq<char>, Seq<char>>::empty();
    let w = plug_steps(m, ops);
    let t = touched(ops);
    lemma_steps_split(m, ops);
    lemma_steps_symmetric(m, ops);
    lemma_steps_split(w, ops);
    lemma_steps_from_empty(ops);
    assert(untouched(w, t) =~= untouched(m, t));
}

} // verus!
