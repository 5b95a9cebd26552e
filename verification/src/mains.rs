use vstd::prelude::*;
use vstd::string::*;
use crate::cables::{conducts_power, CableEnd, CableEntity};
use crate::devices::power::{PowerStrip, WallOutlet};
use crate::graph::{links, CircuitGraph};
use crate::registry::keys_unique;
use crate::sockets::SocketPort;

verus! {

/// The identifiers of a list of strings.
pub open spec fn ids(v: Seq<String>) -> Seq<Seq<char>> {
    v.map_values(|s: String| s@)
}

/// Socket `k` belongs to a wall outlet; wall outlets are always live.
pub open spec fn outlet_socket(g: CircuitGraph, k: Seq<char>) -> bool {
    exists|i: int, j: int|
        0 <= i < g.outlets.entries().len() && 0 <= j < g.outlets.entries()[i].sockets@.len()
            && #[trigger] g.outlets.entries()[i].sockets@[j].id@ == k
}

/// The strip is switched on and its cord plug is mated with a socket in `s`.
pub open spec fn strip_fed(g: CircuitGraph, s: Set<Seq<char>>, st: PowerStrip) -> bool {
    st.switch_on && links(g).contains_key(st.plug_id@) && s.contains(links(g)[st.plug_id@])
}

/// The cable conducts mains power and one of its side A plugs is mated with a socket in `s`.
pub open spec fn cable_fed(g: CircuitGraph, s: Set<Seq<char>>, c: CableEntity) -> bool {
    conducts_power(c.cable_type) && exists|a: int|
        0 <= a < c.ends_a@.len() && links(g).contains_key(#[trigger] c.ends_a@[a].id@) && s.contains(
            links(g)[c.ends_a@[a].id@],
        )
}

/// A fed strip energizes all its outlets.
pub open spec fn strip_respected(g: CircuitGraph, s: Set<Seq<char>>, st: PowerStrip) -> bool {
    strip_fed(g, s, st) ==> forall|j: int|
        0 <= j < st.sockets@.len() ==> s.contains(#[trigger] st.sockets@[j].id@)
}

/// A fed power cable energizes all its side B plugs.
pub open spec fn cable_respected(g: CircuitGraph, s: Set<Seq<char>>, c: CableEntity) -> bool {
    cable_fed(g, s, c) ==> forall|j: int|
        0 <= j < c.ends_b@.len() ==> s.contains(#[trigger] c.ends_b@[j].id@)
}

/// A set of sockets closed under the power rules: it holds every wall outlet
/// socket, and every strip and power cable fed from it passes power on.
pub open spec fn power_closed(g: CircuitGraph, s: Set<Seq<char>>) -> bool {
    &&& forall|k: Seq<char>| outlet_socket(g, k) ==> #[trigger] s.contains(k)
    &&& forall|i: int|
        0 <= i < g.power_strips.entries().len() ==> strip_respected(
            g,
            s,
            #[trigger] g.power_strips.entries()[i],
        )
    &&& forall|i: int|
        0 <= i < g.cables.entries().len() ==> cable_respected(g, s, #[trigger] g.cables.entries()[i])
}

/// Socket `k` carries live mains power: it lies in every set closed under the
/// power rules, that is, power reaches it from a wall outlet through switched-on
/// strips and plugged power cables.
pub open spec fn is_powered(g: CircuitGraph, k: Seq<char>) -> bool {
    forall|s: Set<Seq<char>>| #[trigger] power_closed(g, s) ==> s.contains(k)
}

pub open spec fn port_ids(ps: Seq<SocketPort>) -> Seq<Seq<char>> {
    ps.map_values(|p: SocketPort| p.id@)
}

pub open spec fn end_ids(es: Seq<CableEnd>) -> Seq<Seq<char>> {
    es.map_values(|e: CableEnd| e.id@)
}

/// All wall outlet socket ids.
pub open spec fn outlet_ids(os: Seq<WallOutlet>) -> Seq<Seq<char>>
    decreases os.len(),
{
    if os.len() == 0 {
        Seq::empty()
    } else {
        outlet_ids(os.drop_last()) + port_ids(os.last().sockets@)
    }
}

/// All strip outlet ids.
pub open spec fn strip_ids(ss: Seq<PowerStrip>) -> Seq<Seq<char>>
    decreases ss.len(),
{
    if ss.len() == 0 {
        Seq::empty()
    } else {
        strip_ids(ss.drop_last()) + port_ids(ss.last().sockets@)
    }
}

/// All side B plug ids of all cables.
pub open spec fn cable_ids(cs: Seq<CableEntity>) -> Seq<Seq<char>>
    decreases cs.len(),
{
    if cs.len() == 0 {
        Seq::empty()
    } else {
        cable_ids(cs.drop_last()) + end_ids(cs.last().ends_b@)
    }
}

/// Every socket that power could ever reach.
pub open spec fn power_universe(g: CircuitGraph) -> Set<Seq<char>> {
    (outlet_ids(g.outlets.entries()) + strip_ids(g.power_strips.entries()) + cable_ids(
        g.cables.entries(),
    )).to_set()
}

proof fn lemma_outlet_ids_contain(os: Seq<WallOutlet>, i: int, j: int)
    requires
        0 <= i < os.len(),
        0 <= j < os[i].sockets@.len(),
    ensures
        outlet_ids(os).contains(os[i].sockets@[j].id@),
    decreases os.len(),
{
    let prefix = outlet_ids(os.drop_last());
    let last = port_ids(os.last().sockets@);
    if i == os.len() - 1 {
        assert(outlet_ids(os)[prefix.len() + j] == last[j]);
    } else {
        lemma_outlet_ids_contain(os.drop_last(), i, j);
        assert(os.drop_last()[i] == os[i]);
        let w = choose|w: int| 0 <= w < prefix.len() && prefix[w] == os[i].sockets@[j].id@;
        assert(outlet_ids(os)[w] == prefix[w]);
    }
}

proof fn lemma_strip_ids_contain(ss: Seq<PowerStrip>, i: int, j: int)
    requires
        0 <= i < ss.len(),
        0 <= j < ss[i].sockets@.len(),
    ensures
        strip_ids(ss).contains(ss[i].sockets@[j].id@),
    decreases ss.len(),
{
    let prefix = strip_ids(ss.drop_last());
    let last = port_ids(ss.last().sockets@);
    if i == ss.len() - 1 {
        assert(strip_ids(ss)[prefix.len() + j] == last[j]);
    } else {
        lemma_strip_ids_contain(ss.drop_last(), i, j);
        assert(ss.drop_last()[i] == ss[i]);
        let w = choose|w: int| 0 <= w < prefix.len() && prefix[w] == ss[i].sockets@[j].id@;
        assert(strip_ids(ss)[w] == prefix[w]);
    }
}

proof fn lemma_cable_ids_contain(cs: Seq<CableEntity>, i: int, j: int)
    requires
        0 <= i < cs.len(),
        0 <= j < cs[i].ends_b@.len(),
    ensures
        cable_ids(cs).contains(cs[i].ends_b@[j].id@),
    decreases cs.len(),
{
    let prefix = cable_ids(cs.drop_last());
    let last = end_ids(cs.last().ends_b@);
    if i == cs.len() - 1 {
        assert(cable_ids(cs)[prefix.len() + j] == last[j]);
    } else {
        lemma_cable_ids_contain(cs.drop_last(), i, j);
        assert(cs.drop_last()[i] == cs[i]);
        let w = choose|w: int| 0 <= w < prefix.len() && prefix[w] == cs[i].ends_b@[j].id@;
        assert(cable_ids(cs)[w] == prefix[w]);
    }
}

proof fn lemma_universe_outlet(g: CircuitGraph, i: int, j: int)
    requires
        0 <= i < g.outlets.entries().len(),
        0 <= j < g.outlets.entries()[i].sockets@.len(),
    ensures
        power_universe(g).contains(g.outlets.entries()[i].sockets@[j].id@),
{
    let a = outlet_ids(g.outlets.entries());
    let b = strip_ids(g.power_strips.entries());
    let c = cable_ids(g.cables.entries());
    let k = g.outlets.entries()[i].sockets@[j].id@;
    lemma_outlet_ids_contain(g.outlets.entries(), i, j);
    let w = choose|w: int| 0 <= w < a.len() && a[w] == k;
    assert((a + b + c)[w] == k);
}

proof fn lemma_universe_strip(g: CircuitGraph, i: int, j: int)
    requires
        0 <= i < g.power_strips.entries().len(),
        0 <= j < g.power_strips.entries()[i].sockets@.len(),
    ensures
        power_universe(g).contains(g.power_strips.entries()[i].sockets@[j].id@),
{
    let a = outlet_ids(g.outlets.entries());
    let b = strip_ids(g.power_strips.entries());
    let c = cable_ids(g.cables.entries());
    let k = g.power_strips.entries()[i].sockets@[j].id@;
    lemma_strip_ids_contain(g.power_strips.entries(), i, j);
    let w = choose|w: int| 0 <= w < b.len() && b[w] == k;
    assert((a + b + c)[a.len() + w] == k);
}

proof fn lemma_universe_cable(g: CircuitGraph, i: int, j: int)
    requires
        0 <= i < g.cables.entries().len(),
        0 <= j < g.cables.entries()[i].ends_b@.len(),
    ensures
        power_universe(g).contains(g.cables.entries()[i].ends_b@[j].id@),
{
    let a = outlet_ids(g.outlets.entries());
    let b = strip_ids(g.power_strips.entries());
    let c = cable_ids(g.cables.entries());
    let k = g.cables.entries()[i].ends_b@[j].id@;
    lemma_cable_ids_contain(g.cables.entries(), i, j);
    let w = choose|w: int| 0 <= w < c.len() && c[w] == k;
    assert((a + b + c)[a.len() + b.len() + w] == k);
}

/// Every socket of a wall outlet is powered.
pub proof fn lemma_outlet_powered(g: CircuitGraph, k: Seq<char>)
    requires
        outlet_socket(g, k),
    ensures
        is_powered(g, k),
{
}

/// The outlets of a switched-on strip whose plug is mated with a powered
/// socket are powered.
pub proof fn lemma_strip_powers(g: CircuitGraph, i: int, j: int)
    requires
        0 <= i < g.power_strips.entries().len(),
        0 <= j < g.power_strips.entries()[i].sockets@.len(),
        g.power_strips.entries()[i].switch_on,
        links(g).contains_key(g.power_strips.entries()[i].plug_id@),
        is_powered(g, links(g)[g.power_strips.entries()[i].plug_id@]),
    ensures
        is_powered(g, g.power_strips.entries()[i].sockets@[j].id@),
{
    let st = g.power_strips.entries()[i];
    assert forall|s: Set<Seq<char>>| #[trigger] power_closed(g, s) implies s.contains(
        st.sockets@[j].id@,
    ) by {
        assert(strip_respected(g, s, st));
    }
}

/// The side B plugs of a power cable with a side A plug mated with a powered
/// socket are powered.
pub proof fn lemma_cable_powers(g: CircuitGraph, i: int, a: int, j: int)
    requires
        0 <= i < g.cables.entries().len(),
        0 <= a < g.cables.entries()[i].ends_a@.len(),
        0 <= j < g.cables.entries()[i].ends_b@.len(),
        conducts_power(g.cables.entries()[i].cable_type),
        links(g).contains_key(g.cables.entries()[i].ends_a@[a].id@),
        is_powered(g, links(g)[g.cables.entries()[i].ends_a@[a].id@]),
    ensures
        is_powered(g, g.cables.entries()[i].ends_b@[j].id@),
{
    let c = g.cables.entries()[i];
    assert forall|s: Set<Seq<char>>| #[trigger] power_closed(g, s) implies s.contains(
        c.ends_b@[j].id@,
    ) by {
        assert(s.contains(links(g)[c.ends_a@[a].id@]));
        assert(cable_fed(g, s, c));
        assert(cable_respected(g, s, c));
    }
}

/// Whether the list holds a string with the given contents.
pub fn list_contains(v: &Vec<String>, s: &String) -> (r: bool)
    ensures
        r == ids(v@).contains(s@),
{
    let mut i: usize = 0;
    while i < v.len()
        invariant
            i <= v@.len(),
            forall|j: int| 0 <= j < i ==> v@[j]@ != s@,
        decreases v@.len() - i,
    {
        if v[i].eq(s) {
            proof {
                assert(ids(v@)[i as int] == s@);
            }
            return true;
        }
        i = i + 1;
    }
    proof {
        if ids(v@).contains(s@) {
            let w = choose|w: int| 0 <= w < ids(v@).len() && ids(v@)[w] == s@;
            assert(v@[w]@ == s@);
        }
    }
    false
}

/// Appends a string unless an equal one is already listed; tells whether it was appended.
pub fn insert_unique(v: &mut Vec<String>, s: String) -> (added: bool)
    ensures
        added == !ids(old(v)@).contains(s@),
        added ==> final(v)@ == old(v)@.push(s),
        !added ==> final(v)@ == old(v)@,
{
    if list_contains(v, &s) {
        false
    } else {
        v.push(s);
        true
    }
}

/// The live list is duplicate free, holds only powered sockets of the universe,
/// and holds every wall outlet socket.
pub open spec fn live_list(g: CircuitGraph, v: Seq<String>) -> bool {
    &&& ids(v).no_duplicates()
    &&& forall|k: Seq<char>| #[trigger]
        ids(v).contains(k) ==> is_powered(g, k) && power_universe(g).contains(k)
}

pub open spec fn grew(before: Seq<String>, after: Seq<String>) -> bool {
    &&& after.len() >= before.len()
    &&& forall|k: Seq<char>| #[trigger] ids(before).contains(k) ==> ids(after).contains(k)
}

proof fn lemma_ids_push(v: Seq<String>, s: String)
    ensures
        ids(v.push(s)) == ids(v).push(s@),
{
    assert(ids(v.push(s)) =~= ids(v).push(s@));
}

proof fn lemma_push_live(g: CircuitGraph, v: Seq<String>, s: String)
    requires
        live_list(g, v),
        !ids(v).contains(s@),
        is_powered(g, s@),
        power_universe(g).contains(s@),
    ensures
        live_list(g, v.push(s)),
        grew(v, v.push(s)),
{
    lemma_ids_push(v, s);
    let w = ids(v).push(s@);
    assert forall|a: int, b: int| 0 <= a < w.len() && 0 <= b < w.len() && a != b implies w[a] != w[b] by {
        if a < ids(v).len() && b < ids(v).len() {
        } else if a < ids(v).len() {
            assert(ids(v).contains(w[a]));
        } else {
            assert(ids(v).contains(w[b]));
        }
    }
    assert forall|k: Seq<char>| #[trigger] w.contains(k) implies is_powered(g, k) && power_universe(g).contains(k) by {
        let x = choose|x: int| 0 <= x < w.len() && w[x] == k;
        if x < ids(v).len() {
            assert(ids(v).contains(k));
        }
    }
    assert forall|k: Seq<char>| #[trigger] ids(v).contains(k) implies w.contains(k) by {
        let x = choose|x: int| 0 <= x < ids(v).len() && ids(v)[x] == k;
        assert(w[x] == k);
    }
}

proof fn lemma_live_len(g: CircuitGraph, v: Seq<String>)
    requires
        live_list(g, v),
    ensures
        v.len() <= power_universe(g).len(),
{
    let w = ids(v);
    w.unique_seq_to_set();
    assert(w.to_set().subset_of(power_universe(g)));
    vstd::seq_lib::seq_to_set_is_finite(
        outlet_ids(g.outlets.entries()) + strip_ids(g.power_strips.entries()) + cable_ids(
            g.cables.entries(),
        ),
    );
    vstd::set_lib::lemma_len_subset(w.to_set(), power_universe(g));
}

impl CircuitGraph {
    /// Adds the outlets of one strip to the live list if the strip is fed.
    fn feed_strip(&self, live: &mut Vec<String>, i: usize) -> (changed: bool)
        requires
            i < self.power_strips.entries().len(),
            live_list(*self, old(live)@),
        ensures
            live_list(*self, final(live)@),
            grew(old(live)@, final(live)@),
            changed ==> final(live)@.len() > old(live)@.len(),
            !changed ==> final(live)@ == old(live)@,
            !changed ==> strip_respected(*self, ids(final(live)@).to_set(), self.power_strips.entries()[i as int]),
    {
        let strips = self.power_strips.as_vec();
        let strip = &strips[i];
        let ghost live0 = live@;
        if !strip.switch_on {
            return false;
        }
        let mated = match self.connections.get(strip.plug_id.as_str()) {
            Some(link) => &link.mated,
            None => {
                proof {
                    assert(!links(*self).contains_key(strip.plug_id@));
                }
                return false;
            },
        };
        proof {
            assert(links(*self)[strip.plug_id@] == mated@);
        }
        if !list_contains(live, mated) {
            proof {
                assert(!ids(live@).to_set().contains(mated@));
            }
            return false;
        }
        proof {
            assert(is_powered(*self, mated@));
        }
        let mut changed = false;
        let mut j: usize = 0;
        while j < strip.sockets.len()
            invariant
                strips@ == self.power_strips.entries(),
                *strip == strips@[i as int],
                i < strips@.len(),
                j <= strip.sockets@.len(),
                strip.switch_on,
                links(*self).contains_key(strip.plug_id@),
                links(*self)[strip.plug_id@] == mated@,
                is_powered(*self, mated@),
                live_list(*self, live@),
                grew(live0, live@),
                changed ==> live@.len() > live0.len(),
                !changed ==> live@ == live0,
                forall|q: int| 0 <= q < j ==> ids(live@).contains(#[trigger] strip.sockets@[q].id@),
            decreases strip.sockets@.len() - j,
        {
            let ghost before = live@;
            proof {
                lemma_strip_powers(*self, i as int, j as int);
                lemma_universe_strip(*self, i as int, j as int);
            }
            let added = insert_unique(live, strip.sockets[j].id.clone());
            proof {
                if added {
                    lemma_push_live(*self, before, strip.sockets@[j as int].id);
                    lemma_ids_push(before, strip.sockets@[j as int].id);
                    assert(ids(live@)[before.len() as int] == strip.sockets@[j as int].id@);
                }
                assert forall|k: Seq<char>| #[trigger] ids(live0).contains(k) implies ids(live@).contains(k) by {
                    if added {
                        assert(ids(before).contains(k));
                    }
                }
                assert forall|q: int| 0 <= q < j + 1 implies ids(live@).contains(#[trigger] strip.sockets@[q].id@) by {
                    if q < j && added {
                        assert(ids(before).contains(strip.sockets@[q].id@));
                    }
                }
            }
            if added {
                changed = true;
            }
            j = j + 1;
        }
        proof {
            if !changed {
                let s = ids(live@).to_set();
                assert forall|q: int| 0 <= q < strip.sockets@.len() implies s.contains(#[trigger] strip.sockets@[q].id@) by {
                    assert(ids(live@).contains(strip.sockets@[q].id@));
                }
            }
        }
        changed
    }

    /// Adds the side B plugs of one cable to the live list if it is a power
    /// cable fed through one of its side A plugs.
    fn feed_cable(&self, live: &mut Vec<String>, i: usize) -> (changed: bool)
        requires
            i < self.cables.entries().len(),
            live_list(*self, old(live)@),
        ensures
            live_list(*self, final(live)@),
            grew(old(live)@, final(live)@),
            changed ==> final(live)@.len() > old(live)@.len(),
            !changed ==> final(live)@ == old(live)@,
            !changed ==> cable_respected(*self, ids(final(live)@).to_set(), self.cables.entries()[i as int]),
    {
        let cables = self.cables.as_vec();
        let cable = &cables[i];
        let ghost live0 = live@;
        if !cable.cable_type.carries_power() {
            return false;
        }
        let mut changed = false;
        let ghost mut fired = false;
        let mut a: usize = 0;
        while a < cable.ends_a.len()
            invariant
                cables@ == self.cables.entries(),
                *cable == cables@[i as int],
                i < cables@.len(),
                a <= cable.ends_a@.len(),
                conducts_power(cable.cable_type),
                live_list(*self, live@),
                grew(live0, live@),
                changed ==> live@.len() > live0.len(),
                !changed ==> live@ == live0,
                !fired ==> live@ == live0,
                !fired ==> forall|x: int|
                    0 <= x < a ==> !(links(*self).contains_key(#[trigger] cable.ends_a@[x].id@)
                        && ids(live@).contains(links(*self)[cable.ends_a@[x].id@])),
                fired ==> forall|q: int|
                    0 <= q < cable.ends_b@.len() ==> ids(live@).contains(#[trigger] cable.ends_b@[q].id@),
            decreases cable.ends_a@.len() - a,
        {
            match self.connections.get(cable.ends_a[a].id.as_str()) {
                Some(link) => {
                    let mated = &link.mated;
                    proof {
                        assert(links(*self)[cable.ends_a@[a as int].id@] == mated@);
                    }
                    if list_contains(live, mated) {
                        proof {
                            assert(is_powered(*self, mated@));
                        }
                        let ghost live1 = live@;
                        let mut j: usize = 0;
                        while j < cable.ends_b.len()
                            invariant
                                cables@ == self.cables.entries(),
                                *cable == cables@[i as int],
                                i < cables@.len(),
                                a < cable.ends_a@.len(),
                                j <= cable.ends_b@.len(),
                                conducts_power(cable.cable_type),
                                links(*self).contains_key(cable.ends_a@[a as int].id@),
                                links(*self)[cable.ends_a@[a as int].id@] == mated@,
                                is_powered(*self, mated@),
                                live_list(*self, live@),
                                grew(live0, live@),
                                grew(live1, live@),
                                changed ==> live@.len() > live0.len(),
                                !changed ==> live@ == live0,
                                live1.len() >= live0.len(),
                                live@.len() > live1.len() ==> live@.len() > live0.len(),
                                fired ==> forall|q: int|
                                    0 <= q < cable.ends_b@.len() ==> ids(live@).contains(#[trigger] cable.ends_b@[q].id@),
                                forall|q: int| 0 <= q < j ==> ids(live@).contains(#[trigger] cable.ends_b@[q].id@),
                            decreases cable.ends_b@.len() - j,
                        {
                            let ghost before = live@;
                            proof {
                                lemma_cable_powers(*self, i as int, a as int, j as int);
                                lemma_universe_cable(*self, i as int, j as int);
                            }
                            let added = insert_unique(live, cable.ends_b[j].id.clone());
                            proof {
                                if added {
                                    lemma_push_live(*self, before, cable.ends_b@[j as int].id);
                                    lemma_ids_push(before, cable.ends_b@[j as int].id);
                                    assert(ids(live@)[before.len() as int] == cable.ends_b@[j as int].id@);
                                }
                                assert forall|k: Seq<char>| #[trigger] ids(live0).contains(k) implies ids(live@).contains(k) by {
                                    if added {
                                        assert(ids(before).contains(k));
                                    }
                                }
                                assert forall|k: Seq<char>| #[trigger] ids(live1).contains(k) implies ids(live@).contains(k) by {
                                    if added {
                                        assert(ids(before).contains(k));
                                    }
                                }
                                assert forall|q: int| 0 <= q < cable.ends_b@.len() && (fired || q < j + 1) implies ids(live@).contains(#[trigger] cable.ends_b@[q].id@) by {
                                    if added && (fired || q < j) {
                                        assert(ids(before).contains(cable.ends_b@[q].id@));
                                    }
                                }
                            }
                            if added {
                                changed = true;
                            }
                            j = j + 1;
                        }
                        proof {
                            fired = true;
                        }
                    }
                },
                None => {
                    proof {
                        assert(!links(*self).contains_key(cable.ends_a@[a as int].id@));
                    }
                },
            }
            a = a + 1;
        }
        proof {
            if !changed {
                let s = ids(live@).to_set();
                if fired {
                    assert forall|q: int| 0 <= q < cable.ends_b@.len() implies s.contains(#[trigger] cable.ends_b@[q].id@) by {
                        assert(ids(live@).contains(cable.ends_b@[q].id@));
                    }
                } else {
                    assert forall|x: int| 0 <= x < cable.ends_a@.len() && links(*self).contains_key(#[trigger] cable.ends_a@[x].id@) implies !s.contains(links(*self)[cable.ends_a@[x].id@]) by {
                        assert(!ids(live@).contains(links(*self)[cable.ends_a@[x].id@]));
                    }
                    assert(!cable_fed(*self, s, *cable));
                }
            }
        }
        changed
    }

    /// The sockets that currently receive live AC mains power, without
    /// duplicates: exactly the powered sockets.
    pub fn evaluate_powered_sockets(&self) -> (live: Vec<String>)
        ensures
            ids(live@).no_duplicates(),
            forall|k: Seq<char>| #[trigger] ids(live@).contains(k) == is_powered(*self, k),
    {
        let mut live: Vec<String> = Vec::new();
        proof {
            assert(ids(live@) =~= Seq::<Seq<char>>::empty());
        }
        let outlets = self.outlets.as_vec();
        let mut i: usize = 0;
        while i < outlets.len()
            invariant
                outlets@ == self.outlets.entries(),
                i <= outlets@.len(),
                live_list(*self, live@),
                forall|x: int, y: int|
                    0 <= x < i && 0 <= y < outlets@[x].sockets@.len() ==> ids(live@).contains(
                        #[trigger] outlets@[x].sockets@[y].id@,
                    ),
            decreases outlets@.len() - i,
        {
            let outlet = &outlets[i];
            let mut j: usize = 0;
            while j < outlet.sockets.len()
                invariant
                    outlets@ == self.outlets.entries(),
                    i < outlets@.len(),
                    *outlet == outlets@[i as int],
                    j <= outlet.sockets@.len(),
                    live_list(*self, live@),
                    forall|x: int, y: int|
                        0 <= x < i && 0 <= y < outlets@[x].sockets@.len() ==> ids(live@).contains(
                            #[trigger] outlets@[x].sockets@[y].id@,
                        ),
                    forall|y: int| 0 <= y < j ==> ids(live@).contains(#[trigger] outlet.sockets@[y].id@),
                decreases outlet.sockets@.len() - j,
            {
                let ghost before = live@;
                proof {
                    let k = outlet.sockets@[j as int].id@;
                    assert(outlets@[i as int].sockets@[j as int].id@ == k);
                    assert(outlet_socket(*self, k));
                    lemma_outlet_powered(*self, k);
                    lemma_universe_outlet(*self, i as int, j as int);
                }
                let added = insert_unique(&mut live, outlet.sockets[j].id.clone());
                proof {
                    if added {
                        lemma_push_live(*self, before, outlet.sockets@[j as int].id);
                        lemma_ids_push(before, outlet.sockets@[j as int].id);
                        assert(ids(live@)[before.len() as int] == outlet.sockets@[j as int].id@);
                        assert forall|x: int, y: int|
                            0 <= x < i && 0 <= y < outlets@[x].sockets@.len() implies ids(live@).contains(
                                #[trigger] outlets@[x].sockets@[y].id@,
                            ) by {
                            assert(ids(before).contains(outlets@[x].sockets@[y].id@));
                        }
                        assert forall|y: int| 0 <= y < j implies ids(live@).contains(#[trigger] outlet.sockets@[y].id@) by {
                            assert(ids(before).contains(outlet.sockets@[y].id@));
                        }
                    }
                }
                j = j + 1;
            }
            i = i + 1;
        }
        proof {
            assert forall|k: Seq<char>| outlet_socket(*self, k) implies #[trigger] ids(live@).contains(k) by {
                let (x, y) = choose|x: int, y: int|
                    0 <= x < self.outlets.entries().len() && 0 <= y < self.outlets.entries()[x].sockets@.len()
                        && #[trigger] self.outlets.entries()[x].sockets@[y].id@ == k;
                assert(ids(live@).contains(outlets@[x].sockets@[y].id@));
            }
            lemma_live_len(*self, live@);
        }
        let strips = self.power_strips.as_vec();
        let cables = self.cables.as_vec();
        loop
            invariant
                strips@ == self.power_strips.entries(),
                cables@ == self.cables.entries(),
                live_list(*self, live@),
                forall|k: Seq<char>| outlet_socket(*self, k) ==> #[trigger] ids(live@).contains(k),
                live@.len() <= power_universe(*self).len(),
            ensures
                live_list(*self, live@),
                power_closed(*self, ids(live@).to_set()),
            decreases power_universe(*self).len() - live@.len(),
        {
            let ghost start = live@;
            let mut changed = false;
            let mut i: usize = 0;
            while i < strips.len()
                invariant
                    strips@ == self.power_strips.entries(),
                    i <= strips@.len(),
                    live_list(*self, live@),
                    grew(start, live@),
                    changed ==> live@.len() > start.len(),
                    !changed ==> live@ == start,
                    !changed ==> forall|x: int|
                        0 <= x < i ==> strip_respected(*self, ids(live@).to_set(), #[trigger] strips@[x]),
                decreases strips@.len() - i,
            {
                let ghost before = live@;
                let c = self.feed_strip(&mut live, i);
                proof {
                    assert forall|k: Seq<char>| #[trigger] ids(start).contains(k) implies ids(live@).contains(k) by {
                        assert(ids(before).contains(k));
                    }
                }
                if c {
                    changed = true;
                }
                i = i + 1;
            }
            let mut i: usize = 0;
            while i < cables.len()
                invariant
                    strips@ == self.power_strips.entries(),
                    cables@ == self.cables.entries(),
                    i <= cables@.len(),
                    live_list(*self, live@),
                    grew(start, live@),
                    changed ==> live@.len() > start.len(),
                    !changed ==> live@ == start,
                    !changed ==> forall|x: int|
                        0 <= x < strips@.len() ==> strip_respected(*self, ids(live@).to_set(), #[trigger] strips@[x]),
                    !changed ==> forall|x: int|
                        0 <= x < i ==> cable_respected(*self, ids(live@).to_set(), #[trigger] cables@[x]),
                decreases cables@.len() - i,
            {
                let ghost before = live@;
                let c = self.feed_cable(&mut live, i);
                proof {
                    assert forall|k: Seq<char>| #[trigger] ids(start).contains(k) implies ids(live@).contains(k) by {
                        assert(ids(before).contains(k));
                    }
                }
                if c {
                    changed = true;
                }
                i = i + 1;
            }
            proof {
                lemma_live_len(*self, live@);
                assert forall|k: Seq<char>| outlet_socket(*self, k) implies #[trigger] ids(live@).contains(k) by {
                    assert(ids(start).contains(k));
                }
            }
            if !changed {
                proof {
                    let s = ids(live@).to_set();
                    assert forall|k: Seq<char>| outlet_socket(*self, k) implies #[trigger] s.contains(k) by {
                        assert(ids(live@).contains(k));
                    }
                }
                break;
            }
        }
        proof {
            let s = ids(live@).to_set();
            assert forall|k: Seq<char>| #[trigger] ids(live@).contains(k) == is_powered(*self, k) by {
                if is_powered(*self, k) {
                    assert(power_closed(*self, s));
                    assert(s.contains(k));
                }
            }
        }
        live
    }
}

/// No other outlet, strip socket or powered cable end in the room shares an
/// id with a socket of strip `i`.
pub open spec fn strip_sockets_own_ids(g: CircuitGraph, i: int) -> bool {
    let st = g.power_strips.entries()[i];
    &&& forall|j: int, k: Seq<char>|
        0 <= j < st.sockets@.len() && #[trigger] outlet_socket(g, k) ==> #[trigger] st.sockets@[j].id@ != k
    &&& forall|j: int, i2: int, j2: int|
        0 <= j < st.sockets@.len() && 0 <= i2 < g.power_strips.entries().len() && i2 != i && 0 <= j2
            < g.power_strips.entries()[i2].sockets@.len() ==> #[trigger] st.sockets@[j].id@
            != #[trigger] g.power_strips.entries()[i2].sockets@[j2].id@
    &&& forall|j: int, c: int, e: int|
        0 <= j < st.sockets@.len() && 0 <= c < g.cables.entries().len() && 0 <= e
            < g.cables.entries()[c].ends_b@.len() ==> #[trigger] st.sockets@[j].id@
            != #[trigger] g.cables.entries()[c].ends_b@[e].id@
}

/// A strip whose rocker switch is off powers none of its sockets (when their
/// ids are its own).
pub proof fn lemma_switched_off_strip_is_dead(g: CircuitGraph, i: int, j: int)
    requires
        0 <= i < g.power_strips.entries().len(),
        0 <= j < g.power_strips.entries()[i].sockets@.len(),
        !g.power_strips.entries()[i].switch_on,
        strip_sockets_own_ids(g, i),
    ensures
        !is_powered(g, g.power_strips.entries()[i].sockets@[j].id@),
{
    let st = g.power_strips.entries()[i];
    let dead = Set::new(|k: Seq<char>| !(exists|jj: int| 0 <= jj < st.sockets@.len() && #[trigger] st.sockets@[jj].id@ == k));
    assert forall|k: Seq<char>| outlet_socket(g, k) implies #[trigger] dead.contains(k) by {
        if exists|jj: int| 0 <= jj < st.sockets@.len() && #[trigger] st.sockets@[jj].id@ == k {
            let jj = choose|jj: int| 0 <= jj < st.sockets@.len() && #[trigger] st.sockets@[jj].id@ == k;
            assert(st.sockets@[jj].id@ != k);
        }
    }
    assert forall|i2: int| 0 <= i2 < g.power_strips.entries().len() implies strip_respected(
        g,
        dead,
        #[trigger] g.power_strips.entries()[i2],
    ) by {
        if i2 != i {
            let st2 = g.power_strips.entries()[i2];
            assert forall|j2: int| 0 <= j2 < st2.sockets@.len() implies dead.contains(#[trigger] st2.sockets@[j2].id@) by {
                if exists|jj: int| 0 <= jj < st.sockets@.len() && #[trigger] st.sockets@[jj].id@ == st2.sockets@[j2].id@ {
                    let jj = choose|jj: int| 0 <= jj < st.sockets@.len() && #[trigger] st.sockets@[jj].id@
                        == st2.sockets@[j2].id@;
                    assert(st.sockets@[jj].id@ != g.power_strips.entries()[i2].sockets@[j2].id@);
                }
            }
        }
    }
    assert forall|c: int| 0 <= c < g.cables.entries().len() implies cable_respected(
        g,
        dead,
        #[trigger] g.cables.entries()[c],
    ) by {
        let cab = g.cables.entries()[c];
        assert forall|e: int| 0 <= e < cab.ends_b@.len() implies dead.contains(#[trigger] cab.ends_b@[e].id@) by {
            if exists|jj: int| 0 <= jj < st.sockets@.len() && #[trigger] st.sockets@[jj].id@ == cab.ends_b@[e].id@ {
                let jj = choose|jj: int| 0 <= jj < st.sockets@.len() && #[trigger] st.sockets@[jj].id@
                    == cab.ends_b@[e].id@;
                assert(st.sockets@[jj].id@ != g.cables.entries()[c].ends_b@[e].id@);
            }
        }
    }
    assert(power_closed(g, dead));
    assert(!dead.contains(st.sockets@[j].id@));
}

/// Turning one strip's rocker switch on, with everything else as it was,
/// never takes power away from a socket.
pub proof fn lemma_switch_on_keeps_power(g: CircuitGraph, g2: CircuitGraph, i: int, k: Seq<char>)
    requires
        0 <= i < g.power_strips.entries().len(),
        g2 == (CircuitGraph { power_strips: g2.power_strips, ..g }),
        g2.power_strips.entries() == g.power_strips.entries().update(
            i,
            PowerStrip { switch_on: true, ..g.power_strips.entries()[i] },
        ),
        is_powered(g, k),
    ensures
        is_powered(g2, k),
{
    assert(g2.outlets == g.outlets && g2.cables == g.cables && g2.connections == g.connections);
    assert(links(g2) == links(g));
    assert forall|s: Set<Seq<char>>| #[trigger] power_closed(g2, s) implies s.contains(k) by {
        assert forall|i2: int| 0 <= i2 < g.power_strips.entries().len() implies strip_respected(
            g,
            s,
            #[trigger] g.power_strips.entries()[i2],
        ) by {
            assert(strip_respected(g2, s, g2.power_strips.entries()[i2]));
        }
        assert forall|k2: Seq<char>| outlet_socket(g, k2) implies #[trigger] s.contains(k2) by {
            assert(outlet_socket(g2, k2));
        }
        assert forall|c: int| 0 <= c < g.cables.entries().len() implies cable_respected(
            g,
            s,
            #[trigger] g.cables.entries()[c],
        ) by {
            assert(cable_respected(g2, s, g2.cables.entries()[c]));
        }
        assert(power_closed(g, s));
    }
}

} // verus!
