//! Text-DAW routing: which mix bus each instrument renders into, and the
//! bus and amount of its send, updated from parameter settings.

use vstd::prelude::*;
use crate::note::{ParamValue, ParamValueV, copy_string};
use crate::text::{str_eq, to_owned_string};

verus! {

/// `f32::clamp(x, 0.0, 1.0)` on the bit pattern of `x`: NaN and negative
/// zero pass through, other negative numbers become 0.0, numbers above
/// 1.0 become 1.0. (Non-negative floats order like their bit patterns.)
pub open spec fn clamp_unit(bits: u32) -> u32 {
    if bits & 0x7FFF_FFFF > 0x7F80_0000 {
        bits
    } else if bits >= 0x8000_0000 {
        if bits == 0x8000_0000 { bits } else { 0 }
    } else if bits > 0x3F80_0000 {
        0x3F80_0000
    } else {
        bits
    }
}

/// The routing of one instrument: its bus, its send bus and send amount.
pub ghost struct RouteV {
    pub bus: Option<Seq<char>>,
    pub send: Option<(Seq<char>, u32)>,
}

/// The routing after a parameter setting on `instrument`: `bus` and
/// `send_bus` take a string, `send` an amount (clamped to 0..1); unsetting
/// clears them; `send_bus` keeps the amount (0 at first), `send` keeps the
/// bus (`"fx"` at first). Other keys change nothing.
pub open spec fn route_step(r: RouteV, key: Seq<char>, value: ParamValueV) -> RouteV {
    if key == "bus"@ {
        match value {
            ParamValueV::String(b) => RouteV { bus: Some(b), ..r },
            ParamValueV::Unset => RouteV { bus: None, ..r },
            _ => r,
        }
    } else if key == "send_bus"@ {
        match value {
            ParamValueV::String(b) => RouteV {
                send: Some((b, match r.send { Some((_, a)) => a, None => 0u32 })),
                ..r
            },
            ParamValueV::Unset => RouteV { send: None, ..r },
            _ => r,
        }
    } else if key == "send"@ {
        match value {
            ParamValueV::Number(a) => RouteV {
                send: Some((match r.send { Some((b, _)) => b, None => "fx"@ }, clamp_unit(a))),
                ..r
            },
            ParamValueV::Unset => RouteV { send: None, ..r },
            _ => r,
        }
    } else {
        r
    }
}

/// One instrument's routing entry.
pub struct Route {
    pub instrument: String,
    pub bus: Option<String>,
    pub send: Option<(String, u32)>,
}

impl Route {
    pub open spec fn view(&self) -> RouteV {
        RouteV {
            bus: match &self.bus { Some(b) => Some(b@), None => None },
            send: match &self.send { Some((b, a)) => Some((b@, *a)), None => None },
        }
    }
}

/// The routing of every instrument that has been routed.
pub struct BusState {
    routes: Vec<Route>,
}

/// The routing of an instrument never routed.
pub open spec fn unrouted() -> RouteV {
    RouteV { bus: None, send: None }
}

impl BusState {
    /// The routing of each instrument (unrouted ones have none).
    pub closed spec fn view(&self) -> Map<Seq<char>, RouteV> {
        Map::new(
            |k: Seq<char>| exists|i: int| 0 <= i < self.routes@.len() && self.routes@[i].instrument@ == k,
            |k: Seq<char>| self.routes@[choose|i: int| 0 <= i < self.routes@.len() && self.routes@[i].instrument@ == k].view(),
        )
    }

    /// No instrument has two entries.
    pub closed spec fn wf(&self) -> bool {
        forall|i: int, j: int| 0 <= i < j < self.routes@.len() ==> self.routes@[i].instrument@ != self.routes@[j].instrument@
    }

    /// The routing of `instrument` in the model.
    pub open spec fn route_of(&self, instrument: Seq<char>) -> RouteV {
        if self@.contains_key(instrument) { self@[instrument] } else { unrouted() }
    }

    /// No instrument routed yet.
    pub fn new() -> (r: BusState)
        ensures
            r.wf(),
            forall|k: Seq<char>| r.route_of(k) == unrouted(),
    {
        let r = BusState { routes: Vec::new() };
        assert forall|k: Seq<char>| !r@.contains_key(k) by {}
        r
    }

    fn find(&self, instrument: &str) -> (r: Option<usize>)
        requires
            self.wf(),
        ensures
            match r {
                Some(i) => i < self.routes@.len() && self.routes@[i as int].instrument@ == instrument@,
                None => forall|i: int| 0 <= i < self.routes@.len() ==> self.routes@[i].instrument@ != instrument@,
            },
    {
        let mut i: usize = 0;
        while i < self.routes.len()
            invariant
                i <= self.routes@.len(),
                forall|j: int| 0 <= j < i ==> self.routes@[j].instrument@ != instrument@,
            decreases self.routes@.len() - i,
        {
            if str_eq(self.routes[i].instrument.as_str(), instrument) {
                return Some(i);
            }
            i = i + 1;
        }
        None
    }

    proof fn lemma_route_at(&self, i: int)
        requires
            self.wf(),
            0 <= i < self.routes@.len(),
        ensures
            self.route_of(self.routes@[i].instrument@) == self.routes@[i].view(),
    {
        let k = self.routes@[i].instrument@;
        assert(self@.contains_key(k));
        let c = choose|j: int| 0 <= j < self.routes@.len() && self.routes@[j].instrument@ == k;
        assert(c == i);
    }

    /// The bus `instrument` renders into: `"main"` unless routed.
    pub fn bus_of(&self, instrument: &str) -> (r: &str)
        requires
            self.wf(),
        ensures
            r@ == match self.route_of(instrument@).bus { Some(b) => b, None => "main"@ },
    {
        match self.find(instrument) {
            Some(i) => {
                proof {
                    self.lemma_route_at(i as int);
                }
                match &self.routes[i].bus {
                    Some(b) => b.as_str(),
                    None => "main",
                }
            },
            None => {
                assert(!self@.contains_key(instrument@));
                "main"
            },
        }
    }

    /// The send of `instrument`: its bus and amount, if it has one.
    pub fn send_of(&self, instrument: &str) -> (r: Option<(&str, u32)>)
        requires
            self.wf(),
        ensures
            match (r, self.route_of(instrument@).send) {
                (Some((b, a)), Some((sb, sa))) => b@ == sb && a == sa,
                (None, None) => true,
                _ => false,
            },
    {
        match self.find(instrument) {
            Some(i) => {
                proof {
                    self.lemma_route_at(i as int);
                }
                match &self.routes[i].send {
                    Some((b, a)) => Some((b.as_str(), *a)),
                    None => None,
                }
            },
            None => {
                assert(!self@.contains_key(instrument@));
                None
            },
        }
    }

    /// Fold one parameter setting of `instrument` into the routing.
    pub fn route_param(&mut self, instrument: &str, key: &str, value: &ParamValue)
        requires
            old(self).wf(),
        ensures
            final(self).wf(),
            final(self).route_of(instrument@) == route_step(old(self).route_of(instrument@), key@, value.view()),
            forall|k: Seq<char>| k != instrument@ ==> final(self).route_of(k) == old(self).route_of(k),
    {
        let ghost before = self.route_of(instrument@);
        let idx = self.find(instrument);
        let (bus, send): (Option<String>, Option<(String, u32)>) = match idx {
            Some(i) => {
                proof {
                    self.lemma_route_at(i as int);
                }
                let r = &self.routes[i];
                (
                    match &r.bus { Some(b) => Some(copy_string(b)), None => None },
                    match &r.send { Some((b, a)) => Some((copy_string(b), *a)), None => None },
                )
            },
            None => {
                assert(!self@.contains_key(instrument@));
                (None, None)
            },
        };
        let mut route = Route { instrument: to_owned_string(instrument), bus, send };
        assert(route.view() == before);
        if str_eq(key, "bus") {
            match value {
                ParamValue::String(b) => route.bus = Some(copy_string(b)),
                ParamValue::Unset => route.bus = None,
                _ => {},
            }
        } else if str_eq(key, "send_bus") {
            match value {
                ParamValue::String(b) => {
                    let amount = match &route.send { Some((_, a)) => *a, None => 0 };
                    route.send = Some((copy_string(b), amount));
                },
                ParamValue::Unset => route.send = None,
                _ => {},
            }
        } else if str_eq(key, "send") {
            match value {
                ParamValue::Number(a) => {
                    let target = match &route.send { Some((b, _)) => copy_string(b), None => to_owned_string("fx") };
                    route.send = Some((target, clamp_unit_bits(*a)));
                },
                ParamValue::Unset => route.send = None,
                _ => {},
            }
        }
        assert(route.view() == route_step(before, key@, value.view()));
        let ghost old_routes = self.routes@;
        match idx {
            Some(i) => {
                self.routes.set(i, route);
            },
            None => {
                self.routes.push(route);
            },
        }
        proof {
            let n = self.routes@.len();
            assert forall|i: int, j: int| 0 <= i < j < n implies self.routes@[i].instrument@ != self.routes@[j].instrument@ by {
                if idx is None && j == n - 1 {
                    assert(self.routes@[i] == old_routes[i]);
                } else {
                    if i != idx->Some_0 as int || idx is None {
                        assert(self.routes@[i] == old_routes[i]);
                    }
                    if j != idx->Some_0 as int || idx is None {
                        assert(self.routes@[j] == old_routes[j]);
                    }
                }
            }
            let pos: int = match idx { Some(i) => i as int, None => n - 1 };
            assert(self.routes@[pos].instrument@ == instrument@);
            self.lemma_route_at(pos);
            assert forall|k: Seq<char>| k != instrument@ implies self.route_of(k) == old(self).route_of(k) by {
                if self@.contains_key(k) {
                    let c = choose|j: int| 0 <= j < self.routes@.len() && self.routes@[j].instrument@ == k;
                    assert(c != pos);
                    assert(self.routes@[c] == old_routes[c]);
                    old(self).lemma_route_at(c);
                    self.lemma_route_at(c);
                } else {
                    assert forall|j: int| 0 <= j < old_routes.len() implies old_routes[j].instrument@ != k by {
                        if j != pos || idx is None {
                            assert(self.routes@[j] == old_routes[j]);
                        }
                    }
                }
            }
        }
    }
}

/// `clamp_unit` on a bit pattern.
pub fn clamp_unit_bits(bits: u32) -> (r: u32)
    ensures
        r == clamp_unit(bits),
{
    if bits & 0x7FFF_FFFF > 0x7F80_0000 {
        bits
    } else if bits >= 0x8000_0000 {
        if bits == 0x8000_0000 { bits } else { 0 }
    } else if bits > 0x3F80_0000 {
        0x3F80_0000
    } else {
        bits
    }
}

} // verus!
