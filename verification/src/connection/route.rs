//! Transport routes to the phone and the memory of which one worked last.
use crate::platform::bluetooth::BluetoothEndpoint;
use vstd::prelude::*;

verus! {

#[derive(Debug, Clone, Copy, PartialEq, Eq, Structural, PartialOrd, Ord)]
pub enum RouteKind {
    Wifi,
    Hotspot,
    BluetoothPan,
    BluetoothNative,
    Manual,
}

pub enum RouteTarget {
    Tcp { host: String, port: u16 },
    Bluetooth(BluetoothEndpoint),
}

pub struct ConnectionRoute {
    pub kind: RouteKind,
    pub target: RouteTarget,
    pub fingerprint: String,
}

impl ConnectionRoute {
    /// A TCP route to `host:port`, pinned to the peer certificate `fingerprint`.
    pub fn tcp(kind: RouteKind, host: String, port: u16, fingerprint: String) -> (r: Self)
        ensures
            r.kind == kind,
            r.target == (RouteTarget::Tcp { host, port }),
            r.fingerprint == fingerprint,
    {
        ConnectionRoute { kind, target: RouteTarget::Tcp { host, port }, fingerprint }
    }
}

/// The routes of `routes` whose kind is `kind`, in their order.
pub open spec fn routes_of_kind(routes: Seq<ConnectionRoute>, kind: RouteKind) -> Seq<
    ConnectionRoute,
> {
    routes.filter(|r: ConnectionRoute| r.kind == kind)
}

/// The routes of `routes` whose kind is not `kind`, in their order.
pub open spec fn routes_not_of_kind(routes: Seq<ConnectionRoute>, kind: RouteKind) -> Seq<
    ConnectionRoute,
> {
    routes.filter(|r: ConnectionRoute| r.kind != kind)
}

/// The order in which routes are attempted: routes of the preferred kind
/// first, then the others; within each group the given order is kept.
pub open spec fn attempt_order(routes: Seq<ConnectionRoute>, preferred: Option<RouteKind>) -> Seq<
    ConnectionRoute,
> {
    match preferred {
        Some(kind) => routes_of_kind(routes, kind) + routes_not_of_kind(routes, kind),
        None => routes,
    }
}

/// Splitting the routes by kind keeps every route: the two groups together
/// hold exactly the given routes.
proof fn lemma_partition_keeps_routes(routes: Seq<ConnectionRoute>, kind: RouteKind)
    ensures
        routes_of_kind(routes, kind).to_multiset().add(routes_not_of_kind(routes, kind).to_multiset())
            =~= routes.to_multiset(),
    decreases routes.len(),
{
    broadcast use vstd::seq_lib::group_to_multiset_ensures, vstd::multiset::group_multiset_axioms;

    reveal_with_fuel(Seq::filter, 1);
    if routes.len() == 0 {
        assert(routes_of_kind(routes, kind) =~= Seq::<ConnectionRoute>::empty());
        assert(routes_not_of_kind(routes, kind) =~= Seq::<ConnectionRoute>::empty());
    } else {
        let rest = routes.drop_last();
        let last = routes.last();
        lemma_partition_keeps_routes(rest, kind);
        assert(routes =~= rest.push(last));
        if last.kind == kind {
            assert(routes_of_kind(routes, kind) == routes_of_kind(rest, kind).push(last));
            assert(routes_not_of_kind(routes, kind) == routes_not_of_kind(rest, kind));
        } else {
            assert(routes_of_kind(routes, kind) == routes_of_kind(rest, kind));
            assert(routes_not_of_kind(routes, kind) == routes_not_of_kind(rest, kind).push(last));
        }
    }
}

/// Ordering the routes neither adds nor drops any: the attempt order holds
/// exactly the given routes, each as many times as it was given.
pub proof fn lemma_attempt_order_keeps_routes(routes: Seq<ConnectionRoute>, preferred: Option<RouteKind>)
    ensures
        attempt_order(routes, preferred).to_multiset() =~= routes.to_multiset(),
{
    if let Some(kind) = preferred {
        lemma_partition_keeps_routes(routes, kind);
        vstd::seq_lib::lemma_multiset_commutative(
            routes_of_kind(routes, kind),
            routes_not_of_kind(routes, kind),
        );
    }
}

/// Remembers the kind of the last route that connected.
#[derive(Debug, Default)]
pub struct RouteMemory {
    preferred: Option<RouteKind>,
}

impl RouteMemory {
    pub closed spec fn spec_preferred(&self) -> Option<RouteKind> {
        self.preferred
    }

    pub fn new() -> (r: Self)
        ensures
            r.spec_preferred() is None,
    {
        RouteMemory { preferred: None }
    }

    pub fn set_preferred(&mut self, kind: RouteKind)
        ensures
            final(self).spec_preferred() == Some(kind),
    {
        self.preferred = Some(kind);
    }

    pub fn preferred(&self) -> (r: Option<RouteKind>)
        ensures
            r == self.spec_preferred(),
    {
        self.preferred
    }

    /// Stable ordering: routes of the last successful kind are attempted first,
    /// then the fallbacks, each group in the order given.
    pub fn order(&self, routes: Vec<ConnectionRoute>) -> (r: Vec<ConnectionRoute>)
        ensures
            r@ == attempt_order(routes@, self.spec_preferred()),
    {
        match self.preferred {
            None => routes,
            Some(preferred) => {
                let ghost all = routes@;
                let ghost is_pref = |r: ConnectionRoute| r.kind == preferred;
                let ghost not_pref = |r: ConnectionRoute| r.kind != preferred;
                let mut rest = routes;
                let mut first: Vec<ConnectionRoute> = Vec::new();
                let mut later: Vec<ConnectionRoute> = Vec::new();
                let n = rest.len();
                let mut k: usize = 0;
                while rest.len() > 0
                    invariant
                        all.len() == n,
                        is_pref == (|r: ConnectionRoute| r.kind == preferred),
                        not_pref == (|r: ConnectionRoute| r.kind != preferred),
                        k <= all.len(),
                        rest@ == all.skip(k as int),
                        first@ == all.take(k as int).filter(is_pref),
                        later@ == all.take(k as int).filter(not_pref),
                    decreases rest@.len(),
                {
                    assert(k < n);
                    let route = rest.remove(0);
                    proof {
                        let t = all.take(k + 1);
                        reveal_with_fuel(Seq::filter, 1);
                        assert(t.drop_last() =~= all.take(k as int));
                        assert(all.skip(k as int)[0] == all[k as int]);
                        assert(t.last() == all[k as int]);
                        assert(rest@ =~= all.skip(k + 1));
                    }
                    if route.kind == preferred {
                        first.push(route);
                    } else {
                        later.push(route);
                    }
                    k = k + 1;
                }
                proof {
                    assert(all.take(k as int) =~= all);
                }
                first.append(&mut later);
                first
            },
        }
    }
}

} // verus!
