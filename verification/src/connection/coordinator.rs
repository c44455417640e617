//! Chooses a transport route; the caller connects over TCP in the order given
//! and reports back which route worked. Native Bluetooth transports are handled
//! by the platform boundary, not here.
use super::route::{attempt_order, ConnectionRoute, RouteKind, RouteMemory, RouteTarget};
use std::time::Duration;
use vstd::prelude::*;

verus! {

/// Time limits of the connection phases.
pub struct ConnectionTimeouts {
    /// How long one TCP connection attempt may take.
    pub connect: Duration,
}

/// A TCP connection attempt: the route kind and the address to connect to.
pub struct TcpAttempt {
    pub kind: RouteKind,
    pub host: String,
    pub port: u16,
}

/// The TCP attempts for `routes`, in their order; Bluetooth routes are skipped.
pub open spec fn tcp_attempts_of(routes: Seq<ConnectionRoute>) -> Seq<(RouteKind, Seq<char>, u16)>
    decreases routes.len(),
{
    if routes.len() == 0 {
        Seq::empty()
    } else {
        let rest = tcp_attempts_of(routes.drop_last());
        match routes.last().target {
            RouteTarget::Tcp { host, port } => rest.push((routes.last().kind, host@, port)),
            RouteTarget::Bluetooth(_) => rest,
        }
    }
}

pub open spec fn attempts_view(a: Seq<TcpAttempt>) -> Seq<(RouteKind, Seq<char>, u16)> {
    a.map_values(|t: TcpAttempt| (t.kind, t.host@, t.port))
}

pub struct ConnectionCoordinator {
    memory: RouteMemory,
    timeouts: ConnectionTimeouts,
}

impl ConnectionCoordinator {
    pub closed spec fn spec_memory(&self) -> RouteMemory {
        self.memory
    }

    pub closed spec fn spec_connect_timeout(&self) -> Duration {
        self.timeouts.connect
    }

    pub fn new(memory: RouteMemory, timeouts: ConnectionTimeouts) -> (r: Self)
        ensures
            r.spec_memory() == memory,
            r.spec_connect_timeout() == timeouts.connect,
    {
        ConnectionCoordinator { memory, timeouts }
    }

    pub fn memory(&self) -> (r: &RouteMemory)
        ensures
            *r == self.spec_memory(),
    {
        &self.memory
    }

    /// How long one connection attempt may take.
    pub fn connect_timeout(&self) -> (r: &Duration)
        ensures
            *r == self.spec_connect_timeout(),
    {
        &self.timeouts.connect
    }

    /// The TCP connection attempts to make, in order: routes of the last
    /// successful kind first, Bluetooth routes left out.
    pub fn tcp_attempts(&self, routes: Vec<ConnectionRoute>) -> (r: Vec<TcpAttempt>)
        ensures
            attempts_view(r@) == tcp_attempts_of(attempt_order(routes@, self.spec_memory().spec_preferred())),
    {
        let ordered = self.memory.order(routes);
        let mut attempts: Vec<TcpAttempt> = Vec::new();
        let mut i: usize = 0;
        while i < ordered.len()
            invariant
                0 <= i <= ordered@.len(),
                attempts_view(attempts@) == tcp_attempts_of(ordered@.take(i as int)),
            decreases ordered@.len() - i,
        {
            let route = &ordered[i];
            match &route.target {
                RouteTarget::Tcp { host, port } => {
                    attempts.push(TcpAttempt { kind: route.kind, host: host.clone(), port: *port });
                },
                RouteTarget::Bluetooth(_) => {},
            }
            proof {
                let t = ordered@.take(i + 1);
                assert(t.drop_last() =~= ordered@.take(i as int));
                assert(t.last() == ordered@[i as int]);
                assert(attempts_view(attempts@) =~= tcp_attempts_of(t));
            }
            i = i + 1;
        }
        assert(ordered@.take(ordered@.len() as int) =~= ordered@);
        attempts
    }

    /// Records that a route of this kind connected: it is attempted first next time.
    pub fn connected(&mut self, kind: RouteKind)
        ensures
            final(self).spec_memory().spec_preferred() == Some(kind),
            final(self).spec_connect_timeout() == old(self).spec_connect_timeout(),
    {
        self.memory.set_preferred(kind);
    }
}

/// What the connect loop does next.
#[derive(Debug, Clone, Copy, PartialEq, Eq, Structural)]
pub enum ConnectStep {
    /// Make the attempt at this index.
    Try(usize),
    /// Every attempt failed: stop and report the error.
    GiveUp,
}

/// Progress through a list of connection attempts made in order until one
/// connects: how many have failed so far, and the last failure.
pub struct ConnectLoop {
    count: usize,
    failed: usize,
    last_error: Option<String>,
}

impl ConnectLoop {
    pub closed spec fn spec_count(&self) -> usize {
        self.count
    }

    pub closed spec fn spec_failed(&self) -> usize {
        self.failed
    }

    pub closed spec fn spec_last_error(&self) -> Option<Seq<char>> {
        match self.last_error {
            Some(e) => Some(e@),
            None => None,
        }
    }

    #[verifier::type_invariant]
    spec fn failed_within_count(self) -> bool {
        self.failed <= self.count
    }

    /// No attempt made yet among `count`.
    pub fn new(count: usize) -> (r: Self)
        ensures
            r.spec_count() == count,
            r.spec_failed() == 0,
            r.spec_last_error() is None,
    {
        ConnectLoop { count, failed: 0, last_error: None }
    }

    /// The next step: the first attempt that has not failed yet, or giving up
    /// once all have.
    pub fn next(&self) -> (r: ConnectStep)
        ensures
            r == (if self.spec_failed() < self.spec_count() {
                ConnectStep::Try(self.spec_failed())
            } else {
                ConnectStep::GiveUp
            }),
    {
        if self.failed < self.count {
            ConnectStep::Try(self.failed)
        } else {
            ConnectStep::GiveUp
        }
    }

    /// The current attempt failed with `error`.
    pub fn failed(&mut self, error: String)
        requires
            old(self).spec_failed() < old(self).spec_count(),
        ensures
            final(self).spec_count() == old(self).spec_count(),
            final(self).spec_failed() == old(self).spec_failed() + 1,
            final(self).spec_last_error() == Some(error@),
    {
        self.failed = self.failed + 1;
        self.last_error = Some(error);
    }

    /// The current attempt did not connect in time.
    pub fn timed_out(&mut self)
        requires
            old(self).spec_failed() < old(self).spec_count(),
        ensures
            final(self).spec_count() == old(self).spec_count(),
            final(self).spec_failed() == old(self).spec_failed() + 1,
            final(self).spec_last_error() == Some("connection attempt timed out"@),
    {
        self.failed(String::from_str("connection attempt timed out"));
    }

    /// The error to report after giving up: the last failure, or that there
    /// was no route to try.
    pub fn into_error(self) -> (r: String)
        ensures
            r@ == match self.spec_last_error() {
                Some(e) => e,
                None => "no TCP routes available"@,
            },
    {
        match self.last_error {
            Some(e) => e,
            None => String::from_str("no TCP routes available"),
        }
    }
}

} // verus!
