//! Transport-independent idle/handshake timeout helper.
use std::time::{Duration, Instant};
use vstd::prelude::*;

verus! {

/// `Instant::now`. It reads the clock: nothing is claimed of the result.
#[verifier::external_body]
pub(crate) fn now() -> (r: Instant) {
    Instant::now()
}

/// `Instant::elapsed`: the time since `started`, read from the clock.
/// Nothing is claimed of the result.
#[verifier::external_body]
fn elapsed(started: &Instant) -> (r: Duration) {
    started.elapsed()
}

/// Name for the length of a `Duration` in nanoseconds, the value that
/// `Duration::as_nanos` returns.
pub uninterp spec fn duration_length(d: Duration) -> nat;

/// The length in nanoseconds of the longest `Duration`: `u64::MAX` seconds
/// and 999,999,999 nanoseconds (`Duration::MAX`).
pub open spec fn max_duration_nanos() -> nat {
    18446744073709551615 * 1000000000 + 999999999
}

/// `Duration::as_nanos`: "the total number of nanoseconds contained by this
/// `Duration`", named `duration_length`; no `Duration` is longer than
/// `Duration::MAX`.
#[verifier::external_body]
pub(crate) fn duration_nanos(d: &Duration) -> (r: u128)
    ensures
        r == duration_length(*d),
        r <= max_duration_nanos(),
{
    d.as_nanos()
}

/// `n` nanoseconds is the length of some `Duration`: a time that a clock
/// reading can give.
pub open spec fn is_duration_length(n: nat) -> bool {
    exists|d: Duration| #[trigger] duration_length(d) == n
}

/// Nanoseconds elapsed since `started`, by the clock: the length of the
/// `Duration` that `Instant::elapsed` reads.
pub(crate) fn elapsed_nanos(started: &Instant) -> (r: u128)
    ensures
        exists|d: Duration| r == duration_length(d),
        is_duration_length(r as nat),
        r <= max_duration_nanos(),
{
    let d = elapsed(started);
    duration_nanos(&d)
}

/// `Duration::new(secs, nanos)`: whole seconds and additional nanoseconds
/// (below one second here, so nothing carries over and it cannot panic); its
/// length is `secs` seconds and `nanos` nanoseconds.
#[verifier::external_body]
fn duration_from_parts(secs: u64, nanos: u32) -> (r: Duration)
    requires
        nanos < 1_000_000_000,
    ensures
        duration_length(r) == secs * 1_000_000_000 + nanos,
{
    Duration::new(secs, nanos)
}

/// A deadline counted from the moment it was created.
pub struct ConnectionTimeout {
    started: Instant,
    timeout_nanos: u128,
}

impl ConnectionTimeout {
    /// The limit is the length of a `Duration`.
    #[verifier::type_invariant]
    spec fn limit_is_a_duration(self) -> bool {
        self.timeout_nanos <= max_duration_nanos()
    }

    /// Length of the timeout in nanoseconds.
    pub closed spec fn limit(&self) -> u128 {
        self.timeout_nanos
    }

    /// The timeout has run out after `elapsed` nanoseconds.
    pub open spec fn runs_out_after(&self, elapsed: u128) -> bool {
        elapsed >= self.limit()
    }

    /// Nanoseconds left after `elapsed` nanoseconds; zero once run out.
    pub open spec fn left_after(&self, elapsed: u128) -> nat {
        if elapsed >= self.limit() {
            0
        } else {
            (self.limit() - elapsed) as nat
        }
    }

    /// Starts a timeout of length `timeout` now.
    pub fn new(timeout: Duration) -> (r: Self)
        ensures
            r.limit() == duration_length(timeout),
    {
        let started = now();
        ConnectionTimeout { started, timeout_nanos: duration_nanos(&timeout) }
    }

    /// Whether the timeout has run out after `elapsed_nanos` nanoseconds.
    pub fn expired_after(&self, elapsed_nanos: u128) -> (r: bool)
        ensures
            r == (elapsed_nanos >= self.limit()),
    {
        elapsed_nanos >= self.timeout_nanos
    }

    /// Nanoseconds left after `elapsed_nanos` nanoseconds; zero once expired.
    pub fn remaining_after(&self, elapsed_nanos: u128) -> (r: u128)
        ensures
            r == (if elapsed_nanos >= self.limit() {
                0
            } else {
                self.limit() - elapsed_nanos
            }),
    {
        self.timeout_nanos.saturating_sub(elapsed_nanos)
    }

    /// Whether the timeout has run out by now: whether the time elapsed since
    /// it started, as the clock reads it, has reached the limit.
    pub fn expired(&self) -> (r: bool)
        ensures
            exists|elapsed: u128| r == #[trigger] self.runs_out_after(elapsed),
            exists|elapsed: u128|
                is_duration_length(elapsed as nat) && r == #[trigger] self.runs_out_after(elapsed),
    {
        let e = elapsed_nanos(&self.started);
        let r = self.expired_after(e);
        assert(is_duration_length(e as nat) && r == self.runs_out_after(e));
        r
    }

    /// What is left of the timeout now: the limit less the time elapsed since
    /// it started, as the clock reads it; zero once it has run out.
    pub fn remaining(&self) -> (r: Duration)
        ensures
            exists|elapsed: u128| duration_length(r) == #[trigger] self.left_after(elapsed),
            exists|elapsed: u128|
                is_duration_length(elapsed as nat) && duration_length(r) == #[trigger] self.left_after(
                    elapsed,
                ),
    {
        proof {
            use_type_invariant(self);
        }
        let e = elapsed_nanos(&self.started);
        let left = self.remaining_after(e);
        let r = duration_of_nanos(left);
        assert(is_duration_length(e as nat) && duration_length(r) == self.left_after(e));
        r
    }
}

/// A timeout that has run out stays run out as more time goes by, and it has
/// run out exactly when no time is left of it.
pub proof fn timeout_runs_out_for_good(t: ConnectionTimeout, earlier: u128, later: u128)
    requires
        earlier <= later,
    ensures
        t.runs_out_after(earlier) ==> t.runs_out_after(later),
        t.runs_out_after(earlier) <==> t.left_after(earlier) == 0,
        t.left_after(later) <= t.left_after(earlier),
        !t.runs_out_after(later) ==> t.left_after(earlier) == t.left_after(later) + (later - earlier),
{
}

/// The `Duration` of `nanos` nanoseconds.
pub(crate) fn duration_of_nanos(nanos: u128) -> (r: Duration)
    requires
        nanos <= max_duration_nanos(),
    ensures
        duration_length(r) == nanos,
{
    let secs = nanos / 1_000_000_000;
    let rest = nanos % 1_000_000_000;
    assert(secs <= 18446744073709551615 && nanos == secs * 1_000_000_000 + rest) by (nonlinear_arith)
        requires
            nanos <= max_duration_nanos(),
            secs == nanos / 1_000_000_000,
            rest == nanos % 1_000_000_000,
    ;
    duration_from_parts(secs as u64, rest as u32)
}

} // verus!
