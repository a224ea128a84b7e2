//! Bounded-concurrency probe scheduler.
//!
//! The scheduler is the decision core of a scan: it hands out ports to
//! probe while never letting more than `concurrency` probes be in
//! flight, records each probe as it settles, and collects the ports
//! that responded. The surrounding binary drives it from an async loop:
//! it asks for the next dispatch, performs the socket probe, and
//! reports the outcome back. The scan is complete exactly when every
//! dispatched probe has settled.
//!
//! The progress counter advances once per dispatched probe, not per
//! completion, so the displayed position may reach the total slightly
//! before the last probes settle — the historical display semantics,
//! kept deliberately.

use vstd::prelude::*;

use crate::catalog::TransportProtocol;
use crate::resolve::PortRange;
use crate::resolve::ResolvedPorts;
use crate::resolve::resolve;
use crate::resolve::resolved_count_spec;
use crate::resolve::resolved_ports_spec;

verus! {

/// The configuration of one scan invocation, immutable once built.
pub struct ScanConfig {
    /// The target host, as the caller named it.
    pub target: String,
    /// The concurrency limit: a positive number of probes in flight.
    pub concurrency: usize,
    /// The per-probe timeout, in seconds.
    pub timeout_secs: u64,
    /// The port range, with `min == max` as the no-range sentinel.
    pub range: PortRange,
    /// The transport protocol to probe under.
    pub protocol: TransportProtocol,
}

impl ScanConfig {
    /// The configuration's invariant: a positive concurrency limit and
    /// ordered port bounds.
    pub open spec fn wf(self) -> bool {
        self.concurrency >= 1 && self.range.wf()
    }
}

/// How a single port is probed.
///
/// Connection-oriented protocols attempt a handshake bounded by the
/// probe timeout. UDP has no handshake: the probe binds an ephemeral
/// local socket and associates it with the target, so its success says
/// only that the local stack accepted the association — a weak signal,
/// documented rather than hidden.
#[derive(Clone, Copy, Debug, PartialEq, Eq, Structural)]
pub enum ProbeMethod {
    /// Connection-oriented handshake (TCP, SCTP-like, and the default).
    Connect,
    /// Ephemeral bind plus association (UDP).
    Associate,
}

/// Picks the probe method for a protocol: UDP probes by association,
/// every other choice by a connection handshake.
pub fn probe_method(protocol: TransportProtocol) -> (r: ProbeMethod)
    ensures
        (r == ProbeMethod::Associate) <==> (protocol == TransportProtocol::Udp),
{
    match protocol {
        TransportProtocol::Udp => ProbeMethod::Associate,
        _ => ProbeMethod::Connect,
    }
}

/// The value a probe reports: the port itself when it responded, 0 when
/// it was closed, unreachable, or timed out.
pub open spec fn probe_outcome_spec(port: u16, open: bool) -> u16 {
    if open {
        port
    } else {
        0u16
    }
}

/// Folds a probe's binary outcome into the reported value: the port on
/// success, 0 on any error or timeout.
pub fn probe_outcome(port: u16, open: bool) -> (r: u16)
    ensures
        r == probe_outcome_spec(port, open),
{
    if open {
        port
    } else {
        0
    }
}

/// Law: probing is idempotent over the observed state of the port. Two
/// probes that find the port in the same state report the same value: a
/// closed port yields 0 both times, an open port yields the port both
/// times.
pub proof fn lemma_probe_idempotent(port: u16, first_open: bool, second_open: bool)
    requires
        first_open == second_open,
    ensures
        probe_outcome_spec(port, first_open) == probe_outcome_spec(port, second_open),
        !first_open ==> probe_outcome_spec(port, first_open) == 0
            && probe_outcome_spec(port, second_open) == 0,
        first_open ==> probe_outcome_spec(port, first_open) == port
            && probe_outcome_spec(port, second_open) == port,
{
}

/// The state of one scan: which ports remain to dispatch, how many
/// probes are in flight, and which ports have responded so far.
pub struct Scheduler {
    /// The resolved ports, in probe order.
    pub ports: Vec<u16>,
    /// The concurrency bound: at most this many probes in flight.
    pub concurrency: usize,
    /// How many ports have been dispatched so far.
    pub dispatched: usize,
    /// How many dispatched probes have settled.
    pub settled: usize,
    /// The ports that responded, in settle order.
    pub open_ports: Vec<u16>,
}

impl Scheduler {
    /// The scheduler's invariant: dispatches never outrun the port
    /// list, settles never outrun dispatches, at most `concurrency`
    /// probes are in flight, and every recorded open port lies within
    /// the resolved port set.
    pub open spec fn wf(self) -> bool {
        &&& self.concurrency >= 1
        &&& self.settled <= self.dispatched <= self.ports@.len()
        &&& self.dispatched - self.settled <= self.concurrency
        &&& forall|i: int|
            0 <= i < self.open_ports@.len() ==> self.ports@.contains(#[trigger] self.open_ports@[i])
    }

    /// The number of probes currently in flight.
    pub open spec fn in_flight_spec(self) -> int {
        self.dispatched - self.settled
    }

    /// Starts a scan over the given ports with the given concurrency
    /// bound.
    pub fn new(ports: Vec<u16>, concurrency: usize) -> (s: Scheduler)
        requires
            concurrency >= 1,
        ensures
            s.wf(),
            s.ports@ == ports@,
            s.concurrency == concurrency,
            s.dispatched == 0,
            s.settled == 0,
            s.open_ports@ == Seq::<u16>::empty(),
    {
        Scheduler { ports, concurrency, dispatched: 0, settled: 0, open_ports: Vec::new() }
    }

    /// Hands out the next port to probe, if a port remains and a
    /// concurrency slot is free; the progress counter advances at this
    /// dispatch. Returns `None` when every port is dispatched or every
    /// slot is taken.
    pub fn next_dispatch(&mut self) -> (r: Option<u16>)
        requires
            old(self).wf(),
        ensures
            final(self).wf(),
            r is Some <==> (old(self).dispatched < old(self).ports@.len() && old(
                self,
            ).in_flight_spec() < old(self).concurrency),
            r matches Some(port) ==> port == old(self).ports@[old(self).dispatched as int]
                && final(self).dispatched == old(self).dispatched + 1,
            r is None ==> *final(self) == *old(self),
            final(self).ports == old(self).ports,
            final(self).concurrency == old(self).concurrency,
            final(self).settled == old(self).settled,
            final(self).open_ports == old(self).open_ports,
            final(self).in_flight_spec() <= final(self).concurrency,
    {
        if self.dispatched < self.ports.len() && self.dispatched - self.settled
            < self.concurrency {
            let port = self.ports[self.dispatched];
            self.dispatched = self.dispatched + 1;
            Some(port)
        } else {
            None
        }
    }

    /// Records one settled probe: the port that was probed and whether
    /// it responded. An open port is pushed into the result collection;
    /// the caller serializes these calls, so there is one writer at a
    /// time.
    pub fn on_settled(&mut self, port: u16, open: bool)
        requires
            old(self).wf(),
            old(self).settled < old(self).dispatched,
            old(self).ports@.contains(port),
        ensures
            final(self).wf(),
            final(self).settled == old(self).settled + 1,
            final(self).dispatched == old(self).dispatched,
            final(self).ports == old(self).ports,
            final(self).concurrency == old(self).concurrency,
            final(self).open_ports@ == if open {
                old(self).open_ports@.push(port)
            } else {
                old(self).open_ports@
            },
            final(self).in_flight_spec() == old(self).in_flight_spec() - 1,
    {
        self.settled = self.settled + 1;
        if open {
            self.open_ports.push(port);
        }
    }

    /// The number of probes in flight right now; never above the
    /// concurrency bound.
    pub fn in_flight(&self) -> (r: usize)
        requires
            self.wf(),
        ensures
            r == self.in_flight_spec(),
            r <= self.concurrency,
    {
        self.dispatched - self.settled
    }

    /// The progress counter: how many probes have been dispatched.
    pub fn progress_position(&self) -> (r: usize)
        ensures
            r == self.dispatched,
    {
        self.dispatched
    }

    /// True exactly when every port has been dispatched and every
    /// dispatched probe has settled: the scan is complete.
    pub fn is_done(&self) -> (r: bool)
        ensures
            r <==> (self.dispatched == self.ports@.len() && self.settled == self.dispatched),
    {
        self.dispatched == self.ports.len() && self.settled == self.dispatched
    }

    /// The open ports listed in resolved-port order, not in
    /// completion order: each port of the resolved set that
    /// responded, in resolved-set order.
    pub fn results_in_order(&self) -> (r: Vec<u16>)
        ensures
            r@ == self.ports@.filter(|p: u16| self.open_ports@.contains(p)),
    {
        let ghost pred = |p: u16| self.open_ports@.contains(p);
        let mut r: Vec<u16> = Vec::new();
        let mut i: usize = 0;
        proof {
            reveal(Seq::filter);
        }
        while i < self.ports.len()
            invariant
                0 <= i <= self.ports@.len(),
                r@ == self.ports@.subrange(0, i as int).filter(pred),
                pred == (|p: u16| self.open_ports@.contains(p)),
            decreases self.ports@.len() - i,
        {
            let port = self.ports[i];
            proof {
                reveal(Seq::filter);
                assert(self.ports@.subrange(0, i + 1).drop_last() =~= self.ports@.subrange(
                    0,
                    i as int,
                ));
                assert(self.ports@.subrange(0, i + 1).last() == self.ports@[i as int]);
            }
            if crate::resolve::ports_contain(&self.open_ports, port) {
                r.push(port);
            }
            i = i + 1;
        }
        proof {
            assert(self.ports@.subrange(0, self.ports@.len() as int) =~= self.ports@);
        }
        r
    }
}

/// Resolves a configuration's ports and starts a scheduler over them.
/// Returns the scheduler and the reported count that scales the
/// progress display.
pub fn start_scan(config: &ScanConfig) -> (r: (Scheduler, usize))
    requires
        config.wf(),
    ensures
        r.0.wf(),
        r.0.ports@ == resolved_ports_spec(config.range.min, config.range.max, config.protocol),
        r.0.concurrency == config.concurrency,
        r.0.dispatched == 0,
        r.0.settled == 0,
        r.0.open_ports@ == Seq::<u16>::empty(),
        r.1 == resolved_count_spec(config.range.min, config.range.max, config.protocol),
{
    let resolved: ResolvedPorts = resolve(config.range.min, config.range.max, config.protocol);
    let count = resolved.count;
    let s = Scheduler::new(resolved.ports, config.concurrency);
    (s, count)
}

/// Law: the concurrency bound holds in every reachable scheduler state
/// — the number of probes in flight never exceeds `concurrency`. Each
/// transition (`next_dispatch`, `on_settled`) preserves `wf`, so the
/// bound holds throughout a scan.
pub proof fn lemma_concurrency_bound(s: Scheduler)
    requires
        s.wf(),
    ensures
        s.in_flight_spec() <= s.concurrency,
{
}

/// Law: every recorded responding port lies within the scan's resolved
/// port set, in every reachable scheduler state.
pub proof fn lemma_results_within_resolved(s: Scheduler)
    requires
        s.wf(),
    ensures
        forall|i: int| 0 <= i < s.open_ports@.len() ==> s.ports@.contains(#[trigger] s.open_ports@[i]),
{
}

} // verus!
