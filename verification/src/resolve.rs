//! Port range resolver: decides the set of ports a scan probes.
//!
//! The policy, in priority order: an explicit range `[min, max]` when
//! `min != max`; the chosen protocol's catalog when a protocol is given;
//! otherwise the merged catalogs of all three protocols, duplicates
//! removed keeping the first occurrence. The reported count for an
//! explicit range is the range width `max - min`, one less than the
//! number of ports — a quirk kept for compatibility with existing
//! consumers of the count.

use vstd::prelude::*;

use crate::catalog::TransportProtocol;
use crate::catalog::catalog_ports;
use crate::catalog::catalog_ports_spec;
use crate::catalog::sctp_ports_spec;
use crate::catalog::tcp_ports_spec;
use crate::catalog::udp_ports_spec;

verus! {

/// A pair of port bounds; `min == max` is the sentinel meaning that no
/// explicit range was given.
#[derive(Clone, Copy, Debug, PartialEq, Eq, Structural)]
pub struct PortRange {
    /// The lower bound of the range.
    pub min: u16,
    /// The upper bound of the range.
    pub max: u16,
}

impl PortRange {
    /// The range's invariant: the bounds are ordered.
    pub open spec fn wf(self) -> bool {
        self.min <= self.max
    }

    /// Whether an explicit range was given, or the bounds are the
    /// sentinel.
    pub open spec fn is_explicit_spec(self) -> bool {
        self.min != self.max
    }

    /// True when an explicit range was given.
    pub fn is_explicit(&self) -> (r: bool)
        ensures
            r == self.is_explicit_spec(),
    {
        self.min != self.max
    }
}

/// The inclusive range of ports [min, max].
pub open spec fn range_ports_spec(min: u16, max: u16) -> Seq<u16>
    recommends
        min <= max,
{
    Seq::new((max - min + 1) as nat, |i: int| (min + i) as u16)
}

/// Removes duplicates from a sequence, keeping the first occurrence of
/// each port.
pub open spec fn dedup_first(s: Seq<u16>) -> Seq<u16>
    decreases s.len(),
{
    if s.len() == 0 {
        Seq::<u16>::empty()
    } else {
        let prefix = dedup_first(s.drop_last());
        if prefix.contains(s.last()) {
            prefix
        } else {
            prefix.push(s.last())
        }
    }
}

/// The three catalogs joined in merge order: SCTP, then TCP, then UDP.
pub open spec fn joined_catalogs_spec() -> Seq<u16> {
    sctp_ports_spec() + tcp_ports_spec() + udp_ports_spec()
}

/// The merged catalog probed when neither range nor protocol is given.
pub open spec fn merged_ports_spec() -> Seq<u16> {
    dedup_first(joined_catalogs_spec())
}

/// The sequence of ports a scan with this configuration probes.
pub open spec fn resolved_ports_spec(min: u16, max: u16, protocol: TransportProtocol) -> Seq<
    u16,
> {
    if min != max {
        range_ports_spec(min, max)
    } else if protocol != TransportProtocol::Unspecified {
        catalog_ports_spec(protocol)
    } else {
        merged_ports_spec()
    }
}

/// The count reported beside the resolved ports, used for progress
/// scaling. For an explicit range it is the width `max - min`.
pub open spec fn resolved_count_spec(min: u16, max: u16, protocol: TransportProtocol) -> int {
    if min != max {
        max - min
    } else if protocol != TransportProtocol::Unspecified {
        catalog_ports_spec(protocol).len() as int
    } else {
        merged_ports_spec().len() as int
    }
}

/// The ports a scan probes, with the count that scales its progress
/// display.
pub struct ResolvedPorts {
    /// The ports to probe, in probe order.
    pub ports: Vec<u16>,
    /// The reported total used for progress scaling.
    pub count: usize,
}

/// True when a vector of ports contains the given port.
pub fn ports_contain(v: &Vec<u16>, port: u16) -> (r: bool)
    ensures
        r == v@.contains(port),
{
    let mut i: usize = 0;
    while i < v.len()
        invariant
            0 <= i <= v@.len(),
            forall|j: int| 0 <= j < i ==> v@[j] != port,
        decreases v@.len() - i,
    {
        if v[i] == port {
            return true;
        }
        i = i + 1;
    }
    false
}

proof fn lemma_dedup_first_push(s: Seq<u16>, x: u16)
    ensures
        dedup_first(s.push(x)) == if dedup_first(s).contains(x) {
            dedup_first(s)
        } else {
            dedup_first(s).push(x)
        },
{
    assert(s.push(x).drop_last() =~= s);
    assert(s.push(x).last() == x);
}

fn dedup_ports(v: &Vec<u16>) -> (r: Vec<u16>)
    ensures
        r@ == dedup_first(v@),
{
    let mut r: Vec<u16> = Vec::new();
    let mut i: usize = 0;
    while i < v.len()
        invariant
            0 <= i <= v@.len(),
            r@ == dedup_first(v@.subrange(0, i as int)),
        decreases v@.len() - i,
    {
        let port = v[i];
        proof {
            assert(v@.subrange(0, i + 1).drop_last() =~= v@.subrange(0, i as int));
            lemma_dedup_first_push(v@.subrange(0, i as int), v@[i as int]);
            assert(v@.subrange(0, i as int).push(v@[i as int]) =~= v@.subrange(0, i + 1));
        }
        if !ports_contain(&r, port) {
            r.push(port);
        }
        i = i + 1;
    }
    proof {
        assert(v@.subrange(0, v@.len() as int) =~= v@);
    }
    r
}

/// Resolves a scan configuration to the ports it probes and the count
/// that scales its progress display.
pub fn resolve(min: u16, max: u16, protocol: TransportProtocol) -> (r: ResolvedPorts)
    requires
        min <= max,
    ensures
        r.ports@ == resolved_ports_spec(min, max, protocol),
        r.count == resolved_count_spec(min, max, protocol),
{
    if min != max {
        let mut ports: Vec<u16> = Vec::new();
        let mut p: u16 = min;
        loop
            invariant_except_break
                min <= p <= max,
                ports@ =~= Seq::new((p - min) as nat, |i: int| (min + i) as u16),
            ensures
                ports@ =~= range_ports_spec(min, max),
            decreases max - p,
        {
            ports.push(p);
            proof {
                assert(ports@ =~= Seq::new((p + 1 - min) as nat, |i: int| (min + i) as u16));
            }
            if p == max {
                proof {
                    assert(ports@ =~= range_ports_spec(min, max));
                }
                break ;
            }
            p = p + 1;
        }
        ResolvedPorts { ports, count: (max - min) as usize }
    } else if protocol != TransportProtocol::Unspecified {
        let ports = catalog_ports(protocol);
        let count = ports.len();
        ResolvedPorts { ports, count }
    } else {
        let mut joined = catalog_ports(TransportProtocol::Sctp);
        let mut tcp = catalog_ports(TransportProtocol::Tcp);
        let mut udp = catalog_ports(TransportProtocol::Udp);
        joined.append(&mut tcp);
        joined.append(&mut udp);
        proof {
            assert(joined@ =~= joined_catalogs_spec());
        }
        let ports = dedup_ports(&joined);
        let count = ports.len();
        ResolvedPorts { ports, count }
    }
}

/// Law: for an explicit range the reported count is the range width
/// `max - min`, and the resolved sequence holds `max - min + 1` ports —
/// the count is one less than the element count.
pub proof fn lemma_range_count_off_by_one(min: u16, max: u16, protocol: TransportProtocol)
    requires
        min < max,
    ensures
        resolved_count_spec(min, max, protocol) == max - min,
        resolved_ports_spec(min, max, protocol).len() == max - min + 1,
        resolved_count_spec(min, max, protocol) == resolved_ports_spec(min, max, protocol).len()
            - 1,
{
}

/// Law: with no explicit range and a protocol given, the resolved
/// sequence is exactly that protocol's catalog and the count its
/// length.
pub proof fn lemma_single_protocol_catalog(min: u16, max: u16, protocol: TransportProtocol)
    requires
        min == max,
        protocol != TransportProtocol::Unspecified,
    ensures
        resolved_ports_spec(min, max, protocol) == catalog_ports_spec(protocol),
        resolved_count_spec(min, max, protocol) == catalog_ports_spec(protocol).len(),
{
}

proof fn lemma_dedup_first_no_duplicates(s: Seq<u16>)
    ensures
        dedup_first(s).no_duplicates(),
        forall|p: u16| dedup_first(s).contains(p) <==> s.contains(p),
    decreases s.len(),
{
    if s.len() == 0 {
    } else {
        let prefix = dedup_first(s.drop_last());
        lemma_dedup_first_no_duplicates(s.drop_last());
        assert(forall|p: u16| s.drop_last().contains(p) ==> s.contains(p)) by {
            assert forall|p: u16| s.drop_last().contains(p) implies s.contains(p) by {
                let i = choose|i: int|
                    0 <= i < s.drop_last().len() && s.drop_last()[i] == p;
                assert(s[i] == p);
            }
        }
        assert(s.contains(s.last())) by {
            assert(s[s.len() - 1] == s.last());
        }
        assert forall|p: u16| s.contains(p) implies dedup_first(s).contains(p) by {
            let i = choose|i: int| 0 <= i < s.len() && s[i] == p;
            if i < s.len() - 1 {
                assert(s.drop_last()[i] == p);
                assert(s.drop_last().contains(p));
                if !prefix.contains(s.last()) {
                    let j = choose|j: int| 0 <= j < prefix.len() && prefix[j] == p;
                    assert(dedup_first(s)[j] == p);
                }
            } else {
                if prefix.contains(s.last()) {
                } else {
                    assert(dedup_first(s)[dedup_first(s).len() - 1] == s.last());
                }
            }
        }
        assert forall|p: u16| dedup_first(s).contains(p) implies s.contains(p) by {
            let j = choose|j: int| 0 <= j < dedup_first(s).len() && dedup_first(s)[j] == p;
            if j < prefix.len() {
                assert(prefix[j] == p);
            }
        }
    }
}

/// Law: with neither range nor protocol given, the resolved sequence
/// has no duplicate ports and holds exactly the union of the three
/// protocol catalogs.
pub proof fn lemma_merged_catalog_union(min: u16, max: u16)
    requires
        min == max,
    ensures
        resolved_ports_spec(min, max, TransportProtocol::Unspecified).no_duplicates(),
        forall|p: u16|
            resolved_ports_spec(min, max, TransportProtocol::Unspecified).contains(p) <==> (
            sctp_ports_spec().contains(p) || tcp_ports_spec().contains(p)
                || udp_ports_spec().contains(p)),
        resolved_count_spec(min, max, TransportProtocol::Unspecified) == resolved_ports_spec(
            min,
            max,
            TransportProtocol::Unspecified,
        ).len(),
{
    lemma_dedup_first_no_duplicates(joined_catalogs_spec());
    assert forall|p: u16|
        joined_catalogs_spec().contains(p) <==> (sctp_ports_spec().contains(p)
            || tcp_ports_spec().contains(p) || udp_ports_spec().contains(p)) by {
        let j = joined_catalogs_spec();
        let a = sctp_ports_spec();
        let b = tcp_ports_spec();
        let c = udp_ports_spec();
        if j.contains(p) {
            let i = choose|i: int| 0 <= i < j.len() && j[i] == p;
            if i < a.len() {
                assert(a[i] == p);
            } else if i < a.len() + b.len() {
                assert(b[i - a.len()] == p);
            } else {
                assert(c[i - a.len() - b.len()] == p);
            }
        }
        if a.contains(p) {
            let i = choose|i: int| 0 <= i < a.len() && a[i] == p;
            assert(j[i] == p);
        }
        if b.contains(p) {
            let i = choose|i: int| 0 <= i < b.len() && b[i] == p;
            assert(j[a.len() + i] == p);
        }
        if c.contains(p) {
            let i = choose|i: int| 0 <= i < c.len() && c[i] == p;
            assert(j[a.len() + b.len() + i] == p);
        }
    }
}

} // verus!
