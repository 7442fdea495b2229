//! What holds of the engine as a whole: of the two tables that traces are
//! filed in, of a probe and the Time Exceeded that answers it, and of the
//! acknowledgment that ends a sweep.

use crate::classifier::{
    classify_event, classify_frame, Classification, Malformed, ETHER_TYPE_IPV4, ETHER_TYPE_IPV6, ICMPV6_TIME_EXCEEDED,
    ICMP_TIME_EXCEEDED, IP_PROTO_ICMP, IP_PROTO_ICMPV6,
};
use crate::hop::{Hop, HopType};
use crate::probe::{Probe, ProbeHeaders};
use crate::sweep::{spec_elapsed, Directive, Input, Phase, Sweep};
use crate::tracer::Registry;
use crate::wire::{
    from_be16, lemma_array4_holds, lemma_array_of, EbpfConfig, IPAddr, IPVersion, SocketAddr,
    TraceEvent, TraceEventType,
};
use vstd::prelude::*;

verus! {

/// A trace that has started is filed once in each table, and closing it
/// leaves both tables as they were before it started.
///
/// Where an engine's registry and its share of the filter table mirror
/// each other and a trace starts: they still mirror each other; the
/// registry holds the trace under its id and no other id for its key; the
/// table holds the key under the trace's id and no other key of the
/// engine's family under that id; and once the trace is closed, neither
/// entry remains and both tables are what they were.
pub proof fn law_registration_symmetry(
    reg: Registry,
    family: IPVersion,
    remote: SocketAddr,
    trace_id: u32,
)
    requires
        reg.coupled(family),
        reg.start(family, remote, trace_id) is Ok,
    ensures
        ({
            let live = reg.start(family, remote, trace_id)->Ok_0;
            let closed = live.release(trace_id, remote);
            &&& live.coupled(family)
            &&& live.traces.contains_key(trace_id) && live.traces[trace_id] == remote
            &&& live.table.contains_key(remote) && live.table[remote] == trace_id
            &&& forall|id: u32| #[trigger]
                live.traces.contains_key(id) && live.traces[id] == remote ==> id == trace_id
            &&& forall|key: SocketAddr| #[trigger]
                live.table.contains_key(key) && key.addr.ip_version == family && live.table[key]
                    == trace_id ==> key == remote
            &&& !closed.traces.contains_key(trace_id)
            &&& !closed.table.contains_key(remote)
            &&& closed == reg
            &&& closed.coupled(family)
        }),
{
    let live = reg.start(family, remote, trace_id)->Ok_0;
    let closed = live.release(trace_id, remote);
    assert(live == reg.register(trace_id, remote));
    assert forall|id: u32| #[trigger] live.traces.contains_key(id) implies live.traces[id].addr.ip_version
        == family && live.table.contains_key(live.traces[id]) && live.table[live.traces[id]]
        == id by {
        if id != trace_id {
            assert(reg.traces.contains_key(id));
            assert(reg.table.contains_key(reg.traces[id]));
        }
    }
    assert forall|key: SocketAddr| #[trigger]
        live.table.contains_key(key) && key.addr.ip_version == family implies live.traces.contains_key(
        live.table[key],
    ) && live.traces[live.table[key]] == key by {
        if key != remote {
            assert(reg.table.contains_key(key));
        }
    }
    assert forall|id: u32| #[trigger]
        live.traces.contains_key(id) && live.traces[id] == remote implies id == trace_id by {
        if id != trace_id {
            assert(reg.traces.contains_key(id));
        }
    }
    assert forall|key: SocketAddr| #[trigger]
        live.table.contains_key(key) && key.addr.ip_version == family && live.table[key]
            == trace_id implies key == remote by {
        if key != remote {
            assert(reg.table.contains_key(key));
        }
    }
    assert(closed.traces =~= reg.traces);
    assert(closed.table =~= reg.table);
}

/// The start and the end of a trace on one engine leave the other engine's
/// entries alone: a registry of another family that mirrors its share of the
/// filter table still does so afterwards.
pub proof fn law_other_family_untouched(
    reg: Registry,
    family: IPVersion,
    remote: SocketAddr,
    trace_id: u32,
    other: Map<u32, SocketAddr>,
    other_family: IPVersion,
)
    requires
        other_family != family,
        reg.start(family, remote, trace_id) is Ok,
        (Registry { traces: other, table: reg.table }).coupled(other_family),
    ensures
        ({
            let live = reg.start(family, remote, trace_id)->Ok_0;
            let closed = live.release(trace_id, remote);
            &&& (Registry { traces: other, table: live.table }).coupled(other_family)
            &&& (Registry { traces: other, table: closed.table }).coupled(other_family)
        }),
{
    let before = Registry { traces: other, table: reg.table };
    let live = reg.start(family, remote, trace_id)->Ok_0;
    let closed = live.release(trace_id, remote);
    let during = Registry { traces: other, table: live.table };
    let after = Registry { traces: other, table: closed.table };
    assert forall|id: u32| #[trigger] other.contains_key(id) implies other[id].addr.ip_version
        == other_family && during.table.contains_key(other[id]) && during.table[other[id]] == id
        && after.table.contains_key(other[id]) && after.table[other[id]] == id by {
        assert(before.traces.contains_key(id));
    }
    assert forall|key: SocketAddr| #[trigger]
        during.table.contains_key(key) && key.addr.ip_version == other_family implies other.contains_key(
        during.table[key],
    ) && other[during.table[key]] == key by {
        assert(before.table.contains_key(key));
    }
    assert forall|key: SocketAddr| #[trigger]
        after.table.contains_key(key) && key.addr.ip_version == other_family implies other.contains_key(
        after.table[key],
    ) && other[after.table[key]] == key by {
        assert(before.table.contains_key(key));
    }
}

/// Closing a trace keeps an engine's registry and its share of the filter
/// table mirrors of each other, whether or not the trace was live.
pub proof fn law_release_keeps_mirror(
    reg: Registry,
    family: IPVersion,
    trace_id: u32,
    key: SocketAddr,
)
    requires
        reg.coupled(family),
        key.addr.ip_version == family,
    ensures
        reg.release(trace_id, key).coupled(family),
        reg.traces.contains_key(trace_id) && reg.traces[trace_id] == key
            <==> reg.table.contains_key(key) && reg.table[key] == trace_id,
{
    let after = reg.release(trace_id, key);
    if reg.traces.contains_key(trace_id) && reg.traces[trace_id] == key {
        assert(reg.table.contains_key(key) && reg.table[key] == trace_id);
    }
    if reg.table.contains_key(key) && reg.table[key] == trace_id {
        assert(reg.traces.contains_key(trace_id) && reg.traces[trace_id] == key);
    }
    assert forall|id: u32| #[trigger] after.traces.contains_key(id) implies after.traces[id].addr.ip_version
        == family && after.table.contains_key(after.traces[id]) && after.table[after.traces[id]]
        == id by {
        assert(reg.traces.contains_key(id));
    }
    assert forall|k: SocketAddr| #[trigger]
        after.table.contains_key(k) && k.addr.ip_version == family implies after.traces.contains_key(
        after.table[k],
    ) && after.traces[after.table[k]] == k by {
        assert(reg.table.contains_key(k));
    }
}

/// Closing a trace of one family leaves the other engine's entries alone.
pub proof fn law_release_other_family_untouched(
    reg: Registry,
    trace_id: u32,
    key: SocketAddr,
    other: Map<u32, SocketAddr>,
    other_family: IPVersion,
)
    requires
        key.addr.ip_version != other_family,
        (Registry { traces: other, table: reg.table }).coupled(other_family),
    ensures
        (Registry { traces: other, table: reg.release(trace_id, key).table }).coupled(
            other_family,
        ),
{
    let before = Registry { traces: other, table: reg.table };
    let after = Registry { traces: other, table: reg.release(trace_id, key).table };
    assert forall|id: u32| #[trigger] other.contains_key(id) implies other[id].addr.ip_version
        == other_family && after.table.contains_key(other[id]) && after.table[other[id]]
        == id by {
        assert(before.traces.contains_key(id));
    }
    assert forall|k: SocketAddr| #[trigger]
        after.table.contains_key(k) && k.addr.ip_version == other_family implies other.contains_key(
        after.table[k],
    ) && other[after.table[k]] == k by {
        assert(before.table.contains_key(k));
    }
}

/// Live traces have ids of their own: when every one of a run of traces has
/// started, their ids differ from one another and from those that were live
/// before, and the engine has one more live id for each of them.
pub proof fn law_live_ids_are_distinct(
    reg: Registry,
    family: IPVersion,
    requests: Seq<(SocketAddr, u32)>,
)
    requires
        reg.traces.dom().finite(),
        reg.start_all(family, requests) is Some,
    ensures
        ({
            let after = reg.start_all(family, requests)->0;
            &&& after.traces.dom().finite()
            &&& after.traces.dom().len() == reg.traces.dom().len() + requests.len()
            &&& forall|i: int|
                0 <= i < requests.len() ==> !reg.traces.contains_key(#[trigger] requests[i].1)
                    && after.traces.contains_key(requests[i].1)
            &&& forall|i: int, j: int|
                0 <= i < j < requests.len() ==> #[trigger] requests[i].1 != #[trigger] requests[j].1
            &&& forall|id: u32| reg.traces.contains_key(id) ==> after.traces.contains_key(id)
        }),
    decreases requests.len(),
{
    if requests.len() > 0 {
        let head = requests.drop_last();
        law_live_ids_are_distinct(reg, family, head);
        let before = reg.start_all(family, head)->0;
        let after = reg.start_all(family, requests)->0;
        let last = requests.last();
        assert(after == before.register(last.1, last.0));
        assert(!before.traces.contains_key(last.1));
        assert(after.traces.dom() =~= before.traces.dom().insert(last.1));
        assert forall|i: int| 0 <= i < requests.len() implies !reg.traces.contains_key(
            #[trigger] requests[i].1,
        ) && after.traces.contains_key(requests[i].1) by {
            if i < head.len() {
                assert(head[i] == requests[i]);
            }
        }
        assert forall|i: int, j: int| 0 <= i < j < requests.len() implies #[trigger] requests[i].1
            != #[trigger] requests[j].1 by {
            assert(head[i] == requests[i]);
            if j < head.len() {
                assert(head[j] == requests[j]);
            }
        }
    }
}

/// An ACK ends the sweep exactly when it acknowledges what the flow had
/// acknowledged when the probe was made.
///
/// Let the flow's acknowledgment number be `sweep.ack_seq` when the probe
/// for `ttl` goes out. An ACK with that number is the answer to the probe:
/// it is reported as the last hop, from the peer, and the sweep is over. An
/// ACK with any other number reports nothing and leaves the sweep waiting:
/// only the flow's numbers are taken from it.
pub proof fn law_ack_matching(sweep: Sweep, ttl: u8, sent_ns: u64, event: TraceEvent)
    requires
        sweep.phase == (Phase::Sending { ttl }),
        event.event_type == TraceEventType::TcpAck,
    ensures
        ({
            let waiting = sweep.spec_step(Input::ProbeSent { sent_ns }).0;
            let (after, out) = waiting.spec_step(Input::Event(event));
            if event.ack_seq == sweep.ack_seq {
                &&& after.phase == Phase::Finished
                &&& out.directive == Directive::Done
                &&& out.hop == Some(
                    Hop {
                        ttl,
                        hop_type: HopType::TcpAck,
                        addr: Some(sweep.remote.addr),
                        rtt: Some(spec_elapsed(event.arrival, sent_ns)),
                        enriched_info: None,
                    },
                )
            } else {
                &&& after.phase == waiting.phase
                &&& after.ack_seq == event.ack_seq
                &&& after.seq == event.seq
                &&& out.hop is None
                &&& out.directive == (Directive::Await { rearm: None })
            }
        }),
{
}

/// Every event that the classifier publishes is of a family, IPv4 or
/// IPv6, as is the address it names; it bears the arrival time that the classifier was given and the id
/// of a trace in the filter table; and a frame too short to classify
/// publishes nothing.
pub proof fn law_events_have_a_family(
    frame: Seq<u8>,
    arrival: u64,
    config: EbpfConfig,
    traces: Map<SocketAddr, u32>,
)
    ensures
        match classify_event(frame, arrival, config, traces) {
            Ok(Some(event)) => {
                &&& event.ip_version != IPVersion::EMPTY
                &&& event.addr.ip_version != IPVersion::EMPTY
                &&& event.arrival == arrival
                &&& exists|key: SocketAddr| #[trigger]
                    traces.contains_key(key) && traces[key] == event.trace_id
                &&& frame.len() >= 54
            },
            Ok(None) => true,
            Err(_) => frame.len() < 110,
        },
{
    match classify_frame(frame, config) {
        Classification::Candidate(c) => {
            if traces.contains_key(c.key) {
                assert(traces[c.key] == c.spec_event(arrival, traces[c.key]).trace_id);
            }
        },
        _ => {},
    }
}

/// A probe's identity comes back in the Time Exceeded that answers it,
/// over IPv4.
///
/// Let `packet` hold the headers of `probe` where an IPv4 packet holds
/// them, let the listener that `config` describes be the probe's source,
/// and let `frame` be an Ethernet frame to the listener with an ICMP Time
/// Exceeded that quotes the first 28 bytes of `packet`. Then the classifier
/// finds the trace under the probe's destination and publishes a Time
/// Exceeded event for it whose `ttl` is the probe's.
pub proof fn law_identity_round_trip_v4(
    probe: Probe,
    packet: Seq<u8>,
    frame: Seq<u8>,
    arrival: u64,
    config: EbpfConfig,
    traces: Map<SocketAddr, u32>,
)
    requires
        probe.spec_headers() is Some,
        probe.source.addr.ip_version == IPVersion::IPV4,
        probe.destination.addr.wf(),
        probe.spec_headers()->0.laid_out(Probe::spec_payload(), packet),
        config.local_v4() == Some(probe.source.addr.addr@.subrange(0, 4)),
        config.spec_port() == probe.source.port,
        traces.contains_key(probe.destination),
        frame.len() >= 70,
        from_be16(frame, 12) == ETHER_TYPE_IPV4,
        frame[23] == IP_PROTO_ICMP,
        config.local_v4() == Some(frame.subrange(30, 34)),
        frame[34] == ICMP_TIME_EXCEEDED,
        frame.subrange(42, 70) == packet.subrange(0, 28),
    ensures
        classify_event(frame, arrival, config, traces) == Ok::<
            Option<TraceEvent>,
            Malformed,
        >(
            Some(
                TraceEvent {
                    arrival,
                    trace_id: traces[probe.destination],
                    ack_seq: 0,
                    seq: 0,
                    event_type: TraceEventType::IcmpTimeExceeded,
                    ip_version: IPVersion::IPV4,
                    ttl: probe.ttl,
                    addr: IPAddr::spec_v4(frame.subrange(26, 30)),
                },
            ),
        ),
{
    let quote = frame.subrange(42, 70);
    assert forall|i: int| 0 <= i < 28 implies frame[42 + i] == packet[i] by {
        assert(quote[i] == frame[42 + i]);
        assert(packet.subrange(0, 28)[i] == packet[i]);
    }
    match probe.spec_headers()->0 {
        ProbeHeaders::V4(ip, tcp) => {
            let source = probe.source.addr.addr@.subrange(0, 4);
            let destination = probe.destination.addr.addr@.subrange(0, 4);
            lemma_array4_holds(source);
            lemma_array4_holds(destination);
            assert(frame.subrange(54, 58) =~= packet.subrange(12, 16));
            assert(frame.subrange(58, 62) =~= packet.subrange(16, 20));
            assert(frame[51] == packet[9]);
            assert(frame[46] == packet[4]);
            assert(frame[47] == packet[5]);
            assert(frame[62] == packet[20]);
            assert(frame[63] == packet[21]);
            assert(frame[64] == packet[22]);
            assert(frame[65] == packet[23]);
            assert(IPAddr::v4_buffer(destination) =~= probe.destination.addr.addr@);
            lemma_array_of(probe.destination.addr.addr);
            assert(IPAddr::spec_v4(frame.subrange(58, 62)) == probe.destination.addr);
        },
        ProbeHeaders::V6(_, _) => {},
    }
}

/// A probe's identity comes back in the Time Exceeded that answers it,
/// over IPv6.
///
/// Let `packet` hold the headers of `probe` where an IPv6 packet holds
/// them, let the listener that `config` describes be the probe's source,
/// and let `frame` be an Ethernet frame to the listener with an ICMPv6 Time
/// Exceeded that quotes the first 48 bytes of `packet`. Then the classifier
/// finds the trace under the probe's destination and publishes a Time
/// Exceeded event for it whose `ttl` is the probe's.
pub proof fn law_identity_round_trip_v6(
    probe: Probe,
    packet: Seq<u8>,
    frame: Seq<u8>,
    arrival: u64,
    config: EbpfConfig,
    traces: Map<SocketAddr, u32>,
)
    requires
        probe.spec_headers() is Some,
        probe.source.addr.ip_version == IPVersion::IPV6,
        probe.spec_headers()->0.laid_out(Probe::spec_payload(), packet),
        config.local_v6() == Some(probe.source.addr.addr@),
        config.spec_port() == probe.source.port,
        traces.contains_key(probe.destination),
        frame.len() >= 110,
        from_be16(frame, 12) == ETHER_TYPE_IPV6,
        frame[20] == IP_PROTO_ICMPV6,
        config.local_v6() == Some(frame.subrange(38, 54)),
        frame[54] == ICMPV6_TIME_EXCEEDED,
        frame.subrange(62, 110) == packet.subrange(0, 48),
    ensures
        classify_event(frame, arrival, config, traces) == Ok::<
            Option<TraceEvent>,
            Malformed,
        >(
            Some(
                TraceEvent {
                    arrival,
                    trace_id: traces[probe.destination],
                    ack_seq: 0,
                    seq: 0,
                    event_type: TraceEventType::IcmpTimeExceeded,
                    ip_version: IPVersion::IPV6,
                    ttl: probe.ttl,
                    addr: IPAddr::spec_v6(frame.subrange(22, 38)),
                },
            ),
        ),
{
    let quote = frame.subrange(62, 110);
    assert forall|i: int| 0 <= i < 48 implies frame[62 + i] == packet[i] by {
        assert(quote[i] == frame[62 + i]);
        assert(packet.subrange(0, 48)[i] == packet[i]);
    }
    match probe.spec_headers()->0 {
        ProbeHeaders::V6(ip, tcp) => {
            assert(frame.subrange(70, 86) =~= packet.subrange(8, 24));
            assert(frame.subrange(86, 102) =~= packet.subrange(24, 40));
            assert(frame[68] == packet[6]);
            assert(frame[65] == packet[3]);
            assert(frame[102] == packet[40]);
            assert(frame[103] == packet[41]);
            assert(frame[104] == packet[42]);
            assert(frame[105] == packet[43]);
            lemma_array_of(probe.destination.addr.addr);
            assert(IPAddr::spec_v6(frame.subrange(86, 102)) == probe.destination.addr);
        },
        ProbeHeaders::V4(_, _) => {},
    }
}

} // verus!
