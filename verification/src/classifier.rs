//! The ingress classifier: which frames matter to a running trace, and what
//! each of them tells the trace engine.
//!
//! A frame is looked at as bytes. Every read is preceded by a check that the
//! header it belongs to lies inside the frame; a frame that fails one is
//! malformed and yields no event. IPv4 headers are taken to be 20 bytes and
//! IPv6 headers 40: options and extension headers are not followed.

use crate::trace_map::TraceMap;
use crate::wire::{
    be16, be32, from_be16, read_be16, read_be32, take16, EbpfConfig, IPAddr, IPVersion,
    SocketAddr, TraceEvent, TraceEventType,
};
use vstd::prelude::*;

verus! {

/// Length of an Ethernet header.
pub const ETH_HDR_LEN: usize = 14;

/// Length of an IPv4 header without options.
pub const IPV4_HDR_LEN: usize = 20;

/// Length of an IPv6 header.
pub const IPV6_HDR_LEN: usize = 40;

/// Length of a TCP header without options.
pub const TCP_HDR_LEN: usize = 20;

/// Length of an ICMP or ICMPv6 header.
pub const ICMP_HDR_LEN: usize = 8;

/// How much of a quoted TCP header is read: the ports and the sequence number.
pub const TCP_QUOTE_LEN: usize = 8;

pub const ETHER_TYPE_IPV4: u16 = 0x0800;

pub const ETHER_TYPE_IPV6: u16 = 0x86DD;

pub const IP_PROTO_ICMP: u8 = 1;

pub const IP_PROTO_TCP: u8 = 6;

pub const IP_PROTO_ICMPV6: u8 = 58;

/// ICMP type "Time Exceeded".
pub const ICMP_TIME_EXCEEDED: u8 = 11;

/// ICMPv6 type "Time Exceeded".
pub const ICMPV6_TIME_EXCEEDED: u8 = 3;

/// The ACK bit in the flags byte of a TCP header.
pub const TCP_FLAG_ACK: u8 = 0x10;

/// The RST bit in the flags byte of a TCP header.
pub const TCP_FLAG_RST: u8 = 0x04;

/// A frame that was cut short inside a header the classifier had to read.
#[derive(Debug, Copy, Clone, PartialEq, Eq, Structural)]
pub struct Malformed;

/// What a hook can tell the interface about a frame. The classifier
/// observes: its verdict is `Pass` for every frame, also for one that it
/// cannot read.
#[derive(Debug, Copy, Clone, PartialEq, Eq, Structural)]
pub enum Verdict {
    /// The frame goes on to the network stack.
    Pass,
    /// The frame is dropped as the result of a fault.
    Aborted,
}

/// A frame of interest before the filter table has been asked: the key to
/// look up, and the event to publish if a trace owns that key.
#[derive(Debug, Copy, Clone, PartialEq, Eq)]
pub struct Candidate {
    pub key: SocketAddr,
    pub event_type: TraceEventType,
    pub ip_version: IPVersion,
    pub ack_seq: u32,
    pub seq: u32,
    pub ttl: u8,
    pub addr: IPAddr,
}

impl Candidate {
    /// The event that this candidate becomes for the trace that owns its key.
    pub open spec fn spec_event(self, arrival: u64, trace_id: u32) -> TraceEvent {
        TraceEvent {
            arrival,
            trace_id,
            ack_seq: self.ack_seq,
            seq: self.seq,
            event_type: self.event_type,
            ip_version: self.ip_version,
            ttl: self.ttl,
            addr: self.addr,
        }
    }

    #[verifier::when_used_as_spec(spec_event)]
    pub fn event(self, arrival: u64, trace_id: u32) -> (r: TraceEvent)
        ensures
            r == self.spec_event(arrival, trace_id),
    {
        TraceEvent {
            arrival,
            trace_id,
            ack_seq: self.ack_seq,
            seq: self.seq,
            event_type: self.event_type,
            ip_version: self.ip_version,
            ttl: self.ttl,
            addr: self.addr,
        }
    }
}

/// The classifier's reading of one frame.
#[derive(Debug, Copy, Clone, PartialEq, Eq)]
pub enum Classification {
    /// A header that had to be read does not fit in the frame.
    Malformed,
    /// The frame is of no interest to any trace.
    Ignored,
    /// The frame is of interest to the trace that owns the key, if any does.
    Candidate(Candidate),
}

/// A TCP segment to the local listener with ACK or RST set, whose TCP header
/// starts at `l4`, from `src`.
pub open spec fn classify_tcp(
    frame: Seq<u8>,
    config: EbpfConfig,
    family: IPVersion,
    l4: usize,
    src: IPAddr,
) -> Classification {
    if frame.len() < l4 + TCP_HDR_LEN {
        Classification::Malformed
    } else if from_be16(frame, l4 + 2) != config.spec_port() {
        Classification::Ignored
    } else if frame[l4 + 13] & TCP_FLAG_ACK == 0 && frame[l4 + 13] & TCP_FLAG_RST == 0 {
        Classification::Ignored
    } else {
        Classification::Candidate(
            Candidate {
                key: SocketAddr { port: be16(frame, l4 + 0), addr: src },
                event_type: if frame[l4 + 13] & TCP_FLAG_ACK != 0 {
                    TraceEventType::TcpAck
                } else {
                    TraceEventType::TcpRst
                },
                ip_version: family,
                ack_seq: be32(frame, l4 + 8),
                seq: be32(frame, l4 + 4),
                ttl: 0,
                addr: src,
            },
        )
    }
}

/// An ICMP Time Exceeded from `src`, whose ICMP header starts at `l4`, that
/// quotes a TCP segment sent by the local listener over IPv4. The probe's
/// identity is the low byte of the quoted header's identification field.
pub open spec fn classify_time_exceeded_v4(
    frame: Seq<u8>,
    config: EbpfConfig,
    l4: usize,
    src: IPAddr,
) -> Classification {
    let inner = l4 + ICMP_HDR_LEN;
    let quoted = inner + IPV4_HDR_LEN;
    if frame.len() < l4 + ICMP_HDR_LEN {
        Classification::Malformed
    } else if frame[l4 + 0] != ICMP_TIME_EXCEEDED {
        Classification::Ignored
    } else if frame.len() < inner + IPV4_HDR_LEN {
        Classification::Malformed
    } else if frame[inner + 9] != IP_PROTO_TCP || config.local_v4() != Some(
        frame.subrange(inner + 12, inner + 16),
    ) {
        Classification::Ignored
    } else if frame.len() < quoted + TCP_QUOTE_LEN {
        Classification::Malformed
    } else if from_be16(frame, quoted) != config.spec_port() {
        Classification::Ignored
    } else {
        Classification::Candidate(
            Candidate {
                key: SocketAddr {
                    port: be16(frame, quoted + 2),
                    addr: IPAddr::spec_v4(frame.subrange(inner + 16, inner + 20)),
                },
                event_type: TraceEventType::IcmpTimeExceeded,
                ip_version: IPVersion::IPV4,
                ack_seq: 0,
                seq: 0,
                ttl: frame[inner + 5],
                addr: src,
            },
        )
    }
}

/// An ICMPv6 Time Exceeded from `src`, whose ICMPv6 header starts at `l4`,
/// that quotes a TCP segment sent by the local listener over IPv6. The
/// probe's identity is the last byte of the quoted header's flow label.
pub open spec fn classify_time_exceeded_v6(
    frame: Seq<u8>,
    config: EbpfConfig,
    l4: usize,
    src: IPAddr,
) -> Classification {
    let inner = l4 + ICMP_HDR_LEN;
    let quoted = inner + IPV6_HDR_LEN;
    if frame.len() < l4 + ICMP_HDR_LEN {
        Classification::Malformed
    } else if frame[l4 + 0] != ICMPV6_TIME_EXCEEDED {
        Classification::Ignored
    } else if frame.len() < inner + IPV6_HDR_LEN {
        Classification::Malformed
    } else if frame[inner + 6] != IP_PROTO_TCP || config.local_v6() != Some(
        frame.subrange(inner + 8, inner + 24),
    ) {
        Classification::Ignored
    } else if frame.len() < quoted + TCP_QUOTE_LEN {
        Classification::Malformed
    } else if from_be16(frame, quoted) != config.spec_port() {
        Classification::Ignored
    } else {
        Classification::Candidate(
            Candidate {
                key: SocketAddr {
                    port: be16(frame, quoted + 2),
                    addr: IPAddr::spec_v6(frame.subrange(inner + 24, inner + 40)),
                },
                event_type: TraceEventType::IcmpTimeExceeded,
                ip_version: IPVersion::IPV6,
                ack_seq: 0,
                seq: 0,
                ttl: frame[inner + 3],
                addr: src,
            },
        )
    }
}

/// What follows the network header, by protocol number.
pub open spec fn classify_transport(
    frame: Seq<u8>,
    config: EbpfConfig,
    family: IPVersion,
    protocol: u8,
    l4: usize,
    src: IPAddr,
) -> Classification {
    if protocol == IP_PROTO_TCP {
        classify_tcp(frame, config, family, l4, src)
    } else if protocol == IP_PROTO_ICMP {
        classify_time_exceeded_v4(frame, config, l4, src)
    } else if protocol == IP_PROTO_ICMPV6 {
        classify_time_exceeded_v6(frame, config, l4, src)
    } else {
        Classification::Ignored
    }
}

/// The classification of an Ethernet frame: only IPv4 and IPv6 packets to
/// the local address of their family are looked into.
pub open spec fn classify_frame(frame: Seq<u8>, config: EbpfConfig) -> Classification {
    let l3 = ETH_HDR_LEN as int;
    if frame.len() < ETH_HDR_LEN {
        Classification::Malformed
    } else if from_be16(frame, 12) == ETHER_TYPE_IPV4 {
        if frame.len() < l3 + IPV4_HDR_LEN {
            Classification::Malformed
        } else if config.local_v4() != Some(frame.subrange(l3 + 16, l3 + 20)) {
            Classification::Ignored
        } else {
            classify_transport(
                frame,
                config,
                IPVersion::IPV4,
                frame[l3 + 9],
                (ETH_HDR_LEN + IPV4_HDR_LEN) as usize,
                IPAddr::spec_v4(frame.subrange(l3 + 12, l3 + 16)),
            )
        }
    } else if from_be16(frame, 12) == ETHER_TYPE_IPV6 {
        if frame.len() < l3 + IPV6_HDR_LEN {
            Classification::Malformed
        } else if config.local_v6() != Some(frame.subrange(l3 + 24, l3 + 40)) {
            Classification::Ignored
        } else {
            classify_transport(
                frame,
                config,
                IPVersion::IPV6,
                frame[l3 + 6],
                (ETH_HDR_LEN + IPV6_HDR_LEN) as usize,
                IPAddr::spec_v6(frame.subrange(l3 + 8, l3 + 24)),
            )
        }
    } else {
        Classification::Ignored
    }
}

/// What the classifier publishes for a frame that arrived at `arrival`,
/// with `traces` as the filter table: the candidate's event, stamped with
/// the arrival time and the id of the trace that owns the candidate's key.
pub open spec fn classify_event(
    frame: Seq<u8>,
    arrival: u64,
    config: EbpfConfig,
    traces: Map<SocketAddr, u32>,
) -> Result<Option<TraceEvent>, Malformed> {
    match classify_frame(frame, config) {
        Classification::Malformed => Err(Malformed),
        Classification::Ignored => Ok(None),
        Classification::Candidate(c) => if traces.contains_key(c.key) {
            Ok(Some(c.spec_event(arrival, traces[c.key])))
        } else {
            Ok(None)
        },
    }
}

/// Four bytes of `frame` starting at `at`, as an IPv4 address.
fn v4_at(frame: &[u8], at: usize) -> (r: IPAddr)
    requires
        at + 4 <= frame@.len(),
    ensures
        r == IPAddr::spec_v4(frame@.subrange(at as int, at + 4)),
{
    let short = [frame[at], frame[at + 1], frame[at + 2], frame[at + 3]];
    assert(short@ =~= frame@.subrange(at as int, at + 4));
    IPAddr::new_v4(short)
}

/// Sixteen bytes of `frame` starting at `at`, as an IPv6 address.
fn v6_at(frame: &[u8], at: usize) -> (r: IPAddr)
    requires
        at + 16 <= frame@.len(),
    ensures
        r == IPAddr::spec_v6(frame@.subrange(at as int, at + 16)),
{
    IPAddr::new_v6(take16(frame, at))
}

fn tcp_segment(frame: &[u8], config: &EbpfConfig, family: IPVersion, l4: usize, src: IPAddr) -> (r:
    Classification)
    requires
        l4 <= 54,
    ensures
        r == classify_tcp(frame@, *config, family, l4, src),
{
    if frame.len() < l4 + TCP_HDR_LEN {
        return Classification::Malformed;
    }
    if read_be16(frame, l4 + 2) != config.port() {
        return Classification::Ignored;
    }
    let flags: u8 = frame[l4 + 13];
    if flags & TCP_FLAG_ACK == 0 && flags & TCP_FLAG_RST == 0 {
        return Classification::Ignored;
    }
    Classification::Candidate(
        Candidate {
            key: SocketAddr { port: read_be16(frame, l4), addr: src },
            event_type: if flags & TCP_FLAG_ACK != 0 {
                TraceEventType::TcpAck
            } else {
                TraceEventType::TcpRst
            },
            ip_version: family,
            ack_seq: read_be32(frame, l4 + 8),
            seq: read_be32(frame, l4 + 4),
            ttl: 0,
            addr: src,
        },
    )
}

fn time_exceeded_v4(frame: &[u8], config: &EbpfConfig, l4: usize, src: IPAddr) -> (r:
    Classification)
    requires
        l4 <= 54,
    ensures
        r == classify_time_exceeded_v4(frame@, *config, l4, src),
{
    let inner: usize = l4 + ICMP_HDR_LEN;
    let quoted: usize = inner + IPV4_HDR_LEN;
    if frame.len() < l4 + ICMP_HDR_LEN {
        return Classification::Malformed;
    }
    if frame[l4] != ICMP_TIME_EXCEEDED {
        return Classification::Ignored;
    }
    if frame.len() < inner + IPV4_HDR_LEN {
        return Classification::Malformed;
    }
    if frame[inner + 9] != IP_PROTO_TCP || !config.is_local_v4(frame, inner + 12) {
        return Classification::Ignored;
    }
    if frame.len() < quoted + TCP_QUOTE_LEN {
        return Classification::Malformed;
    }
    if read_be16(frame, quoted) != config.port() {
        return Classification::Ignored;
    }
    Classification::Candidate(
        Candidate {
            key: SocketAddr { port: read_be16(frame, quoted + 2), addr: v4_at(frame, inner + 16) },
            event_type: TraceEventType::IcmpTimeExceeded,
            ip_version: IPVersion::IPV4,
            ack_seq: 0,
            seq: 0,
            ttl: frame[inner + 5],
            addr: src,
        },
    )
}

fn time_exceeded_v6(frame: &[u8], config: &EbpfConfig, l4: usize, src: IPAddr) -> (r:
    Classification)
    requires
        l4 <= 54,
    ensures
        r == classify_time_exceeded_v6(frame@, *config, l4, src),
{
    let inner: usize = l4 + ICMP_HDR_LEN;
    let quoted: usize = inner + IPV6_HDR_LEN;
    if frame.len() < l4 + ICMP_HDR_LEN {
        return Classification::Malformed;
    }
    if frame[l4] != ICMPV6_TIME_EXCEEDED {
        return Classification::Ignored;
    }
    if frame.len() < inner + IPV6_HDR_LEN {
        return Classification::Malformed;
    }
    if frame[inner + 6] != IP_PROTO_TCP || !config.is_local_v6(frame, inner + 8) {
        return Classification::Ignored;
    }
    if frame.len() < quoted + TCP_QUOTE_LEN {
        return Classification::Malformed;
    }
    if read_be16(frame, quoted) != config.port() {
        return Classification::Ignored;
    }
    Classification::Candidate(
        Candidate {
            key: SocketAddr { port: read_be16(frame, quoted + 2), addr: v6_at(frame, inner + 24) },
            event_type: TraceEventType::IcmpTimeExceeded,
            ip_version: IPVersion::IPV6,
            ack_seq: 0,
            seq: 0,
            ttl: frame[inner + 3],
            addr: src,
        },
    )
}

fn transport(
    frame: &[u8],
    config: &EbpfConfig,
    family: IPVersion,
    protocol: u8,
    l4: usize,
    src: IPAddr,
) -> (r: Classification)
    requires
        l4 <= 54,
    ensures
        r == classify_transport(frame@, *config, family, protocol, l4, src),
{
    if protocol == IP_PROTO_TCP {
        tcp_segment(frame, config, family, l4, src)
    } else if protocol == IP_PROTO_ICMP {
        time_exceeded_v4(frame, config, l4, src)
    } else if protocol == IP_PROTO_ICMPV6 {
        time_exceeded_v6(frame, config, l4, src)
    } else {
        Classification::Ignored
    }
}

/// Reads one Ethernet frame against the listener's configuration.
pub fn classify(frame: &[u8], config: &EbpfConfig) -> (r: Classification)
    ensures
        r == classify_frame(frame@, *config),
{
    if frame.len() < ETH_HDR_LEN {
        return Classification::Malformed;
    }
    let ether_type: u16 = read_be16(frame, 12);
    if ether_type == ETHER_TYPE_IPV4 {
        if frame.len() < ETH_HDR_LEN + IPV4_HDR_LEN {
            return Classification::Malformed;
        }
        if !config.is_local_v4(frame, ETH_HDR_LEN + 16) {
            return Classification::Ignored;
        }
        transport(
            frame,
            config,
            IPVersion::IPV4,
            frame[ETH_HDR_LEN + 9],
            ETH_HDR_LEN + IPV4_HDR_LEN,
            v4_at(frame, ETH_HDR_LEN + 12),
        )
    } else if ether_type == ETHER_TYPE_IPV6 {
        if frame.len() < ETH_HDR_LEN + IPV6_HDR_LEN {
            return Classification::Malformed;
        }
        if !config.is_local_v6(frame, ETH_HDR_LEN + 24) {
            return Classification::Ignored;
        }
        transport(
            frame,
            config,
            IPVersion::IPV6,
            frame[ETH_HDR_LEN + 6],
            ETH_HDR_LEN + IPV6_HDR_LEN,
            v6_at(frame, ETH_HDR_LEN + 8),
        )
    } else {
        Classification::Ignored
    }
}

/// Classifies one frame that arrived at `arrival` and, where a trace owns
/// its key, returns the event to publish for that trace.
pub fn try_inband_traceroute(
    frame: &[u8],
    arrival: u64,
    config: &EbpfConfig,
    traces: &TraceMap,
) -> (r: Result<Option<TraceEvent>, Malformed>)
    requires
        traces.wf(),
    ensures
        r == classify_event(frame@, arrival, *config, traces@),
{
    match classify(frame, config) {
        Classification::Malformed => Err(Malformed),
        Classification::Ignored => Ok(None),
        Classification::Candidate(c) => match traces.get(&c.key) {
            Some(trace_id) => Ok(Some(c.event(arrival, trace_id))),
            None => Ok(None),
        },
    }
}

/// What the classifier publishes for a frame: the event of
/// [`classify_event`], and nothing for a malformed frame.
pub open spec fn published_event(
    frame: Seq<u8>,
    arrival: u64,
    config: EbpfConfig,
    traces: Map<SocketAddr, u32>,
) -> Option<TraceEvent> {
    match classify_event(frame, arrival, config, traces) {
        Ok(event) => event,
        Err(_) => None,
    }
}

/// The classifier's entry point: the verdict for the interface and the
/// event to publish, if any. Every frame passes; a malformed frame
/// publishes nothing.
pub fn inband_traceroute(frame: &[u8], arrival: u64, config: &EbpfConfig, traces: &TraceMap) -> (r:
    (Verdict, Option<TraceEvent>))
    requires
        traces.wf(),
    ensures
        r.0 == Verdict::Pass,
        r.1 == published_event(frame@, arrival, *config, traces@),
{
    match try_inband_traceroute(frame, arrival, config, traces) {
        Ok(event) => (Verdict::Pass, event),
        Err(_) => (Verdict::Pass, None),
    }
}

} // verus!
