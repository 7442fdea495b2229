//! Probes: the TCP segments that a trace sends with a limited TTL, and their
//! encoding as raw IP packets.
//!
//! A probe repeats one byte that the peer has already acknowledged. A router
//! that lets its TTL run out answers with a Time Exceeded that quotes the
//! probe's IP header and the start of its TCP header; the probe's identity
//! therefore travels in the IP header: in the identification field over
//! IPv4, in the flow label over IPv6.

use crate::wire::{from_be16, from_be32, IPVersion, SocketAddr};
use etherparse::{IpHeaders, Ipv4Header, Ipv6FlowLabel, Ipv6Header, PacketBuilder, TcpHeader};
use vstd::prelude::*;

verus! {

/// The window that every probe advertises.
pub const PROBE_WINDOW: u16 = 0xffff;

/// The largest flow label: 20 bits.
pub const MAX_FLOW_LABEL: u32 = 0xf_ffff;

/// The most bytes that a TCP segment without options can carry over IPv4.
pub const MAX_IPV4_TCP_PAYLOAD: usize = 65_495;

/// The most bytes that a TCP segment without options can carry over IPv6.
pub const MAX_IPV6_TCP_PAYLOAD: usize = 65_515;

/// The fields of an IPv4 header that a probe sets. The header has no
/// options; its other fields are zero or follow from the packet.
#[derive(Debug, Clone, Copy, PartialEq, Eq)]
pub struct Ipv4Fields {
    pub source: [u8; 4],
    pub destination: [u8; 4],
    pub time_to_live: u8,
    pub identification: u16,
    pub dont_fragment: bool,
}

/// The fields of an IPv6 header that a probe sets. The traffic class is
/// zero; the other fields follow from the packet.
#[derive(Debug, Clone, Copy, PartialEq, Eq)]
pub struct Ipv6Fields {
    pub source: [u8; 16],
    pub destination: [u8; 16],
    pub hop_limit: u8,
    pub flow_label: u32,
}

/// The fields of a TCP header that a probe sets. The header has no
/// options; flags not named here are clear and the urgent pointer is zero.
#[derive(Debug, Clone, Copy, PartialEq, Eq, Structural)]
pub struct TcpFields {
    pub source_port: u16,
    pub destination_port: u16,
    pub sequence_number: u32,
    pub acknowledgment_number: u32,
    pub window_size: u16,
    pub psh: bool,
    pub ack: bool,
}

/// The headers of a probe, by address family.
#[derive(Debug, Clone, Copy, PartialEq, Eq)]
pub enum ProbeHeaders {
    V4(Ipv4Fields, TcpFields),
    V6(Ipv6Fields, TcpFields),
}

/// The bytes of the packet that an IPv4 header, a TCP header and a payload
/// make: the two checksums included.
pub uninterp spec fn ipv4_tcp_packet(ip: Ipv4Fields, tcp: TcpFields, payload: Seq<u8>) -> Seq<u8>;

/// The bytes of the packet that an IPv6 header, a TCP header and a payload
/// make: the TCP checksum included.
pub uninterp spec fn ipv6_tcp_packet(ip: Ipv6Fields, tcp: TcpFields, payload: Seq<u8>) -> Seq<u8>;

/// The flags byte of a TCP header in which PSH and ACK are as given and
/// every other flag is clear.
pub open spec fn tcp_flags_byte(tcp: TcpFields) -> int {
    (if tcp.psh {
        8int
    } else {
        0
    }) + (if tcp.ack {
        16int
    } else {
        0
    })
}

/// Where a TCP header of 20 bytes that starts at `at`, and the payload
/// behind it, hold what: everything but the checksum.
pub open spec fn tcp_layout(tcp: TcpFields, payload: Seq<u8>, b: Seq<u8>, at: int) -> bool {
    &&& b.len() == at + 20 + payload.len()
    &&& from_be16(b, at) == tcp.source_port
    &&& from_be16(b, at + 2) == tcp.destination_port
    &&& from_be32(b, at + 4) == tcp.sequence_number
    &&& from_be32(b, at + 8) == tcp.acknowledgment_number
    &&& b[at + 12] == 0x50
    &&& b[at + 13] == tcp_flags_byte(tcp)
    &&& from_be16(b, at + 14) == tcp.window_size
    &&& from_be16(b, at + 18) == 0
    &&& b.subrange(at + 20, b.len() as int) == payload
}

/// Where an IPv4 packet with a TCP segment holds what: a header of 20
/// bytes, the TCP header behind it, then the payload. The two checksums
/// are not described.
pub open spec fn ipv4_tcp_layout(ip: Ipv4Fields, tcp: TcpFields, payload: Seq<u8>, b: Seq<u8>) -> bool {
    &&& b[0] == 0x45
    &&& b[1] == 0
    &&& from_be16(b, 2) == 40 + payload.len()
    &&& from_be16(b, 4) == ip.identification
    &&& b[6] == (if ip.dont_fragment {
        0x40int
    } else {
        0
    })
    &&& b[7] == 0
    &&& b[8] == ip.time_to_live
    &&& b[9] == 6
    &&& b.subrange(12, 16) == ip.source@
    &&& b.subrange(16, 20) == ip.destination@
    &&& tcp_layout(tcp, payload, b, 20)
}

/// Where an IPv6 packet with a TCP segment holds what: a header of 40
/// bytes, the TCP header behind it, then the payload. The TCP checksum is
/// not described.
pub open spec fn ipv6_tcp_layout(ip: Ipv6Fields, tcp: TcpFields, payload: Seq<u8>, b: Seq<u8>) -> bool {
    &&& b[0] == 0x60
    &&& b[1] == ip.flow_label / 0x1_0000
    &&& b[2] == (ip.flow_label / 0x100) % 0x100
    &&& b[3] == ip.flow_label % 0x100
    &&& from_be16(b, 4) == 20 + payload.len()
    &&& b[6] == 6
    &&& b[7] == ip.hop_limit
    &&& b.subrange(8, 24) == ip.source@
    &&& b.subrange(24, 40) == ip.destination@
    &&& tcp_layout(tcp, payload, b, 40)
}

/// `etherparse::PacketBuilder::ip(..).tcp_header(..).write(..)` with an
/// IPv4 header: an `Ipv4Header` without options and a `TcpHeader` without
/// options are filled from `ip` and `tcp`; the builder sets the total
/// length and the protocol, computes both checksums and writes the two
/// headers and the payload. The contract names the bytes written and says
/// where they hold the fields, as `Ipv4Header::to_bytes` and
/// `TcpHeader::to_bytes` lay them out. Writing fails only for a payload too
/// long for the total-length field, which `requires` leaves out.
#[verifier::external_body]
fn write_ipv4_tcp(ip: &Ipv4Fields, tcp: &TcpFields, payload: &[u8]) -> (r: Vec<u8>)
    requires
        payload@.len() <= MAX_IPV4_TCP_PAYLOAD,
    ensures
        r@ == ipv4_tcp_packet(*ip, *tcp, payload@),
        ipv4_tcp_layout(*ip, *tcp, payload@, r@),
{
    let mut ip_header = Ipv4Header { source: ip.source, destination: ip.destination, ..Default::default() };
    ip_header.time_to_live = ip.time_to_live;
    ip_header.identification = ip.identification;
    ip_header.dont_fragment = ip.dont_fragment;
    let mut tcp_header = TcpHeader::new(tcp.source_port, tcp.destination_port, tcp.sequence_number, tcp.window_size);
    tcp_header.acknowledgment_number = tcp.acknowledgment_number;
    tcp_header.psh = tcp.psh;
    tcp_header.ack = tcp.ack;
    let builder = PacketBuilder::ip(IpHeaders::Ipv4(ip_header, Default::default())).tcp_header(tcp_header);
    let mut out = Vec::with_capacity(builder.size(payload.len()));
    builder.write(&mut out, payload).unwrap();
    out
}

/// `etherparse::PacketBuilder::ip(..).tcp_header(..).write(..)` with an
/// IPv6 header: an `Ipv6Header` with traffic class zero and a `TcpHeader`
/// without options are filled from `ip` and `tcp`; the builder sets the
/// payload length and the next header, computes the TCP checksum and
/// writes the two headers and the payload. The contract names the bytes
/// written and says where they hold the fields, as `Ipv6Header::to_bytes`
/// and `TcpHeader::to_bytes` lay them out. `Ipv6FlowLabel::try_new` fails
/// for a label of more than 20 bits and writing for a payload too long for
/// the payload-length field: `requires` leaves both out.
#[verifier::external_body]
fn write_ipv6_tcp(ip: &Ipv6Fields, tcp: &TcpFields, payload: &[u8]) -> (r: Vec<u8>)
    requires
        ip.flow_label <= MAX_FLOW_LABEL,
        payload@.len() <= MAX_IPV6_TCP_PAYLOAD,
    ensures
        r@ == ipv6_tcp_packet(*ip, *tcp, payload@),
        ipv6_tcp_layout(*ip, *tcp, payload@, r@),
{
    let mut ip_header = Ipv6Header { source: ip.source, destination: ip.destination, ..Default::default() };
    ip_header.hop_limit = ip.hop_limit;
    ip_header.flow_label = Ipv6FlowLabel::try_new(ip.flow_label).unwrap();
    let mut tcp_header = TcpHeader::new(tcp.source_port, tcp.destination_port, tcp.sequence_number, tcp.window_size);
    tcp_header.acknowledgment_number = tcp.acknowledgment_number;
    tcp_header.psh = tcp.psh;
    tcp_header.ack = tcp.ack;
    let builder = PacketBuilder::ip(IpHeaders::Ipv6(ip_header, Default::default())).tcp_header(tcp_header);
    let mut out = Vec::with_capacity(builder.size(payload.len()));
    builder.write(&mut out, payload).unwrap();
    out
}

impl ProbeHeaders {
    /// Whether the headers can be written in front of `payload`.
    pub open spec fn fits(self, payload: Seq<u8>) -> bool {
        match self {
            ProbeHeaders::V4(_, _) => payload.len() <= MAX_IPV4_TCP_PAYLOAD,
            ProbeHeaders::V6(ip, _) => ip.flow_label <= MAX_FLOW_LABEL && payload.len()
                <= MAX_IPV6_TCP_PAYLOAD,
        }
    }

    /// The packet that these headers and `payload` make.
    pub open spec fn spec_packet(self, payload: Seq<u8>) -> Seq<u8> {
        match self {
            ProbeHeaders::V4(ip, tcp) => ipv4_tcp_packet(ip, tcp, payload),
            ProbeHeaders::V6(ip, tcp) => ipv6_tcp_packet(ip, tcp, payload),
        }
    }

    /// Whether `b` holds these headers and `payload` where a packet holds
    /// them.
    pub open spec fn laid_out(self, payload: Seq<u8>, b: Seq<u8>) -> bool {
        match self {
            ProbeHeaders::V4(ip, tcp) => ipv4_tcp_layout(ip, tcp, payload, b),
            ProbeHeaders::V6(ip, tcp) => ipv6_tcp_layout(ip, tcp, payload, b),
        }
    }

    /// The packet as bytes, IP header first; `None` where it cannot be
    /// written.
    pub fn encode(&self, payload: &[u8]) -> (r: Option<Vec<u8>>)
        ensures
            r is Some <==> self.fits(payload@),
            r is Some ==> r->0@ == self.spec_packet(payload@) && self.laid_out(payload@, r->0@),
    {
        match self {
            ProbeHeaders::V4(ip, tcp) => {
                if payload.len() <= MAX_IPV4_TCP_PAYLOAD {
                    Some(write_ipv4_tcp(ip, tcp, payload))
                } else {
                    None
                }
            },
            ProbeHeaders::V6(ip, tcp) => {
                if ip.flow_label <= MAX_FLOW_LABEL && payload.len() <= MAX_IPV6_TCP_PAYLOAD {
                    Some(write_ipv6_tcp(ip, tcp, payload))
                } else {
                    None
                }
            },
        }
    }
}

/// What the trace engine decides about one probe. The rest of the packet
/// follows from it: see [`Probe::spec_headers`].
#[derive(Debug, Clone, Copy, PartialEq, Eq)]
pub struct Probe {
    /// The local listener.
    pub source: SocketAddr,
    /// The remote peer.
    pub destination: SocketAddr,
    /// The TTL or hop limit, which is also the probe's identity.
    pub ttl: u8,
    /// The sequence number: one before what the peer has acknowledged.
    pub seq: u32,
    /// The acknowledgment number: the peer's own sequence number.
    pub ack: u32,
}

impl Probe {
    /// The payload of every probe: one zero byte.
    pub open spec fn spec_payload() -> Seq<u8> {
        seq![0u8]
    }

    /// The TCP header of the probe: PSH and ACK set, the window wide open.
    pub open spec fn spec_tcp(self) -> TcpFields {
        TcpFields {
            source_port: self.source.port,
            destination_port: self.destination.port,
            sequence_number: self.seq,
            acknowledgment_number: self.ack,
            window_size: PROBE_WINDOW,
            psh: true,
            ack: true,
        }
    }

    /// The headers of the probe, where both ends are of one family. Over
    /// IPv4 the identification field holds the identity and fragmenting is
    /// forbidden; over IPv6 the flow label holds the identity.
    pub open spec fn spec_headers(self) -> Option<ProbeHeaders> {
        match (self.source.addr.ip_version, self.destination.addr.ip_version) {
            (IPVersion::IPV4, IPVersion::IPV4) => Some(
                ProbeHeaders::V4(
                    Ipv4Fields {
                        source: self.source.addr.spec_octets_v4(),
                        destination: self.destination.addr.spec_octets_v4(),
                        time_to_live: self.ttl,
                        identification: self.ttl as u16,
                        dont_fragment: true,
                    },
                    self.spec_tcp(),
                ),
            ),
            (IPVersion::IPV6, IPVersion::IPV6) => Some(
                ProbeHeaders::V6(
                    Ipv6Fields {
                        source: self.source.addr.addr,
                        destination: self.destination.addr.addr,
                        hop_limit: self.ttl,
                        flow_label: self.ttl as u32,
                    },
                    self.spec_tcp(),
                ),
            ),
            _ => None,
        }
    }

    /// The address to hand to the raw socket: the peer's, with the port
    /// zero over IPv6, where the socket refuses any other.
    pub open spec fn spec_send_to(self) -> SocketAddr {
        match self.destination.addr.ip_version {
            IPVersion::IPV6 => SocketAddr { port: 0, addr: self.destination.addr },
            _ => self.destination,
        }
    }

    pub fn tcp(&self) -> (r: TcpFields)
        ensures
            r == self.spec_tcp(),
    {
        TcpFields {
            source_port: self.source.port,
            destination_port: self.destination.port,
            sequence_number: self.seq,
            acknowledgment_number: self.ack,
            window_size: PROBE_WINDOW,
            psh: true,
            ack: true,
        }
    }

    /// The headers of the probe; `None` where the two ends are not both
    /// IPv4 or both IPv6.
    pub fn headers(&self) -> (r: Option<ProbeHeaders>)
        ensures
            r == self.spec_headers(),
    {
        match (self.source.addr.octets_v4(), self.destination.addr.octets_v4()) {
            (Some(source), Some(destination)) => {
                return Some(
                    ProbeHeaders::V4(
                        Ipv4Fields {
                            source,
                            destination,
                            time_to_live: self.ttl,
                            identification: self.ttl as u16,
                            dont_fragment: true,
                        },
                        self.tcp(),
                    ),
                );
            },
            _ => {},
        }
        match (self.source.addr.octets_v6(), self.destination.addr.octets_v6()) {
            (Some(source), Some(destination)) => Some(
                ProbeHeaders::V6(
                    Ipv6Fields {
                        source,
                        destination,
                        hop_limit: self.ttl,
                        flow_label: self.ttl as u32,
                    },
                    self.tcp(),
                ),
            ),
            _ => None,
        }
    }

    pub fn send_to(&self) -> (r: SocketAddr)
        ensures
            r == self.spec_send_to(),
    {
        match self.destination.addr.ip_version {
            IPVersion::IPV6 => SocketAddr { port: 0, addr: self.destination.addr },
            _ => self.destination,
        }
    }

    /// The probe as the bytes of a raw IP packet; `None` where the two
    /// ends are not both IPv4 or both IPv6.
    pub fn encode(&self) -> (r: Option<Vec<u8>>)
        ensures
            match self.spec_headers() {
                Some(headers) => r is Some && r->0@ == headers.spec_packet(Probe::spec_payload())
                    && headers.laid_out(Probe::spec_payload(), r->0@),
                None => r is None,
            },
    {
        match self.headers() {
            Some(headers) => {
                let payload = [0u8];
                assert(payload@ =~= Probe::spec_payload());
                headers.encode(payload.as_slice())
            },
            None => None,
        }
    }
}

} // verus!
