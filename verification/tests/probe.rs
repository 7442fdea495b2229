use etherparse::{NetHeaders, PacketHeaders, TransportHeader};
use inband_traceroute::probe::{
    Ipv4Fields, Ipv6Fields, Probe, ProbeHeaders, TcpFields, MAX_FLOW_LABEL, MAX_IPV4_TCP_PAYLOAD,
    PROBE_WINDOW,
};
use inband_traceroute::wire::{IPAddr, SocketAddr};

const LOCAL_V6: [u8; 16] = [0x20, 0x01, 0x0d, 0xb8, 0, 0, 0, 0, 0, 0, 0, 0, 0, 0, 0, 1];
const REMOTE_V6: [u8; 16] = [0x20, 0x01, 0x0d, 0xb8, 0, 1, 0, 0, 0, 0, 0, 0, 0, 0, 0, 9];

fn probe_v4(ttl: u8, seq: u32, ack: u32) -> Probe {
    Probe {
        source: SocketAddr::new(IPAddr::new_v4([10, 0, 0, 2]), 443),
        destination: SocketAddr::new(IPAddr::new_v4([1, 2, 3, 4]), 55555),
        ttl,
        seq,
        ack,
    }
}

fn probe_v6(ttl: u8, seq: u32, ack: u32) -> Probe {
    Probe {
        source: SocketAddr::new(IPAddr::new_v6(LOCAL_V6), 443),
        destination: SocketAddr::new(IPAddr::new_v6(REMOTE_V6), 55555),
        ttl,
        seq,
        ack,
    }
}

#[test]
fn ipv4_probe_is_41_bytes() {
    let bytes = probe_v4(5, 100, 201).encode().unwrap();
    assert_eq!(bytes.len(), 41);
}

#[test]
fn ipv6_probe_is_61_bytes() {
    let bytes = probe_v6(5, 100, 201).encode().unwrap();
    assert_eq!(bytes.len(), 61);
}

#[test]
fn ipv4_probe_exact_bytes() {
    let bytes = probe_v4(5, 100, 201).encode().unwrap();
    // The header checksum is the complement of the sum of the other words.
    let expected: Vec<u8> = vec![
        0x45, 0x00, 0x00, 0x29, // version, IHL, DSCP, total length 41
        0x00, 0x05, 0x40, 0x00, // identification 5, DF
        0x05, 0x06, 0x67, 0xc3, // TTL 5, TCP, checksum
        10, 0, 0, 2, // source
        1, 2, 3, 4, // destination
        0x01, 0xbb, 0xd9, 0x03, // ports 443, 55555
        0x00, 0x00, 0x00, 0x64, // seq 100
        0x00, 0x00, 0x00, 0xc9, // ack 201
        0x50, 0x18, 0xff, 0xff, // data offset, PSH+ACK, window
        0xc5, 0xd8, 0x00, 0x00, // checksum, urgent pointer
        0x00, // payload
    ];
    assert_eq!(bytes, expected);
}

#[test]
fn ipv4_probe_fields() {
    for ttl in [1u8, 2, 32, 128, 255] {
        let probe = probe_v4(ttl, 0xdead_beef, 0x0102_0304);
        let bytes = probe.encode().unwrap();
        let parsed = PacketHeaders::from_ip_slice(&bytes).unwrap();
        let ip = match parsed.net {
            Some(NetHeaders::Ipv4(ip, _)) => ip,
            other => panic!("not an IPv4 packet: {:?}", other),
        };
        assert_eq!(ip.time_to_live, ttl);
        assert_eq!(ip.identification, ttl as u16);
        assert!(ip.dont_fragment);
        assert!(!ip.more_fragments);
        assert_eq!(ip.source, [10, 0, 0, 2]);
        assert_eq!(ip.destination, [1, 2, 3, 4]);
        assert_eq!(ip.total_len, 41);
        assert_eq!(ip.header_checksum, ip.calc_header_checksum());
        let tcp = match parsed.transport {
            Some(TransportHeader::Tcp(tcp)) => tcp,
            other => panic!("not a TCP segment: {:?}", other),
        };
        assert_eq!(tcp.source_port, 443);
        assert_eq!(tcp.destination_port, 55555);
        assert_eq!(tcp.sequence_number, 0xdead_beef);
        assert_eq!(tcp.acknowledgment_number, 0x0102_0304);
        assert_eq!(tcp.window_size, 0xffff);
        assert!(tcp.psh && tcp.ack);
        assert!(!tcp.syn && !tcp.fin && !tcp.rst && !tcp.urg);
        assert_eq!(parsed.payload.slice(), &[0u8]);
        assert_eq!(tcp.checksum, tcp.calc_checksum_ipv4(&ip, &[0u8]).unwrap());
    }
}

#[test]
fn ipv6_probe_fields() {
    for ttl in [1u8, 7, 64, 255] {
        let probe = probe_v6(ttl, 99, 7);
        let bytes = probe.encode().unwrap();
        assert_eq!(bytes[0], 0x60);
        assert_eq!(&bytes[1..4], &[0, 0, ttl]);
        let parsed = PacketHeaders::from_ip_slice(&bytes).unwrap();
        let ip = match parsed.net {
            Some(NetHeaders::Ipv6(ip, _)) => ip,
            other => panic!("not an IPv6 packet: {:?}", other),
        };
        assert_eq!(ip.hop_limit, ttl);
        assert_eq!(ip.flow_label.value(), ttl as u32);
        assert_eq!(ip.payload_length, 21);
        assert_eq!(ip.source, LOCAL_V6);
        assert_eq!(ip.destination, REMOTE_V6);
        let tcp = match parsed.transport {
            Some(TransportHeader::Tcp(tcp)) => tcp,
            other => panic!("not a TCP segment: {:?}", other),
        };
        assert_eq!(tcp.source_port, 443);
        assert_eq!(tcp.destination_port, 55555);
        assert_eq!(tcp.sequence_number, 99);
        assert_eq!(tcp.acknowledgment_number, 7);
        assert_eq!(tcp.window_size, PROBE_WINDOW);
        assert!(tcp.psh && tcp.ack);
        assert_eq!(parsed.payload.slice(), &[0u8]);
        assert_eq!(tcp.checksum, tcp.calc_checksum_ipv6(&ip, &[0u8]).unwrap());
    }
}

#[test]
fn probe_between_families_has_no_packet() {
    let mut mixed = probe_v4(3, 1, 2);
    mixed.destination = SocketAddr::new(IPAddr::new_v6(REMOTE_V6), 55555);
    assert_eq!(mixed.headers(), None);
    assert_eq!(mixed.encode(), None);
    let mut empty = probe_v4(3, 1, 2);
    empty.source = SocketAddr::default();
    empty.destination = SocketAddr::default();
    assert_eq!(empty.encode(), None);
}

#[test]
fn probe_headers_follow_the_rules() {
    let probe = probe_v4(9, 1000, 2000);
    let tcp = TcpFields {
        source_port: 443,
        destination_port: 55555,
        sequence_number: 1000,
        acknowledgment_number: 2000,
        window_size: 0xffff,
        psh: true,
        ack: true,
    };
    assert_eq!(probe.tcp(), tcp);
    assert_eq!(
        probe.headers(),
        Some(ProbeHeaders::V4(
            Ipv4Fields {
                source: [10, 0, 0, 2],
                destination: [1, 2, 3, 4],
                time_to_live: 9,
                identification: 9,
                dont_fragment: true,
            },
            tcp
        ))
    );
    assert_eq!(
        probe_v6(9, 1000, 2000).headers(),
        Some(ProbeHeaders::V6(
            Ipv6Fields {
                source: LOCAL_V6,
                destination: REMOTE_V6,
                hop_limit: 9,
                flow_label: 9,
            },
            tcp
        ))
    );
}

#[test]
fn send_to_has_port_zero_over_ipv6() {
    assert_eq!(
        probe_v6(1, 0, 0).send_to(),
        SocketAddr::new(IPAddr::new_v6(REMOTE_V6), 0)
    );
    assert_eq!(
        probe_v4(1, 0, 0).send_to(),
        SocketAddr::new(IPAddr::new_v4([1, 2, 3, 4]), 55555)
    );
}

#[test]
fn headers_encode_other_payloads_and_flags() {
    let tcp = TcpFields {
        source_port: 1,
        destination_port: 2,
        sequence_number: 3,
        acknowledgment_number: 4,
        window_size: 5,
        psh: false,
        ack: true,
    };
    let ip = Ipv4Fields {
        source: [9, 9, 9, 9],
        destination: [8, 8, 8, 8],
        time_to_live: 64,
        identification: 0xabcd,
        dont_fragment: false,
    };
    let bytes = ProbeHeaders::V4(ip, tcp).encode(b"hello").unwrap();
    assert_eq!(bytes.len(), 45);
    assert_eq!(&bytes[4..6], &[0xab, 0xcd]);
    assert_eq!(bytes[6], 0);
    assert_eq!(bytes[33], 0x10);
    assert_eq!(&bytes[40..], b"hello");
    let psh_only = TcpFields { psh: true, ack: false, ..tcp };
    let bytes = ProbeHeaders::V4(ip, psh_only).encode(&[]).unwrap();
    assert_eq!(bytes.len(), 40);
    assert_eq!(bytes[33], 0x08);
}

#[test]
fn headers_refuse_what_cannot_be_written() {
    let tcp = TcpFields {
        source_port: 1,
        destination_port: 2,
        sequence_number: 3,
        acknowledgment_number: 4,
        window_size: 5,
        psh: true,
        ack: true,
    };
    let ip6 = Ipv6Fields {
        source: LOCAL_V6,
        destination: REMOTE_V6,
        hop_limit: 1,
        flow_label: MAX_FLOW_LABEL + 1,
    };
    assert_eq!(ProbeHeaders::V6(ip6, tcp).encode(&[0]), None);
    let widest = Ipv6Fields { flow_label: MAX_FLOW_LABEL, ..ip6 };
    let bytes = ProbeHeaders::V6(widest, tcp).encode(&[0]).unwrap();
    assert_eq!(&bytes[0..4], &[0x60, 0x0f, 0xff, 0xff]);
    let ip4 = Ipv4Fields {
        source: [9, 9, 9, 9],
        destination: [8, 8, 8, 8],
        time_to_live: 64,
        identification: 1,
        dont_fragment: true,
    };
    let too_long = vec![0u8; MAX_IPV4_TCP_PAYLOAD + 1];
    assert_eq!(ProbeHeaders::V4(ip4, tcp).encode(&too_long), None);
    let longest = vec![0u8; MAX_IPV4_TCP_PAYLOAD];
    let bytes = ProbeHeaders::V4(ip4, tcp).encode(&longest).unwrap();
    assert_eq!(bytes.len(), 65_535);
    assert_eq!(&bytes[2..4], &[0xff, 0xff]);
}
