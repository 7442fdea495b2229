use inband_traceroute::wire::{
    EbpfConfig, IPAddr, IPVersion, SocketAddr, TraceEvent, TraceEventType, EBPF_CONFIG_SIZE,
    IP_ADDR_SIZE, SOCKET_ADDR_SIZE, TRACE_EVENT_SIZE,
};

fn sample_event() -> TraceEvent {
    TraceEvent {
        arrival: 0x0102_0304_0506_0708,
        trace_id: 0x1122_3344,
        ack_seq: 0x5566_7788,
        seq: 0x99aa_bbcc,
        event_type: TraceEventType::IcmpTimeExceeded,
        ip_version: IPVersion::IPV4,
        ttl: 7,
        addr: IPAddr::new_v4([10, 0, 0, 1]),
    }
}

#[test]
fn test_trace_event_size() {
    assert_eq!(sample_event().to_bytes().len(), 40);
    assert_eq!(std::mem::size_of_val(&sample_event().to_bytes()), 40);
    assert_eq!(TRACE_EVENT_SIZE, 40);
}

#[test]
fn test_ipaddr_size() {
    assert_eq!(IPAddr::new_v4([1, 2, 3, 4]).to_bytes().len(), 17);
    assert_eq!(std::mem::size_of_val(&IPAddr::default().to_bytes()), 17);
    assert_eq!(std::mem::size_of::<IPAddr>(), 17);
}

#[test]
fn lib_test_ipaddr_size() {
    assert_eq!(IPAddr::new_v6([0xab; 16]).to_bytes().len(), 17);
    assert_eq!(IP_ADDR_SIZE, 17);
}

#[test]
fn test_socketaddr_size() {
    let key = SocketAddr::new(IPAddr::new_v4([1, 2, 3, 4]), 55555);
    assert_eq!(key.to_bytes().len(), 19);
    assert_eq!(std::mem::size_of_val(&key.to_bytes()), 19);
}

#[test]
fn lib_test_socketaddr_size() {
    assert_eq!(SocketAddr::default().to_bytes().len(), 19);
    assert_eq!(SOCKET_ADDR_SIZE, 19);
}

#[test]
fn test_ebpf_config_size() {
    let config = EbpfConfig::new(443, Some(IPAddr::new_v4([10, 0, 0, 2])), None);
    assert_eq!(config.to_bytes().len(), 36);
    assert_eq!(std::mem::size_of_val(&config.to_bytes()), 36);
    assert_eq!(EBPF_CONFIG_SIZE, 36);
}

#[test]
fn ip_version_codes() {
    assert_eq!(IPVersion::EMPTY.code(), 0);
    assert_eq!(IPVersion::IPV4.code(), 4);
    assert_eq!(IPVersion::IPV6.code(), 6);
    assert_eq!(IPVersion::from_code(0), Some(IPVersion::EMPTY));
    assert_eq!(IPVersion::from_code(4), Some(IPVersion::IPV4));
    assert_eq!(IPVersion::from_code(6), Some(IPVersion::IPV6));
    assert_eq!(IPVersion::from_code(5), None);
    assert_eq!(IPVersion::default(), IPVersion::EMPTY);
}

#[test]
fn event_type_codes() {
    assert_eq!(TraceEventType::TcpAck.code(), 0);
    assert_eq!(TraceEventType::TcpRst.code(), 1);
    assert_eq!(TraceEventType::IcmpTimeExceeded.code(), 2);
    assert_eq!(TraceEventType::from_code(2), Some(TraceEventType::IcmpTimeExceeded));
    assert_eq!(TraceEventType::from_code(3), None);
}

#[test]
fn new_v4_pads_with_zeros() {
    let a = IPAddr::new_v4([192, 168, 1, 9]);
    assert_eq!(a.ip_version, IPVersion::IPV4);
    assert_eq!(a.addr, [192, 168, 1, 9, 0, 0, 0, 0, 0, 0, 0, 0, 0, 0, 0, 0]);
    assert_eq!(a.octets_v4(), Some([192, 168, 1, 9]));
    assert_eq!(a.octets_v6(), None);
}

#[test]
fn new_v6_keeps_all_bytes() {
    let bytes = [1, 2, 3, 4, 5, 6, 7, 8, 9, 10, 11, 12, 13, 14, 15, 16];
    let a = IPAddr::new_v6(bytes);
    assert_eq!(a.ip_version, IPVersion::IPV6);
    assert_eq!(a.addr, bytes);
    assert_eq!(a.octets_v6(), Some(bytes));
    assert_eq!(a.octets_v4(), None);
}

#[test]
fn default_address_is_empty() {
    let a = IPAddr::default();
    assert_eq!(a.ip_version, IPVersion::EMPTY);
    assert_eq!(a.addr, [0u8; 16]);
}

#[test]
fn addresses_compare_by_family_and_bytes() {
    assert_eq!(IPAddr::new_v4([1, 2, 3, 4]), IPAddr::new_v4([1, 2, 3, 4]));
    assert_ne!(IPAddr::new_v4([1, 2, 3, 4]), IPAddr::new_v4([1, 2, 3, 5]));
    let mut v6 = [0u8; 16];
    v6[0] = 1;
    v6[1] = 2;
    v6[2] = 3;
    v6[3] = 4;
    assert_ne!(IPAddr::new_v4([1, 2, 3, 4]), IPAddr::new_v6(v6));
    let mut tail = IPAddr::new_v6(v6);
    tail.addr[15] = 1;
    assert_ne!(tail, IPAddr::new_v6(v6));
}

#[test]
fn ip_addr_layout() {
    let bytes = IPAddr::new_v4([10, 0, 0, 1]).to_bytes();
    assert_eq!(bytes, [4, 10, 0, 0, 1, 0, 0, 0, 0, 0, 0, 0, 0, 0, 0, 0, 0]);
    assert_eq!(IPAddr::default().to_bytes(), [0u8; 17]);
}

#[test]
fn socket_addr_layout() {
    let key = SocketAddr::new(IPAddr::new_v4([1, 2, 3, 4]), 0xd903);
    assert_eq!(
        key.to_bytes(),
        [0x03, 0xd9, 4, 1, 2, 3, 4, 0, 0, 0, 0, 0, 0, 0, 0, 0, 0, 0, 0]
    );
}

#[test]
fn ebpf_config_layout() {
    let v6 = [0x20, 0x01, 0x0d, 0xb8, 0, 0, 0, 0, 0, 0, 0, 0, 0, 0, 0, 1];
    let config = EbpfConfig::new(
        443,
        Some(IPAddr::new_v4([10, 0, 0, 2])),
        Some(IPAddr::new_v6(v6)),
    );
    let bytes = config.to_bytes();
    assert_eq!(&bytes[0..2], &[0xbb, 0x01]);
    assert_eq!(&bytes[2..19], &IPAddr::new_v4([10, 0, 0, 2]).to_bytes());
    assert_eq!(&bytes[19..36], &IPAddr::new_v6(v6).to_bytes());
}

#[test]
fn ebpf_config_getters() {
    let v6 = [0x20, 0x01, 0x0d, 0xb8, 0, 0, 0, 0, 0, 0, 0, 0, 0, 0, 0, 1];
    let both = EbpfConfig::new(
        443,
        Some(IPAddr::new_v4([10, 0, 0, 2])),
        Some(IPAddr::new_v6(v6)),
    );
    assert_eq!(both.port, 443);
    assert_eq!(both.port(), 443);
    assert_eq!(both.get_ipv4(), Some(u32::from_le_bytes([10, 0, 0, 2])));
    assert_eq!(both.get_ipv4(), Some(0x0200_000a));
    assert_eq!(both.get_ipv6(), Some(v6));
    let none = EbpfConfig::new(80, None, None);
    assert_eq!(none.get_ipv4(), None);
    assert_eq!(none.get_ipv6(), None);
    let crossed = EbpfConfig::new(80, Some(IPAddr::new_v6(v6)), Some(IPAddr::new_v4([1, 1, 1, 1])));
    assert_eq!(crossed.get_ipv4(), None);
    assert_eq!(crossed.get_ipv6(), None);
    let empty = EbpfConfig::default();
    assert_eq!(empty.port, 0);
    assert_eq!(empty.to_bytes(), [0u8; 36]);
}

#[test]
fn trace_event_layout() {
    let bytes = sample_event().to_bytes();
    let expected: [u8; 40] = [
        0x08, 0x07, 0x06, 0x05, 0x04, 0x03, 0x02, 0x01, // arrival
        0x44, 0x33, 0x22, 0x11, // trace id
        0x88, 0x77, 0x66, 0x55, // ack_seq
        0xcc, 0xbb, 0xaa, 0x99, // seq
        2, 4, 7, // kind, family, ttl
        4, 10, 0, 0, 1, 0, 0, 0, 0, 0, 0, 0, 0, 0, 0, 0, 0,
    ];
    assert_eq!(bytes, expected);
}

#[test]
fn trace_event_round_trip() {
    let event = sample_event();
    assert_eq!(TraceEvent::from_bytes(&event.to_bytes()), Some(event));
    let mut ack = sample_event();
    ack.event_type = TraceEventType::TcpAck;
    ack.ip_version = IPVersion::IPV6;
    ack.addr = IPAddr::new_v6([0xfe; 16]);
    ack.arrival = u64::MAX;
    ack.trace_id = u32::MAX;
    assert_eq!(TraceEvent::from_bytes(&ack.to_bytes()), Some(ack));
}

#[test]
fn trace_event_from_longer_buffer() {
    let event = sample_event();
    let mut buffer = vec![0xeeu8; 1024];
    buffer[..40].copy_from_slice(&event.to_bytes());
    assert_eq!(TraceEvent::from_bytes(&buffer), Some(event));
}

#[test]
fn trace_event_rejects_short_and_unknown() {
    let bytes = sample_event().to_bytes();
    assert_eq!(TraceEvent::from_bytes(&bytes[..39]), None);
    assert_eq!(TraceEvent::from_bytes(&[]), None);
    let mut kind = bytes;
    kind[20] = 3;
    assert_eq!(TraceEvent::from_bytes(&kind), None);
    let mut family = bytes;
    family[21] = 5;
    assert_eq!(TraceEvent::from_bytes(&family), None);
    let mut addr_family = bytes;
    addr_family[23] = 1;
    assert_eq!(TraceEvent::from_bytes(&addr_family), None);
}

#[test]
fn socket_addr_round_trip() {
    let key = SocketAddr::new(IPAddr::new_v6([9; 16]), 65535);
    assert_eq!(SocketAddr::from_bytes(&key.to_bytes()), Some(key));
    assert_eq!(SocketAddr::from_bytes(&key.to_bytes()[..18]), None);
    let addr = IPAddr::new_v4([8, 8, 4, 4]);
    assert_eq!(IPAddr::from_bytes(&addr.to_bytes()), Some(addr));
    assert_eq!(IPAddr::from_bytes(&[4u8; 16]), None);
    assert_eq!(IPAddr::from_bytes(&[9u8; 17]), None);
}

#[test]
fn ebpf_config_round_trip() {
    let v6 = [0x20, 0x01, 0x0d, 0xb8, 0, 0, 0, 0, 0, 0, 0, 0, 0, 0, 0, 1];
    let config = EbpfConfig::new(
        8443,
        Some(IPAddr::new_v4([10, 0, 0, 2])),
        Some(IPAddr::new_v6(v6)),
    );
    let back = EbpfConfig::from_bytes(&config.to_bytes()).unwrap();
    assert_eq!(back.port, 8443);
    assert_eq!(back.get_ipv4(), config.get_ipv4());
    assert_eq!(back.get_ipv6(), Some(v6));
    assert_eq!(back.to_bytes(), config.to_bytes());
    assert!(EbpfConfig::from_bytes(&config.to_bytes()[..35]).is_none());
    let mut unknown = config.to_bytes();
    unknown[19] = 7;
    assert!(EbpfConfig::from_bytes(&unknown).is_none());
    let empty = EbpfConfig::from_bytes(&[0u8; 36]).unwrap();
    assert_eq!(empty.get_ipv4(), None);
    assert_eq!(empty.get_ipv6(), None);
}
