use inband_traceroute::clock::monotonic_ns;
use inband_traceroute::dns::ip_to_ptr_name;
use inband_traceroute::server::{contact, origin_allowed, served_domains};
use inband_traceroute::tracer::Tracer;
use inband_traceroute::wire::{IPAddr, SocketAddr};

#[test]
fn test_ip_to_ptr_name_ipv4() {
    let ip = IPAddr::new_v4([1, 2, 3, 4]);
    let name = ip_to_ptr_name(&ip).unwrap();
    assert_eq!(name.to_string(), "4.3.2.1.in-addr.arpa.");
}

#[test]
fn test_ip_to_ptr_name_ipv6() {
    let ip = IPAddr::new_v6([0x20, 0x01, 0x0d, 0xb8, 0, 0, 0, 0, 0, 0, 0, 0, 0, 0, 0, 1]);
    let name = ip_to_ptr_name(&ip).unwrap();
    assert_eq!(
        name.to_string(),
        "1.0.0.0.0.0.0.0.0.0.0.0.0.0.0.0.0.0.0.0.0.0.0.0.8.b.d.0.1.0.0.2.ip6.arpa."
    );
}

#[test]
fn ptr_names_of_all_digit_counts() {
    assert_eq!(
        ip_to_ptr_name(&IPAddr::new_v4([0, 9, 10, 255])).unwrap(),
        "255.10.9.0.in-addr.arpa."
    );
    assert_eq!(
        ip_to_ptr_name(&IPAddr::new_v4([100, 99, 199, 200])).unwrap(),
        "200.199.99.100.in-addr.arpa."
    );
    assert_eq!(
        ip_to_ptr_name(&IPAddr::new_v6([
            0xfe, 0xdc, 0xba, 0x98, 0x76, 0x54, 0x32, 0x10, 0x01, 0x23, 0x45, 0x67, 0x89, 0xab,
            0xcd, 0xef
        ]))
        .unwrap(),
        "f.e.d.c.b.a.9.8.7.6.5.4.3.2.1.0.0.1.2.3.4.5.6.7.8.9.a.b.c.d.e.f.ip6.arpa."
    );
    assert_eq!(ip_to_ptr_name(&IPAddr::default()), None);
}

#[test]
fn monotonic_clock_in_nanoseconds() {
    assert_eq!(monotonic_ns(0, 0), Some(0));
    assert_eq!(monotonic_ns(1, 5), Some(1_000_000_005));
    assert_eq!(monotonic_ns(12_345, 999_999_999), Some(12_345_999_999_999));
    assert_eq!(monotonic_ns(-1, 0), None);
    assert_eq!(monotonic_ns(0, -1), None);
    assert_eq!(monotonic_ns(18_446_744_073, 709_551_615), Some(u64::MAX));
    assert_eq!(monotonic_ns(18_446_744_073, 709_551_616), None);
    assert_eq!(monotonic_ns(18_446_744_074, 0), None);
    assert_eq!(monotonic_ns(i64::MAX, 0), None);
}

#[test]
fn origins_that_may_read_a_trace() {
    assert!(origin_allowed(b"http://localhost:3000"));
    assert!(origin_allowed(b"http://localhost:"));
    assert!(origin_allowed(b"https://inband-traceroute.net"));
    assert!(origin_allowed(b"https://ipv4.inband-traceroute.net"));
    assert!(origin_allowed(b"http://x.inband-traceroute.net"));
    assert!(origin_allowed(b".inband-traceroute.net"));
    assert!(!origin_allowed(b"http://localhost"));
    assert!(!origin_allowed(b"https://localhost:3000"));
    assert!(!origin_allowed(b"http://inband-traceroute.net"));
    assert!(!origin_allowed(b"https://inband-traceroute.net.evil.example"));
    assert!(!origin_allowed(b"https://evil-inband-traceroute.net"));
    assert!(!origin_allowed(b"https://example.com"));
    assert!(!origin_allowed(b""));
}

#[test]
fn names_the_server_answers_to() {
    assert_eq!(served_domains("example.net", false), vec!["example.net".to_string()]);
    assert_eq!(
        served_domains("example.net", true),
        vec![
            "example.net".to_string(),
            "ipv4.example.net".to_string(),
            "ipv6.example.net".to_string()
        ]
    );
    assert_eq!(contact("ops@example.net"), "mailto:ops@example.net");
}

#[test]
fn burst_of_four_probes() {
    let tracer = Tracer::new(SocketAddr::new(IPAddr::new_v4([10, 0, 0, 2]), 443), 32).unwrap();
    let peer = SocketAddr::new(IPAddr::new_v4([1, 2, 3, 4]), 55555);
    let burst = tracer.send_outbound_packet_burst(peer, 6, 1000, 0).unwrap();
    assert_eq!(burst.len(), 4);
    let numbers: Vec<(u32, u32)> = burst
        .iter()
        .map(|p| {
            (
                u32::from_be_bytes([p.bytes[24], p.bytes[25], p.bytes[26], p.bytes[27]]),
                u32::from_be_bytes([p.bytes[28], p.bytes[29], p.bytes[30], p.bytes[31]]),
            )
        })
        .collect();
    assert_eq!(
        numbers,
        vec![(1000, 0), (1000, u32::MAX), (999, 0), (999, u32::MAX)]
    );
    for p in &burst {
        assert_eq!(p.bytes[8], 6);
        assert_eq!(p.send_to, peer);
    }
    let six = SocketAddr::new(IPAddr::new_v6([1; 16]), 55555);
    assert!(tracer.send_outbound_packet_burst(six, 6, 1000, 0).is_none());
}
