use inband_traceroute::hop::{Hop, HopType, IpinfoCountryASN};
use inband_traceroute::hop_stream::{HopStream, StreamStep};
use inband_traceroute::probe::Probe;
use inband_traceroute::sweep::{
    elapsed, seq_before, Directive, Input, Phase, Sweep, SweepStep, TraceError,
    DEFAULT_MAX_HOPS, INITIAL_ACK_TIMEOUT_NS, STEP_TIMEOUT_NS,
};
use inband_traceroute::trace_map::TraceMap;
use inband_traceroute::tracer::{TraceHandle, Tracer};
use inband_traceroute::wire::{IPAddr, IPVersion, SocketAddr, TraceEvent, TraceEventType};

const TRACE: u32 = 0x7ace;

fn local() -> SocketAddr {
    SocketAddr::new(IPAddr::new_v4([10, 0, 0, 2]), 443)
}

fn remote() -> SocketAddr {
    SocketAddr::new(IPAddr::new_v4([1, 2, 3, 4]), 55555)
}

fn router() -> IPAddr {
    IPAddr::new_v4([10, 0, 0, 1])
}

fn tcp_ack(ack_seq: u32, seq: u32, arrival: u64) -> Input {
    Input::Event(TraceEvent {
        arrival,
        trace_id: TRACE,
        ack_seq,
        seq,
        event_type: TraceEventType::TcpAck,
        ip_version: IPVersion::IPV4,
        ttl: 0,
        addr: remote().addr,
    })
}

fn tcp_rst(arrival: u64) -> Input {
    Input::Event(TraceEvent {
        arrival,
        trace_id: TRACE,
        ack_seq: 0,
        seq: 0,
        event_type: TraceEventType::TcpRst,
        ip_version: IPVersion::IPV4,
        ttl: 0,
        addr: remote().addr,
    })
}

fn time_exceeded(ttl: u8, peer: IPAddr, arrival: u64) -> Input {
    Input::Event(TraceEvent {
        arrival,
        trace_id: TRACE,
        ack_seq: 0,
        seq: 0,
        event_type: TraceEventType::IcmpTimeExceeded,
        ip_version: IPVersion::IPV4,
        ttl,
        addr: peer,
    })
}

fn sent(sent_ns: u64) -> Input {
    Input::ProbeSent { sent_ns }
}

fn origin() -> Hop {
    Hop::new(0, HopType::Origin, Some(local().addr), None, None)
}

/// The stream of a trace of `1.2.3.4:55555` on an engine bound to
/// `10.0.0.2:443`.
fn stream(max_hops: u8) -> HopStream {
    let mut tracer = Tracer::new(local(), max_hops).unwrap();
    let mut map = TraceMap::new();
    let handle = TraceHandle::start_trace(&mut tracer, &mut map, remote()).unwrap();
    handle.hop_stream()
}

fn probe(ttl: u8, seq: u32, ack: u32) -> Probe {
    Probe { source: local(), destination: remote(), ttl, seq, ack }
}

#[test]
fn timeouts_are_five_seconds_and_one_second() {
    assert_eq!(INITIAL_ACK_TIMEOUT_NS, 5_000_000_000);
    assert_eq!(STEP_TIMEOUT_NS, 1_000_000_000);
    assert_eq!(DEFAULT_MAX_HOPS, 32);
}

#[test]
fn a_stream_begins_by_waiting_for_the_first_ack() {
    let s = stream(32);
    assert_eq!(s.begin(), Directive::Await { rearm: Some(5_000_000_000) });
    assert_eq!(s.sweep().phase, Phase::AwaitingInitialAck);
    assert_eq!(s.sweep(), Sweep::new(local(), remote(), 32));
    assert!(!s.has_seen(0));
}

#[test]
fn origin_then_ack_at_the_first_hop() {
    let mut s = stream(32);
    let first = s.step(tcp_ack(101, 201, 1_000));
    assert_eq!(
        first,
        StreamStep {
            hop: Some(origin()),
            suppressed: None,
            directive: Directive::Send(probe(1, 100, 201)),
        }
    );
    let waiting = s.step(sent(2_000));
    assert_eq!(
        waiting,
        StreamStep {
            hop: None,
            suppressed: None,
            directive: Directive::Await { rearm: Some(STEP_TIMEOUT_NS) },
        }
    );
    // The peer answers the probe, which repeated byte 100, with an ACK of 101.
    let last = s.step(tcp_ack(101, 201, 2_500));
    assert_eq!(
        last,
        StreamStep {
            hop: Some(Hop::new(1, HopType::TcpAck, Some(remote().addr), Some(500), None)),
            suppressed: None,
            directive: Directive::Done,
        }
    );
    assert_eq!(s.sweep().phase, Phase::Finished);
}

#[test]
fn an_ack_of_another_number_only_refreshes() {
    let mut s = stream(32);
    s.step(tcp_ack(101, 201, 1_000));
    s.step(sent(2_000));
    let step = s.step(tcp_ack(102, 205, 2_500));
    assert_eq!(
        step,
        StreamStep { hop: None, suppressed: None, directive: Directive::Await { rearm: None } }
    );
    let sweep = s.sweep();
    assert_eq!(sweep.phase, Phase::Waiting { ttl: 1, sent_seq: 100, sent_ns: 2_000 });
    assert_eq!((sweep.ack_seq, sweep.seq), (102, 205));
    // The next probe is made from the refreshed numbers.
    let next = s.step(Input::Timeout);
    assert_eq!(next.hop, Some(Hop::new(1, HopType::Timeout, None, None, None)));
    assert_eq!(next.directive, Directive::Send(probe(2, 101, 205)));
}

#[test]
fn one_intermediate_hop() {
    let mut s = stream(32);
    let hops = s.feed(&[
        tcp_ack(101, 201, 10),
        sent(100),
        time_exceeded(1, router(), 350),
        sent(400),
        tcp_ack(101, 201, 900),
    ]);
    assert_eq!(
        hops,
        vec![
            origin(),
            Hop::new(1, HopType::IcmpTimeExceeded, Some(router()), Some(250), None),
            Hop::new(2, HopType::TcpAck, Some(remote().addr), Some(500), None),
        ]
    );
    assert_eq!(s.sweep().phase, Phase::Finished);
    assert_eq!(s.step(Input::Timeout).directive, Directive::Done);
}

#[test]
fn timeout_at_hop_2() {
    let mut s = stream(32);
    let hops = s.feed(&[
        tcp_ack(101, 201, 10),
        sent(100),
        time_exceeded(1, router(), 350),
        sent(400),
    ]);
    assert_eq!(hops.len(), 2);
    let step = s.step(Input::Timeout);
    assert_eq!(step.hop, Some(Hop::new(2, HopType::Timeout, None, None, None)));
    assert_eq!(step.directive, Directive::Send(probe(3, 100, 201)));
    assert_eq!(s.sweep().phase, Phase::Sending { ttl: 3 });
}

#[test]
fn rst_terminates() {
    let mut s = stream(32);
    let hops = s.feed(&[tcp_ack(101, 201, 10), sent(100), tcp_rst(700)]);
    assert_eq!(
        hops,
        vec![origin(), Hop::new(1, HopType::TcpRst, Some(remote().addr), Some(600), None)]
    );
    assert_eq!(s.sweep().phase, Phase::Finished);
    assert_eq!(s.sweep().pending(), Directive::Done);
}

#[test]
fn duplicate_icmp_suppressed() {
    let mut s = stream(32);
    s.feed(&[
        tcp_ack(101, 201, 10),
        sent(100),
        Input::Timeout,
        sent(200),
        Input::Timeout,
        sent(300),
    ]);
    let first = s.step(time_exceeded(3, router(), 450));
    let expected = Hop::new(3, HopType::IcmpTimeExceeded, Some(router()), Some(150), None);
    assert_eq!(first.hop, Some(expected));
    assert_eq!(first.suppressed, None);
    s.step(sent(500));
    let other = IPAddr::new_v4([10, 9, 9, 9]);
    let second = s.step(time_exceeded(3, other, 560));
    assert_eq!(second.hop, None);
    assert_eq!(
        second.suppressed,
        Some(Hop::new(3, HopType::IcmpTimeExceeded, Some(other), Some(60), None))
    );
    assert!(s.has_seen(3));
    assert!(!s.has_seen(4));
}

#[test]
fn duplicates_in_a_run() {
    let mut s = stream(32);
    let hops = s.feed(&[
        tcp_ack(101, 201, 10),
        sent(100),
        time_exceeded(1, router(), 150),
        sent(200),
        time_exceeded(1, router(), 250),
        sent(300),
        time_exceeded(3, router(), 350),
        sent(400),
        time_exceeded(3, router(), 450),
    ]);
    let ttls: Vec<u8> = hops.iter().map(|h| h.ttl).collect();
    assert_eq!(ttls, vec![0, 1, 3]);
}

#[test]
fn initial_ack_timeout() {
    let mut s = stream(32);
    let step = s.step(Input::Timeout);
    assert_eq!(
        step,
        StreamStep {
            hop: None,
            suppressed: None,
            directive: Directive::Fail(TraceError::InitialAckTimeout),
        }
    );
    assert_eq!(s.sweep().phase, Phase::Failed(TraceError::InitialAckTimeout));
    // Whatever comes afterwards changes nothing.
    let after = s.step(tcp_ack(101, 201, 10));
    assert_eq!(after.hop, None);
    assert_eq!(after.directive, Directive::Fail(TraceError::InitialAckTimeout));
}

#[test]
fn events_other_than_an_ack_do_not_start_the_sweep() {
    let mut s = stream(32);
    for input in [tcp_rst(5), time_exceeded(1, router(), 6), sent(7), Input::SendFailed] {
        let step = s.step(input);
        assert_eq!(
            step,
            StreamStep { hop: None, suppressed: None, directive: Directive::Await { rearm: None } }
        );
        assert_eq!(s.sweep().phase, Phase::AwaitingInitialAck);
    }
}

#[test]
fn a_closed_channel_fails_the_trace() {
    let mut s = stream(32);
    assert_eq!(
        s.step(Input::Closed).directive,
        Directive::Fail(TraceError::ChannelClosed)
    );
    let mut s = stream(32);
    s.feed(&[tcp_ack(101, 201, 10), sent(100)]);
    assert_eq!(
        s.step(Input::Closed).directive,
        Directive::Fail(TraceError::ChannelClosed)
    );
}

#[test]
fn a_probe_that_cannot_be_sent_fails_the_trace() {
    let mut s = stream(32);
    s.step(tcp_ack(101, 201, 10));
    let step = s.step(Input::SendFailed);
    assert_eq!(step.hop, None);
    assert_eq!(step.directive, Directive::Fail(TraceError::SendFailure));
    assert_eq!(s.sweep().phase, Phase::Failed(TraceError::SendFailure));
}

#[test]
fn inputs_out_of_place_repeat_the_directive() {
    let mut s = stream(32);
    s.step(tcp_ack(101, 201, 10));
    let step = s.step(time_exceeded(1, router(), 20));
    assert_eq!(step.hop, None);
    assert_eq!(step.directive, Directive::Send(probe(1, 100, 201)));
    assert_eq!(s.step(Input::Timeout).directive, Directive::Send(probe(1, 100, 201)));
    s.step(sent(30));
    let step = s.step(sent(40));
    assert_eq!(step.directive, Directive::Await { rearm: None });
    assert_eq!(s.sweep().phase, Phase::Waiting { ttl: 1, sent_seq: 100, sent_ns: 30 });
}

#[test]
fn the_sweep_ends_after_max_hops() {
    let mut s = stream(3);
    let hops = s.feed(&[
        tcp_ack(101, 201, 10),
        sent(1),
        Input::Timeout,
        sent(2),
        Input::Timeout,
        sent(3),
        Input::Timeout,
        sent(4),
        Input::Timeout,
    ]);
    assert_eq!(
        hops,
        vec![
            origin(),
            Hop::new(1, HopType::Timeout, None, None, None),
            Hop::new(2, HopType::Timeout, None, None, None),
            Hop::new(3, HopType::Timeout, None, None, None),
        ]
    );
    assert_eq!(s.sweep().phase, Phase::Finished);
}

#[test]
fn a_sweep_of_no_hops_reports_the_origin_only() {
    let mut s = stream(0);
    let step = s.step(tcp_ack(101, 201, 10));
    assert_eq!(step.hop, Some(origin()));
    assert_eq!(step.directive, Directive::Done);
    assert_eq!(s.sweep().phase, Phase::Finished);
}

#[test]
fn a_sweep_can_reach_ttl_255() {
    let mut s = stream(255);
    let mut inputs = vec![tcp_ack(101, 201, 10)];
    for i in 0..255u64 {
        inputs.push(sent(i));
        inputs.push(Input::Timeout);
    }
    let hops = s.feed(&inputs);
    assert_eq!(hops.len(), 256);
    assert_eq!(hops[255], Hop::new(255, HopType::Timeout, None, None, None));
    assert_eq!(s.sweep().phase, Phase::Finished);
}

#[test]
fn ack_matching() {
    for a in [0u32, 1, 101, u32::MAX] {
        let mut s = Sweep::new(local(), remote(), 32);
        s.step(tcp_ack(a, 7, 0));
        assert_eq!(s.probe(1).seq, a.wrapping_sub(1));
        s.step(sent(50));
        let mut other = s;
        let step = s.step(tcp_ack(a, 9, 60));
        assert_eq!(
            step,
            SweepStep {
                hop: Some(Hop::new(1, HopType::TcpAck, Some(remote().addr), Some(10), None)),
                directive: Directive::Done,
            }
        );
        let step = other.step(tcp_ack(a.wrapping_add(1), 9, 60));
        assert_eq!(step.hop, None);
        assert_eq!(other.ack_seq, a.wrapping_add(1));
        assert_eq!(other.seq, 9);
        assert!(matches!(other.phase, Phase::Waiting { ttl: 1, .. }));
    }
}

#[test]
fn sequence_numbers_and_times_wrap() {
    assert_eq!(seq_before(0), u32::MAX);
    assert_eq!(seq_before(1), 0);
    assert_eq!(seq_before(101), 100);
    assert_eq!(elapsed(1_500, 1_000), 500);
    assert_eq!(elapsed(5, 5), 0);
    assert_eq!(elapsed(0, 1), u64::MAX);
    assert_eq!(elapsed(10, u64::MAX), 11);
}

#[test]
fn the_hop_of_a_time_exceeded_carries_the_events_identity() {
    let mut s = Sweep::new(local(), remote(), 32);
    s.step(tcp_ack(101, 201, 0));
    s.step(sent(10));
    s.step(Input::Timeout);
    s.step(sent(20));
    let step = s.step(time_exceeded(1, router(), 25));
    assert_eq!(
        step.hop,
        Some(Hop::new(1, HopType::IcmpTimeExceeded, Some(router()), Some(5), None))
    );
    assert_eq!(step.directive, Directive::Send(probe(3, 100, 201)));
}

#[test]
fn ttls_rise_when_answers_come_in_turn() {
    let mut s = stream(32);
    let hops = s.feed(&[
        tcp_ack(101, 201, 10),
        sent(100),
        time_exceeded(1, router(), 150),
        sent(200),
        Input::Timeout,
        sent(300),
        time_exceeded(3, router(), 350),
        sent(400),
        tcp_ack(101, 201, 450),
    ]);
    let ttls: Vec<u8> = hops.iter().map(|h| h.ttl).collect();
    assert_eq!(ttls, vec![0, 1, 2, 3, 4]);
}

#[test]
fn a_late_answer_can_come_out_of_order() {
    // The answer to probe 2 arrives while probe 4 is in flight, after a hop
    // for TTL 3 has been handed on.
    let mut s = stream(32);
    let hops = s.feed(&[
        tcp_ack(101, 201, 10),
        sent(100),
        time_exceeded(1, router(), 150),
        sent(200),
        time_exceeded(1, router(), 250),
        sent(300),
        Input::Timeout,
        sent(400),
        time_exceeded(2, router(), 450),
    ]);
    let ttls: Vec<u8> = hops.iter().map(|h| h.ttl).collect();
    assert_eq!(ttls, vec![0, 1, 3, 2]);
}

#[test]
fn hop_labels_and_milliseconds() {
    assert_eq!(HopType::Timeout.label(), "[timeout]");
    assert_eq!(HopType::TcpRst.label(), "TCP Reset");
    assert_eq!(HopType::TcpAck.label(), "TCP ACK");
    assert_eq!(HopType::IcmpTimeExceeded.label(), "ICMP Time Exceeded");
    assert_eq!(HopType::Origin.label(), "[this server]");
    assert_eq!(Hop::new(1, HopType::TcpAck, None, Some(2_999_999), None).rtt_ms(), Some(2));
    assert_eq!(Hop::new(1, HopType::TcpAck, None, Some(3_000_000), None).rtt_ms(), Some(3));
    assert_eq!(Hop::new(1, HopType::Timeout, None, None, None).rtt_ms(), None);
}

#[test]
fn initial_ack_timeout_leaves_no_entry_behind() {
    let mut tracer = Tracer::new(local(), 32).unwrap();
    let mut map = TraceMap::new();
    let handle = TraceHandle::start_trace(&mut tracer, &mut map, remote()).unwrap();
    let id = handle.trace_id();
    assert!(tracer.is_live(id));
    assert_eq!(map.get(&remote()), Some(id));
    let mut s = handle.hop_stream();
    assert_eq!(s.begin(), Directive::Await { rearm: Some(5_000_000_000) });
    let step = s.step(Input::Timeout);
    assert_eq!(step.hop, None);
    assert_eq!(step.directive, Directive::Fail(TraceError::InitialAckTimeout));
    handle.close(&mut tracer, &mut map);
    assert!(!tracer.is_live(id));
    assert_eq!(tracer.len(), 0);
    assert_eq!(map.get(&remote()), None);
    assert_eq!(map.len(), 0);
}

#[test]
fn a_stream_made_directly_is_that_of_a_handle() {
    let direct = HopStream::new(local(), remote(), 9);
    assert_eq!(direct.sweep(), stream(9).sweep());
}

#[test]
fn hops_take_what_the_ip_database_knows() {
    let info = IpinfoCountryASN {
        as_domain: Some("example.net"),
        as_name: Some("Example"),
        asn: Some("AS64500"),
        continent: Some("Europe"),
        continent_code: Some("EU"),
        country: Some("Iceland"),
        country_code: Some("IS"),
        ip: None,
    };
    let hop = Hop::new(2, HopType::IcmpTimeExceeded, Some(router()), Some(5), None);
    let enriched = hop.enriched(Some(info));
    assert_eq!(enriched.enriched_info, Some(info));
    assert_eq!(enriched.ttl, 2);
    assert_eq!(enriched.addr, Some(router()));
    assert_eq!(enriched, Hop::new(2, HopType::IcmpTimeExceeded, Some(router()), Some(5), Some(info)));
    assert_eq!(enriched.enriched(None), hop);
}

#[test]
fn the_line_that_shows_a_hop() {
    assert_eq!(
        Hop::new(0, HopType::Origin, Some(local().addr), None, None).line(Some("10.0.0.2")),
        "0: [this server] from 10.0.0.2"
    );
    assert_eq!(
        Hop::new(3, HopType::IcmpTimeExceeded, Some(router()), Some(12_345_678), None)
            .line(Some("10.0.0.1")),
        "3: ICMP Time Exceeded from 10.0.0.1 (rtt 12ms)"
    );
    assert_eq!(
        Hop::new(255, HopType::TcpAck, Some(remote().addr), Some(999_999), None)
            .line(Some("1.2.3.4")),
        "255: TCP ACK from 1.2.3.4 (rtt 0ms)"
    );
    assert_eq!(
        Hop::new(17, HopType::TcpRst, None, Some(u64::MAX), None).line(Some("2001:db8::9")),
        "17: TCP Reset from 2001:db8::9 (rtt 18446744073709ms)"
    );
    assert_eq!(Hop::new(2, HopType::Timeout, None, None, None).line(None), "2: [timeout]");
    assert_eq!(
        Hop::new(100, HopType::Timeout, None, Some(1_000_000_000), None).line(None),
        "100: [timeout] (rtt 1000ms)"
    );
}
