//! The TTL sweep of one trace, as a state machine.
//!
//! The machine does no I/O. Its driver performs what a [`Directive`] asks
//! (wait for an event, send a probe) and reports what happened as an
//! [`Input`]; each step may yield one [`Hop`].
//!
//! A trace first waits for an ACK of the live flow, from which it takes the
//! flow's sequence numbers. It reports the origin, then sends one probe per
//! TTL from 1 to `max_hops`, and after each waits for what comes back.
//! Sequence numbers and times are taken modulo 2^32 and 2^64.

use crate::hop::{Hop, HopType};
use crate::probe::Probe;
use crate::wire::{SocketAddr, TraceEvent, TraceEventType};
use vstd::prelude::*;

verus! {

/// How long a trace waits for the first ACK of the live flow.
pub const INITIAL_ACK_TIMEOUT_NS: u64 = 5_000_000_000;

/// How long a trace waits for the answer to one probe.
pub const STEP_TIMEOUT_NS: u64 = 1_000_000_000;

/// The number of hops that a trace tries unless told otherwise.
pub const DEFAULT_MAX_HOPS: u8 = 32;

/// Why a trace ended without completing its sweep.
#[derive(Debug, Clone, Copy, PartialEq, Eq, Structural)]
pub enum TraceError {
    /// No ACK of the live flow arrived in time.
    InitialAckTimeout,
    /// A probe could not be sent.
    SendFailure,
    /// The trace's event channel was closed.
    ChannelClosed,
}

/// Where a sweep stands.
#[derive(Debug, Clone, Copy, PartialEq, Eq, Structural)]
pub enum Phase {
    /// Waiting for the first ACK of the live flow.
    AwaitingInitialAck,
    /// The probe for `ttl` is with the driver to be sent.
    Sending { ttl: u8 },
    /// The probe for `ttl` went out at `sent_ns` with sequence number
    /// `sent_seq`; waiting for what comes back.
    Waiting { ttl: u8, sent_seq: u32, sent_ns: u64 },
    /// The sweep is complete.
    Finished,
    /// The trace failed.
    Failed(TraceError),
}

/// What the driver reports to the machine.
#[derive(Debug, Clone, Copy, PartialEq, Eq)]
pub enum Input {
    /// An event of the classifier for this trace.
    Event(TraceEvent),
    /// The timer ran out.
    Timeout,
    /// The probe went out at `sent_ns`.
    ProbeSent { sent_ns: u64 },
    /// The probe could not be sent.
    SendFailed,
    /// The event channel was closed.
    Closed,
}

/// What the machine asks of its driver.
#[derive(Debug, Clone, Copy, PartialEq, Eq)]
pub enum Directive {
    /// Wait for the next event. With `rearm`, first set the timer to that
    /// many nanoseconds; without, let the running timer run on.
    Await { rearm: Option<u64> },
    /// Send this probe and report when it went out.
    Send(Probe),
    /// Nothing more: the stream of hops has ended.
    Done,
    /// Nothing more: the trace has failed.
    Fail(TraceError),
}

/// The outcome of one step of a [`Sweep`].
#[derive(Debug, Clone, Copy, PartialEq, Eq)]
pub struct SweepStep {
    pub hop: Option<Hop>,
    pub directive: Directive,
}

/// The sequence number before `ack_seq`.
pub open spec fn spec_seq_before(ack_seq: u32) -> u32 {
    if ack_seq == 0 {
        u32::MAX
    } else {
        (ack_seq - 1) as u32
    }
}

/// The time from `sent_ns` to `arrival_ns`.
pub open spec fn spec_elapsed(arrival_ns: u64, sent_ns: u64) -> u64 {
    if arrival_ns >= sent_ns {
        (arrival_ns - sent_ns) as u64
    } else {
        (arrival_ns + 0x1_0000_0000_0000_0000 - sent_ns) as u64
    }
}

#[verifier::when_used_as_spec(spec_seq_before)]
pub fn seq_before(ack_seq: u32) -> (r: u32)
    ensures
        r == spec_seq_before(ack_seq),
{
    if ack_seq == 0 {
        u32::MAX
    } else {
        ack_seq - 1
    }
}

#[verifier::when_used_as_spec(spec_elapsed)]
pub fn elapsed(arrival_ns: u64, sent_ns: u64) -> (r: u64)
    ensures
        r == spec_elapsed(arrival_ns, sent_ns),
{
    if arrival_ns >= sent_ns {
        arrival_ns - sent_ns
    } else {
        u64::MAX - (sent_ns - arrival_ns) + 1
    }
}

/// The sweep of one trace, without the filter for repeated TTLs.
#[derive(Debug, Clone, Copy, PartialEq, Eq)]
pub struct Sweep {
    /// The local listener.
    pub local: SocketAddr,
    /// The remote peer.
    pub remote: SocketAddr,
    /// The last TTL to try.
    pub max_hops: u8,
    pub phase: Phase,
    /// What the peer has acknowledged of the live flow, as last seen.
    pub ack_seq: u32,
    /// The peer's own sequence number, as last seen.
    pub seq: u32,
}

impl Sweep {
    /// A sweep that has not begun.
    pub open spec fn spec_new(local: SocketAddr, remote: SocketAddr, max_hops: u8) -> Sweep {
        Sweep { local, remote, max_hops, phase: Phase::AwaitingInitialAck, ack_seq: 0, seq: 0 }
    }

    /// The TTL in flight is one that the sweep tries.
    pub open spec fn wf(self) -> bool {
        match self.phase {
            Phase::Sending { ttl } => 1 <= ttl <= self.max_hops,
            Phase::Waiting { ttl, .. } => 1 <= ttl <= self.max_hops,
            _ => true,
        }
    }

    /// The probe for `ttl`: it repeats the last byte that the peer has
    /// acknowledged, so that the peer answers it with an ACK of the same
    /// number.
    pub open spec fn spec_probe(self, ttl: u8) -> Probe {
        Probe {
            source: self.local,
            destination: self.remote,
            ttl,
            seq: spec_seq_before(self.ack_seq),
            ack: self.seq,
        }
    }

    /// What the driver is to do while the sweep stands where it stands.
    pub open spec fn spec_pending(self) -> Directive {
        match self.phase {
            Phase::AwaitingInitialAck => Directive::Await { rearm: None },
            Phase::Sending { ttl } => Directive::Send(self.spec_probe(ttl)),
            Phase::Waiting { .. } => Directive::Await { rearm: None },
            Phase::Finished => Directive::Done,
            Phase::Failed(e) => Directive::Fail(e),
        }
    }

    /// The sweep once the step for `ttl` is over: on to the next TTL, or
    /// finished after the last.
    pub open spec fn spec_advance(self, ttl: u8) -> Sweep {
        if ttl < self.max_hops {
            Sweep { phase: Phase::Sending { ttl: (ttl + 1) as u8 }, ..self }
        } else {
            Sweep { phase: Phase::Finished, ..self }
        }
    }

    /// The sweep after it has failed with `e`.
    pub open spec fn spec_fail(self, e: TraceError) -> (Sweep, SweepStep) {
        (
            Sweep { phase: Phase::Failed(e), ..self },
            SweepStep { hop: None, directive: Directive::Fail(e) },
        )
    }

    /// An input that does not concern the sweep where it stands: nothing
    /// changes, and the driver is told again what to do.
    pub open spec fn spec_ignore(self) -> (Sweep, SweepStep) {
        (self, SweepStep { hop: None, directive: self.spec_pending() })
    }

    /// A step that reports `hop` and moves on from `ttl`.
    pub open spec fn spec_report(self, ttl: u8, hop: Hop) -> (Sweep, SweepStep) {
        let next = self.spec_advance(ttl);
        (next, SweepStep { hop: Some(hop), directive: next.spec_pending() })
    }

    /// A step that reports `hop` and ends the sweep.
    pub open spec fn spec_conclude(self, hop: Hop) -> (Sweep, SweepStep) {
        (
            Sweep { phase: Phase::Finished, ..self },
            SweepStep { hop: Some(hop), directive: Directive::Done },
        )
    }

    /// While waiting for the first ACK: an ACK gives the flow's numbers, the
    /// origin is reported and the sweep begins at TTL 1; other events are
    /// passed over; the timer's end and a closed channel fail the trace.
    pub open spec fn spec_step_initial(self, input: Input) -> (Sweep, SweepStep) {
        match input {
            Input::Event(e) => match e.event_type {
                TraceEventType::TcpAck => {
                    let synced = Sweep { ack_seq: e.ack_seq, seq: e.seq, ..self };
                    synced.spec_report(
                        0,
                        Hop {
                            ttl: 0,
                            hop_type: HopType::Origin,
                            addr: Some(self.local.addr),
                            rtt: None,
                            enriched_info: None,
                        },
                    )
                },
                _ => self.spec_ignore(),
            },
            Input::Timeout => self.spec_fail(TraceError::InitialAckTimeout),
            Input::Closed => self.spec_fail(TraceError::ChannelClosed),
            _ => self.spec_ignore(),
        }
    }

    /// While a probe is with the driver: once it is out, the wait for its
    /// answer begins; if it cannot be sent, the trace fails.
    pub open spec fn spec_step_sending(self, ttl: u8, input: Input) -> (Sweep, SweepStep) {
        match input {
            Input::ProbeSent { sent_ns } => (
                Sweep {
                    phase: Phase::Waiting { ttl, sent_seq: spec_seq_before(self.ack_seq), sent_ns },
                    ..self
                },
                SweepStep { hop: None, directive: Directive::Await { rearm: Some(STEP_TIMEOUT_NS) } },
            ),
            Input::SendFailed => self.spec_fail(TraceError::SendFailure),
            _ => self.spec_ignore(),
        }
    }

    /// While waiting for the answer to the probe for `ttl`.
    ///
    /// - The timer's end is a `Timeout` hop; on to the next TTL.
    /// - A Time Exceeded is a hop under the identity that the event
    ///   carries, from the router that sent it; on to the next TTL.
    /// - An ACK of the probe (its number less one is the probe's sequence
    ///   number) is the last hop. Any other ACK belongs to the live flow:
    ///   the flow's numbers are taken from it and the wait goes on.
    /// - A reset is the last hop.
    /// - A closed channel fails the trace.
    pub open spec fn spec_step_waiting(
        self,
        ttl: u8,
        sent_seq: u32,
        sent_ns: u64,
        input: Input,
    ) -> (Sweep, SweepStep) {
        match input {
            Input::Timeout => self.spec_report(
                ttl,
                Hop { ttl, hop_type: HopType::Timeout, addr: None, rtt: None, enriched_info: None },
            ),
            Input::Event(e) => {
                let rtt = Some(spec_elapsed(e.arrival, sent_ns));
                match e.event_type {
                    TraceEventType::IcmpTimeExceeded => self.spec_report(
                        ttl,
                        Hop {
                            ttl: e.ttl,
                            hop_type: HopType::IcmpTimeExceeded,
                            addr: Some(e.addr),
                            rtt,
                            enriched_info: None,
                        },
                    ),
                    TraceEventType::TcpAck => if spec_seq_before(e.ack_seq) == sent_seq {
                        self.spec_conclude(
                            Hop {
                                ttl,
                                hop_type: HopType::TcpAck,
                                addr: Some(self.remote.addr),
                                rtt,
                                enriched_info: None,
                            },
                        )
                    } else {
                        (
                            Sweep { ack_seq: e.ack_seq, seq: e.seq, ..self },
                            SweepStep { hop: None, directive: Directive::Await { rearm: None } },
                        )
                    },
                    TraceEventType::TcpRst => self.spec_conclude(
                        Hop { ttl, hop_type: HopType::TcpRst, addr: Some(self.remote.addr), rtt, enriched_info: None },
                    ),
                }
            },
            Input::Closed => self.spec_fail(TraceError::ChannelClosed),
            _ => self.spec_ignore(),
        }
    }

    /// One step of the sweep: the state that follows, the hop to report and
    /// what the driver is to do next.
    pub open spec fn spec_step(self, input: Input) -> (Sweep, SweepStep) {
        match self.phase {
            Phase::AwaitingInitialAck => self.spec_step_initial(input),
            Phase::Sending { ttl } => self.spec_step_sending(ttl, input),
            Phase::Waiting { ttl, sent_seq, sent_ns } => self.spec_step_waiting(
                ttl,
                sent_seq,
                sent_ns,
                input,
            ),
            Phase::Finished => self.spec_ignore(),
            Phase::Failed(_) => self.spec_ignore(),
        }
    }

    /// The most hops that the sweep can still report.
    pub open spec fn spec_remaining(self) -> int {
        match self.phase {
            Phase::AwaitingInitialAck => self.max_hops + 1,
            Phase::Sending { ttl } => self.max_hops - ttl + 1,
            Phase::Waiting { ttl, .. } => self.max_hops - ttl + 1,
            Phase::Finished => 0,
            Phase::Failed(_) => 0,
        }
    }

    pub fn new(local: SocketAddr, remote: SocketAddr, max_hops: u8) -> (r: Self)
        ensures
            r == Sweep::spec_new(local, remote, max_hops),
            r.wf(),
    {
        Sweep { local, remote, max_hops, phase: Phase::AwaitingInitialAck, ack_seq: 0, seq: 0 }
    }

    /// What the driver is to do first: wait for the first ACK, for no longer
    /// than `INITIAL_ACK_TIMEOUT_NS`.
    pub fn begin(&self) -> (r: Directive)
        ensures
            r == (Directive::Await { rearm: Some(INITIAL_ACK_TIMEOUT_NS) }),
    {
        Directive::Await { rearm: Some(INITIAL_ACK_TIMEOUT_NS) }
    }

    pub fn probe(&self, ttl: u8) -> (r: Probe)
        ensures
            r == self.spec_probe(ttl),
    {
        Probe {
            source: self.local,
            destination: self.remote,
            ttl,
            seq: seq_before(self.ack_seq),
            ack: self.seq,
        }
    }

    pub fn pending(&self) -> (r: Directive)
        ensures
            r == self.spec_pending(),
    {
        match self.phase {
            Phase::AwaitingInitialAck => Directive::Await { rearm: None },
            Phase::Sending { ttl } => Directive::Send(self.probe(ttl)),
            Phase::Waiting { .. } => Directive::Await { rearm: None },
            Phase::Finished => Directive::Done,
            Phase::Failed(e) => Directive::Fail(e),
        }
    }

    /// Whether the sweep has ended, complete or failed.
    pub fn is_over(&self) -> (r: bool)
        ensures
            r == (self.phase is Finished || self.phase is Failed),
    {
        match self.phase {
            Phase::Finished => true,
            Phase::Failed(_) => true,
            _ => false,
        }
    }

    fn fail(&mut self, e: TraceError) -> (r: SweepStep)
        ensures
            (*final(self), r) == old(self).spec_fail(e),
    {
        self.phase = Phase::Failed(e);
        SweepStep { hop: None, directive: Directive::Fail(e) }
    }

    fn ignore(&self) -> (r: SweepStep)
        ensures
            (*self, r) == self.spec_ignore(),
    {
        SweepStep { hop: None, directive: self.pending() }
    }

    fn report(&mut self, ttl: u8, hop: Hop) -> (r: SweepStep)
        ensures
            (*final(self), r) == old(self).spec_report(ttl, hop),
    {
        if ttl < self.max_hops {
            self.phase = Phase::Sending { ttl: ttl + 1 };
        } else {
            self.phase = Phase::Finished;
        }
        SweepStep { hop: Some(hop), directive: self.pending() }
    }

    fn conclude(&mut self, hop: Hop) -> (r: SweepStep)
        ensures
            (*final(self), r) == old(self).spec_conclude(hop),
    {
        self.phase = Phase::Finished;
        SweepStep { hop: Some(hop), directive: Directive::Done }
    }

    fn step_initial(&mut self, input: Input) -> (r: SweepStep)
        ensures
            (*final(self), r) == old(self).spec_step_initial(input),
    {
        match input {
            Input::Event(e) => match e.event_type {
                TraceEventType::TcpAck => {
                    self.ack_seq = e.ack_seq;
                    self.seq = e.seq;
                    let origin = Hop {
                        ttl: 0,
                        hop_type: HopType::Origin,
                        addr: Some(self.local.addr),
                        rtt: None,
                        enriched_info: None,
                    };
                    self.report(0, origin)
                },
                _ => self.ignore(),
            },
            Input::Timeout => self.fail(TraceError::InitialAckTimeout),
            Input::Closed => self.fail(TraceError::ChannelClosed),
            _ => self.ignore(),
        }
    }

    fn step_sending(&mut self, ttl: u8, input: Input) -> (r: SweepStep)
        ensures
            (*final(self), r) == old(self).spec_step_sending(ttl, input),
    {
        match input {
            Input::ProbeSent { sent_ns } => {
                self.phase = Phase::Waiting { ttl, sent_seq: seq_before(self.ack_seq), sent_ns };
                SweepStep { hop: None, directive: Directive::Await { rearm: Some(STEP_TIMEOUT_NS) } }
            },
            Input::SendFailed => self.fail(TraceError::SendFailure),
            _ => self.ignore(),
        }
    }

    fn step_waiting(&mut self, ttl: u8, sent_seq: u32, sent_ns: u64, input: Input) -> (r:
        SweepStep)
        ensures
            (*final(self), r) == old(self).spec_step_waiting(ttl, sent_seq, sent_ns, input),
    {
        match input {
            Input::Timeout => {
                let hop = Hop { ttl, hop_type: HopType::Timeout, addr: None, rtt: None, enriched_info: None };
                self.report(ttl, hop)
            },
            Input::Event(e) => {
                let rtt = Some(elapsed(e.arrival, sent_ns));
                match e.event_type {
                    TraceEventType::IcmpTimeExceeded => {
                        let hop = Hop {
                            ttl: e.ttl,
                            hop_type: HopType::IcmpTimeExceeded,
                            addr: Some(e.addr),
                            rtt,
                            enriched_info: None,
                        };
                        self.report(ttl, hop)
                    },
                    TraceEventType::TcpAck => {
                        if seq_before(e.ack_seq) == sent_seq {
                            let hop = Hop {
                                ttl,
                                hop_type: HopType::TcpAck,
                                addr: Some(self.remote.addr),
                                rtt,
                                enriched_info: None,
                            };
                            self.conclude(hop)
                        } else {
                            self.ack_seq = e.ack_seq;
                            self.seq = e.seq;
                            SweepStep { hop: None, directive: Directive::Await { rearm: None } }
                        }
                    },
                    TraceEventType::TcpRst => {
                        let hop = Hop {
                            ttl,
                            hop_type: HopType::TcpRst,
                            addr: Some(self.remote.addr),
                            rtt,
                            enriched_info: None,
                        };
                        self.conclude(hop)
                    },
                }
            },
            Input::Closed => self.fail(TraceError::ChannelClosed),
            _ => self.ignore(),
        }
    }

    /// Takes one input and returns the hop to report, if any, and what the
    /// driver is to do next.
    pub fn step(&mut self, input: Input) -> (r: SweepStep)
        ensures
            (*final(self), r) == old(self).spec_step(input),
    {
        match self.phase {
            Phase::AwaitingInitialAck => self.step_initial(input),
            Phase::Sending { ttl } => self.step_sending(ttl, input),
            Phase::Waiting { ttl, sent_seq, sent_ns } => self.step_waiting(
                ttl,
                sent_seq,
                sent_ns,
                input,
            ),
            Phase::Finished => self.ignore(),
            Phase::Failed(_) => self.ignore(),
        }
    }
}

} // verus!
