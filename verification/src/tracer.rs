//! The trace engine of one address family: the registry of its live traces
//! and its share of the filter table.
//!
//! A trace is filed twice: in the engine's registry, from trace id to the
//! remote socket address, for dispatching events; and in the filter table,
//! from the remote socket address to the trace id, for the classifier. The
//! two entries are made together when a trace starts and removed together
//! when its handle is closed.

use crate::hop_stream::{HopStream, HopStreamState};
use crate::probe::Probe;
use crate::sweep::{seq_before, spec_seq_before, Sweep};
use crate::trace_map::{TraceMap, MAX_TRACES};
use crate::wire::{IPVersion, SocketAddr, TraceEvent};
use rand::rngs::OsRng;
use rand::Rng;
use std::collections::HashMap;
use vstd::prelude::*;

verus! {

broadcast use vstd::std_specs::hash::group_hash_axioms;

/// How often a trace id is drawn before a trace gives up on finding a free
/// one.
pub const MAX_TRACE_ID_DRAWS: u32 = 64;

/// The listener's address is of no family.
#[derive(Debug, Clone, Copy, PartialEq, Eq, Structural)]
pub struct InvalidFamily;

/// The event names a trace that the engine does not know.
#[derive(Debug, Clone, Copy, PartialEq, Eq, Structural)]
pub struct UnknownTrace;

/// Why a trace could not be started.
#[derive(Debug, Clone, Copy, PartialEq, Eq, Structural)]
pub enum StartError {
    /// The remote address is not of the engine's family.
    FamilyMismatch,
    /// The remote socket address is being traced already.
    AlreadyTraced,
    /// The filter table is full.
    TableFull,
    /// The trace id belongs to a live trace.
    TraceIdInUse,
    /// Every trace id drawn belonged to a live trace.
    NoFreeTraceId,
    /// There is no engine for the remote address's family.
    NoEngine,
}

/// The two tables in which traces are filed.
pub struct Registry {
    /// Of one engine: from trace id to remote socket address.
    pub traces: Map<u32, SocketAddr>,
    /// Shared by the engines: from remote socket address to trace id.
    pub table: Map<SocketAddr, u32>,
}

impl Registry {
    /// Both tables with the trace filed.
    pub open spec fn register(self, trace_id: u32, key: SocketAddr) -> Registry {
        Registry { traces: self.traces.insert(trace_id, key), table: self.table.insert(key, trace_id) }
    }

    /// Both tables with the trace taken out, each where it holds the trace.
    pub open spec fn release(self, trace_id: u32, key: SocketAddr) -> Registry {
        Registry {
            traces: if self.traces.contains_key(trace_id) && self.traces[trace_id] == key {
                self.traces.remove(trace_id)
            } else {
                self.traces
            },
            table: if self.table.contains_key(key) && self.table[key] == trace_id {
                self.table.remove(key)
            } else {
                self.table
            },
        }
    }

    /// Whether a trace of `remote` may start on an engine of `family`,
    /// whatever its id.
    pub open spec fn admits(self, family: IPVersion, remote: SocketAddr) -> Result<(), StartError> {
        if remote.addr.ip_version != family {
            Err(StartError::FamilyMismatch)
        } else if self.table.contains_key(remote) {
            Err(StartError::AlreadyTraced)
        } else if self.table.dom().len() >= MAX_TRACES {
            Err(StartError::TableFull)
        } else {
            Ok(())
        }
    }

    /// The tables after a trace of `remote` has started under `trace_id` on
    /// an engine of `family`, or why it cannot.
    pub open spec fn start(self, family: IPVersion, remote: SocketAddr, trace_id: u32) -> Result<
        Registry,
        StartError,
    > {
        match self.admits(family, remote) {
            Err(e) => Err(e),
            Ok(_) => if self.traces.contains_key(trace_id) {
                Err(StartError::TraceIdInUse)
            } else {
                Ok(self.register(trace_id, remote))
            },
        }
    }

    /// The engine's registry and its share of the filter table mirror each
    /// other: every live trace has its key in the table under its id, and
    /// every key of the engine's family in the table belongs to a live trace.
    pub open spec fn coupled(self, family: IPVersion) -> bool {
        &&& forall|id: u32| #[trigger]
            self.traces.contains_key(id) ==> self.traces[id].addr.ip_version == family
                && self.table.contains_key(self.traces[id]) && self.table[self.traces[id]] == id
        &&& forall|key: SocketAddr| #[trigger]
            self.table.contains_key(key) && key.addr.ip_version == family
                ==> self.traces.contains_key(self.table[key]) && self.traces[self.table[key]]
                == key
    }

    /// The registry after the traces of `requests` have started one after
    /// the other, if every one of them could.
    pub open spec fn start_all(self, family: IPVersion, requests: Seq<(SocketAddr, u32)>) -> Option<
        Registry,
    >
        decreases requests.len(),
    {
        if requests.len() == 0 {
            Some(self)
        } else {
            match self.start_all(family, requests.drop_last()) {
                Some(before) => match before.start(family, requests.last().0, requests.last().1) {
                    Ok(after) => Some(after),
                    Err(_) => None,
                },
                None => None,
            }
        }
    }
}

/// `rand::Rng::gen` on `rand::rngs::OsRng`: a `u32` from the operating
/// system's random source. Nothing is claimed of the number. The call does
/// not return if the operating system's random source fails; no argument
/// decides that.
#[verifier::external_body]
fn random_trace_id() -> (r: u32) {
    OsRng.gen()
}

/// The trace engine of one address family.
#[derive(Debug)]
pub struct Tracer {
    listen_addr: SocketAddr,
    max_hops: u8,
    traces: HashMap<u32, SocketAddr>,
}

impl View for Tracer {
    type V = Map<u32, SocketAddr>;

    closed spec fn view(&self) -> Map<u32, SocketAddr> {
        self.traces@
    }
}

/// A packet ready for the raw socket, and the address to send it to.
#[derive(Debug)]
pub struct OutboundPacket {
    pub bytes: Vec<u8>,
    pub send_to: SocketAddr,
}

impl Tracer {
    /// The local listener.
    pub closed spec fn spec_listen_addr(self) -> SocketAddr {
        self.listen_addr
    }

    /// The last TTL that a trace of this engine tries.
    pub closed spec fn spec_max_hops(self) -> u8 {
        self.max_hops
    }

    /// The engine's address family.
    pub open spec fn family(self) -> IPVersion {
        self.spec_listen_addr().addr.ip_version
    }

    /// The engine has a family, and its registry is finite.
    pub closed spec fn wf(self) -> bool {
        &&& self.listen_addr.addr.ip_version != IPVersion::EMPTY
        &&& self.traces@.dom().finite()
    }

    /// The engine's registry and the filter table, side by side.
    pub open spec fn registry(self, trace_map: TraceMap) -> Registry {
        Registry { traces: self@, table: trace_map@ }
    }

    /// An engine without traces. The listener's address must be IPv4 or
    /// IPv6.
    pub fn new(listen_addr: SocketAddr, max_hops: u8) -> (r: Result<Self, InvalidFamily>)
        ensures
            r is Ok <==> listen_addr.addr.ip_version != IPVersion::EMPTY,
            r is Ok ==> r->Ok_0.wf() && r->Ok_0.spec_listen_addr() == listen_addr
                && r->Ok_0.spec_max_hops() == max_hops && r->Ok_0@ == Map::<
                u32,
                SocketAddr,
            >::empty(),
    {
        match listen_addr.addr.ip_version {
            IPVersion::EMPTY => Err(InvalidFamily),
            _ => Ok(Tracer { listen_addr, max_hops, traces: HashMap::new() }),
        }
    }

    pub fn listen_addr(&self) -> (r: SocketAddr)
        ensures
            r == self.spec_listen_addr(),
    {
        self.listen_addr
    }

    pub fn max_hops(&self) -> (r: u8)
        ensures
            r == self.spec_max_hops(),
    {
        self.max_hops
    }

    /// The number of live traces.
    pub fn len(&self) -> (r: usize)
        requires
            self.wf(),
        ensures
            r == self@.dom().len(),
    {
        self.traces.len()
    }

    /// Whether `trace_id` belongs to a live trace.
    pub fn is_live(&self, trace_id: u32) -> (r: bool)
        ensures
            r == self@.contains_key(trace_id),
    {
        self.traces.contains_key(&trace_id)
    }

    /// The trace that `event` is for: the remote socket address of the
    /// live trace with the event's id.
    pub fn process_event(&self, event: &TraceEvent) -> (r: Result<SocketAddr, UnknownTrace>)
        ensures
            r == (if self@.contains_key(event.trace_id) {
                Ok(self@[event.trace_id])
            } else {
                Err(UnknownTrace)
            }),
    {
        match self.traces.get(&event.trace_id) {
            Some(remote) => Ok(*remote),
            None => Err(UnknownTrace),
        }
    }

    /// The probe that goes from the listener to `addr`.
    pub open spec fn spec_probe(self, addr: SocketAddr, ttl: u8, seq: u32, seq_ack: u32) -> Probe {
        Probe { source: self.spec_listen_addr(), destination: addr, ttl, seq, ack: seq_ack }
    }

    /// The probe for `addr` with the given TTL and numbers, as a packet for
    /// the raw socket; `None` where `addr` is not of the engine's family.
    pub fn outbound_packet(&self, addr: SocketAddr, ttl: u8, seq: u32, seq_ack: u32) -> (r: Option<
        OutboundPacket,
    >)
        requires
            self.wf(),
        ensures
            r is Some <==> addr.addr.ip_version == self.family(),
            r is Some ==> ({
                let probe = self.spec_probe(addr, ttl, seq, seq_ack);
                let headers = probe.spec_headers()->0;
                &&& probe.spec_headers() is Some
                &&& r->0.bytes@ == headers.spec_packet(Probe::spec_payload())
                &&& headers.laid_out(Probe::spec_payload(), r->0.bytes@)
                &&& r->0.send_to == probe.spec_send_to()
            }),
    {
        let probe = Probe { source: self.listen_addr, destination: addr, ttl, seq, ack: seq_ack };
        match probe.encode() {
            Some(bytes) => Some(OutboundPacket { bytes, send_to: probe.send_to() }),
            None => None,
        }
    }
}

impl Tracer {
    /// The probe of a burst at place `i`: the sequence number is taken one
    /// back in the second pair, the acknowledgment number in every second
    /// probe.
    pub open spec fn spec_burst_probe(
        self,
        addr: SocketAddr,
        ttl: u8,
        seq: u32,
        ack: u32,
        i: int,
    ) -> Probe {
        self.spec_probe(
            addr,
            ttl,
            if i >= 2 {
                spec_seq_before(seq)
            } else {
                seq
            },
            if i == 1 || i == 3 {
                spec_seq_before(ack)
            } else {
                ack
            },
        )
    }

    /// The packets of a burst, in the order in which they go out: four
    /// probes for `addr` with the same TTL, for the numbers as given and
    /// for each of them one back; `None` where `addr` is not of the
    /// engine's family.
    pub fn send_outbound_packet_burst(&self, addr: SocketAddr, ttl: u8, seq: u32, ack: u32) -> (r:
        Option<Vec<OutboundPacket>>)
        requires
            self.wf(),
        ensures
            r is Some <==> addr.addr.ip_version == self.family(),
            r is Some ==> r->0@.len() == 4 && forall|i: int|
                0 <= i < 4 ==> ({
                    let probe = self.spec_burst_probe(addr, ttl, seq, ack, i);
                    let headers = probe.spec_headers()->0;
                    &&& probe.spec_headers() is Some
                    &&& (#[trigger] r->0@[i]).bytes@ == headers.spec_packet(Probe::spec_payload())
                    &&& headers.laid_out(Probe::spec_payload(), r->0@[i].bytes@)
                    &&& r->0@[i].send_to == probe.spec_send_to()
                }),
    {
        let seq_back = seq_before(seq);
        let ack_back = seq_before(ack);
        let mut out: Vec<OutboundPacket> = Vec::new();
        match self.outbound_packet(addr, ttl, seq, ack) {
            Some(p) => out.push(p),
            None => {
                return None;
            },
        }
        match self.outbound_packet(addr, ttl, seq, ack_back) {
            Some(p) => out.push(p),
            None => {
                return None;
            },
        }
        match self.outbound_packet(addr, ttl, seq_back, ack) {
            Some(p) => out.push(p),
            None => {
                return None;
            },
        }
        match self.outbound_packet(addr, ttl, seq_back, ack_back) {
            Some(p) => out.push(p),
            None => {
                return None;
            },
        }
        Some(out)
    }
}

/// A live trace: its id, its two ends and how far it goes.
#[derive(Debug)]
pub struct TraceHandle {
    trace_id: u32,
    remote: SocketAddr,
    local: SocketAddr,
    max_hops: u8,
}

impl TraceHandle {
    pub closed spec fn spec_trace_id(self) -> u32 {
        self.trace_id
    }

    /// The remote peer, which is also the trace's key in the filter table.
    pub closed spec fn spec_remote(self) -> SocketAddr {
        self.remote
    }

    /// The local listener.
    pub closed spec fn spec_local(self) -> SocketAddr {
        self.local
    }

    pub closed spec fn spec_max_hops(self) -> u8 {
        self.max_hops
    }

    /// The handle of a trace of `tracer` to `remote` under `trace_id`.
    pub open spec fn of(self, tracer: Tracer, remote: SocketAddr, trace_id: u32) -> bool {
        &&& self.spec_trace_id() == trace_id
        &&& self.spec_remote() == remote
        &&& self.spec_local() == tracer.spec_listen_addr()
        &&& self.spec_max_hops() == tracer.spec_max_hops()
    }

    pub fn trace_id(&self) -> (r: u32)
        ensures
            r == self.spec_trace_id(),
    {
        self.trace_id
    }

    pub fn remote(&self) -> (r: SocketAddr)
        ensures
            r == self.spec_remote(),
    {
        self.remote
    }

    /// Whether a trace of `remote` may start on `tracer`, whatever its id.
    fn check_admission(tracer: &Tracer, trace_map: &TraceMap, remote: &SocketAddr) -> (r: Result<
        (),
        StartError,
    >)
        requires
            tracer.wf(),
            trace_map.wf(),
        ensures
            r == tracer.registry(*trace_map).admits(tracer.family(), *remote),
    {
        proof {
            trace_map.lemma_len();
        }
        if remote.addr.ip_version != tracer.listen_addr.addr.ip_version {
            Err(StartError::FamilyMismatch)
        } else if trace_map.get(remote).is_some() {
            Err(StartError::AlreadyTraced)
        } else if trace_map.len() >= MAX_TRACES {
            Err(StartError::TableFull)
        } else {
            Ok(())
        }
    }

    /// Files the trace in both tables.
    fn file(tracer: &mut Tracer, trace_map: &mut TraceMap, remote: SocketAddr, trace_id: u32) -> (r:
        TraceHandle)
        requires
            old(tracer).wf(),
            old(trace_map).wf(),
            old(tracer).registry(*old(trace_map)).start(old(tracer).family(), remote, trace_id)
                is Ok,
        ensures
            final(tracer).wf(),
            final(trace_map).wf(),
            final(tracer).spec_listen_addr() == old(tracer).spec_listen_addr(),
            final(tracer).spec_max_hops() == old(tracer).spec_max_hops(),
            final(tracer).registry(*final(trace_map)) == old(tracer).registry(
                *old(trace_map),
            ).register(trace_id, remote),
            r.of(*old(tracer), remote, trace_id),
    {
        proof {
            trace_map.lemma_len();
        }
        let filed = trace_map.insert(remote, trace_id);
        assert(filed is Ok);
        tracer.traces.insert(trace_id, remote);
        TraceHandle {
            trace_id,
            remote,
            local: tracer.listen_addr,
            max_hops: tracer.max_hops,
        }
    }

    /// Starts a trace of `remote` under the given id: the trace is filed in
    /// the engine's registry and in the filter table, or nothing changes.
    pub fn start_trace_with_id(
        tracer: &mut Tracer,
        trace_map: &mut TraceMap,
        remote: SocketAddr,
        trace_id: u32,
    ) -> (r: Result<TraceHandle, StartError>)
        requires
            old(tracer).wf(),
            old(trace_map).wf(),
        ensures
            final(tracer).wf(),
            final(trace_map).wf(),
            final(tracer).spec_listen_addr() == old(tracer).spec_listen_addr(),
            final(tracer).spec_max_hops() == old(tracer).spec_max_hops(),
            match old(tracer).registry(*old(trace_map)).start(old(tracer).family(), remote, trace_id) {
                Ok(after) => r is Ok && r->Ok_0.of(*old(tracer), remote, trace_id)
                    && final(tracer).registry(*final(trace_map)) == after,
                Err(e) => r == Err::<TraceHandle, StartError>(e) && final(tracer).registry(
                    *final(trace_map),
                ) == old(tracer).registry(*old(trace_map)),
            },
    {
        match TraceHandle::check_admission(tracer, trace_map, &remote) {
            Err(e) => Err(e),
            Ok(_) => {
                if tracer.traces.contains_key(&trace_id) {
                    Err(StartError::TraceIdInUse)
                } else {
                    Ok(TraceHandle::file(tracer, trace_map, remote, trace_id))
                }
            },
        }
    }

    /// Starts a trace of `remote` under an id drawn at random, drawn again
    /// while it belongs to a live trace, `MAX_TRACE_ID_DRAWS` times at most.
    ///
    /// The trace is filed in the engine's registry and in the filter table
    /// under an id that no live trace had, or nothing changes. It starts
    /// for certain where the engine has no live trace and the filter table
    /// admits `remote`.
    pub fn start_trace(tracer: &mut Tracer, trace_map: &mut TraceMap, remote: SocketAddr) -> (r:
        Result<TraceHandle, StartError>)
        requires
            old(tracer).wf(),
            old(trace_map).wf(),
        ensures
            final(tracer).wf(),
            final(trace_map).wf(),
            final(tracer).spec_listen_addr() == old(tracer).spec_listen_addr(),
            final(tracer).spec_max_hops() == old(tracer).spec_max_hops(),
            match r {
                Ok(handle) => {
                    &&& handle.of(*old(tracer), remote, handle.spec_trace_id())
                    &&& old(tracer).registry(*old(trace_map)).start(
                        old(tracer).family(),
                        remote,
                        handle.spec_trace_id(),
                    ) == Ok::<Registry, StartError>(final(tracer).registry(*final(trace_map)))
                },
                Err(e) => {
                    &&& final(tracer).registry(*final(trace_map)) == old(tracer).registry(
                        *old(trace_map),
                    )
                    &&& e != StartError::TraceIdInUse
                    &&& e != StartError::NoEngine
                    &&& e == StartError::NoFreeTraceId ==> old(tracer)@.dom().len() > 0
                    &&& match old(tracer).registry(*old(trace_map)).admits(
                        old(tracer).family(),
                        remote,
                    ) {
                        Err(why) => e == why,
                        Ok(_) => e == StartError::NoFreeTraceId,
                    }
                },
            },
    {
        match TraceHandle::check_admission(tracer, trace_map, &remote) {
            Err(e) => {
                return Err(e);
            },
            Ok(_) => {},
        }
        let mut draws: u32 = 0;
        while draws < MAX_TRACE_ID_DRAWS
            invariant
                tracer.wf(),
                trace_map.wf(),
                *tracer == *old(tracer),
                *trace_map == *old(trace_map),
                tracer.registry(*trace_map).admits(tracer.family(), remote) is Ok,
                draws > 0 ==> tracer@.dom().len() > 0,
            decreases MAX_TRACE_ID_DRAWS - draws,
        {
            let trace_id = random_trace_id();
            if !tracer.traces.contains_key(&trace_id) {
                return Ok(TraceHandle::file(tracer, trace_map, remote, trace_id));
            }
            proof {
                assert(tracer@.dom().contains(trace_id));
                if tracer@.dom().len() == 0 {
                    vstd::set_lib::lemma_set_empty_equivalency_len(tracer@.dom());
                }
            }
            draws += 1;
        }
        Err(StartError::NoFreeTraceId)
    }

    /// The stream of hops of this trace, before its first step.
    pub fn hop_stream(&self) -> (r: HopStream)
        ensures
            r.wf(),
            r@ == (HopStreamState {
                sweep: Sweep::spec_new(
                    self.spec_local(),
                    self.spec_remote(),
                    self.spec_max_hops(),
                ),
                seen: Set::<u8>::empty(),
            }),
    {
        HopStream::new(self.local, self.remote, self.max_hops)
    }

    /// Ends the trace: its entries leave the engine's registry and the
    /// filter table, each where it still holds this trace.
    pub fn close(self, tracer: &mut Tracer, trace_map: &mut TraceMap)
        requires
            old(tracer).wf(),
            old(trace_map).wf(),
        ensures
            final(tracer).wf(),
            final(trace_map).wf(),
            final(tracer).spec_listen_addr() == old(tracer).spec_listen_addr(),
            final(tracer).spec_max_hops() == old(tracer).spec_max_hops(),
            final(tracer).registry(*final(trace_map)) == old(tracer).registry(
                *old(trace_map),
            ).release(self.spec_trace_id(), self.spec_remote()),
    {
        let in_table = match trace_map.get(&self.remote) {
            Some(id) => id == self.trace_id,
            None => false,
        };
        if in_table {
            trace_map.remove(&self.remote);
        }
        let in_registry = match tracer.traces.get(&self.trace_id) {
            Some(key) => *key == self.remote,
            None => false,
        };
        if in_registry {
            tracer.traces.remove(&self.trace_id);
        }
    }
}

} // verus!
