//! The event pump: from the records that the classifier publishes to the
//! trace that each of them is for.
//!
//! The pump reads records in batches, one buffer per record. Each record is
//! decoded and handed to the engine of its address family, which finds the
//! trace by the record's trace id. A record that cannot be delivered is
//! reported and passed over; it never stops the pump.

use crate::tracer::Tracer;
use crate::wire::{IPVersion, SocketAddr, TraceEvent};
use vstd::prelude::*;

verus! {

/// The size of one receive buffer.
pub const EVENT_BUFFER_SIZE: usize = 1024;

/// The number of receive buffers that the pump keeps.
pub const EVENT_BUFFER_COUNT: usize = 10;

/// What becomes of one record.
#[derive(Debug, Clone, Copy, PartialEq, Eq)]
pub enum Dispatch {
    /// The event goes to the trace of `remote` on the engine of `family`.
    Deliver { family: IPVersion, remote: SocketAddr, event: TraceEvent },
    /// The record is too short for an event, or holds a kind or a family
    /// that does not exist.
    Malformed,
    /// The event is of no address family.
    InvalidFamily(TraceEvent),
    /// There is no engine for the event's address family.
    NoEngine(TraceEvent),
    /// The engine knows no trace with the event's id.
    UnknownTrace(TraceEvent),
}

/// What an engine, if there is one, makes of an event of its family.
pub open spec fn route(family: IPVersion, engine: Option<Map<u32, SocketAddr>>, event: TraceEvent) -> Dispatch {
    match engine {
        Some(traces) => if traces.contains_key(event.trace_id) {
            Dispatch::Deliver { family, remote: traces[event.trace_id], event }
        } else {
            Dispatch::UnknownTrace(event)
        },
        None => Dispatch::NoEngine(event),
    }
}

/// What becomes of `record`, given the registries of the two engines.
pub open spec fn spec_dispatch(
    record: Seq<u8>,
    v4: Option<Map<u32, SocketAddr>>,
    v6: Option<Map<u32, SocketAddr>>,
) -> Dispatch {
    if record.len() < 40 {
        Dispatch::Malformed
    } else {
        match TraceEvent::spec_from_bytes(record) {
            None => Dispatch::Malformed,
            Some(event) => match event.ip_version {
                IPVersion::IPV4 => route(IPVersion::IPV4, v4, event),
                IPVersion::IPV6 => route(IPVersion::IPV6, v6, event),
                IPVersion::EMPTY => Dispatch::InvalidFamily(event),
            },
        }
    }
}

/// The registry of an engine that may be absent.
pub open spec fn registry_of(tracer: Option<&Tracer>) -> Option<Map<u32, SocketAddr>> {
    match tracer {
        Some(t) => Some(t@),
        None => None,
    }
}

fn route_event(family: IPVersion, tracer: Option<&Tracer>, event: TraceEvent) -> (r: Dispatch)
    ensures
        r == route(family, registry_of(tracer), event),
{
    match tracer {
        Some(t) => match t.process_event(&event) {
            Ok(remote) => Dispatch::Deliver { family, remote, event },
            Err(_) => Dispatch::UnknownTrace(event),
        },
        None => Dispatch::NoEngine(event),
    }
}

/// Decodes one record and finds the trace it is for.
pub fn dispatch(record: &[u8], tracer_v4: Option<&Tracer>, tracer_v6: Option<&Tracer>) -> (r:
    Dispatch)
    ensures
        r == spec_dispatch(record@, registry_of(tracer_v4), registry_of(tracer_v6)),
{
    match TraceEvent::from_bytes(record) {
        None => Dispatch::Malformed,
        Some(event) => match event.ip_version {
            IPVersion::IPV4 => route_event(IPVersion::IPV4, tracer_v4, event),
            IPVersion::IPV6 => route_event(IPVersion::IPV6, tracer_v6, event),
            IPVersion::EMPTY => Dispatch::InvalidFamily(event),
        },
    }
}

/// Dispatches the first `read` buffers of a batch, in order; where the
/// batch has fewer buffers, all of them.
pub fn dispatch_batch(
    buffers: &Vec<Vec<u8>>,
    read: usize,
    tracer_v4: Option<&Tracer>,
    tracer_v6: Option<&Tracer>,
) -> (r: Vec<Dispatch>)
    ensures
        r@.len() == (if read <= buffers@.len() {
            read as int
        } else {
            buffers@.len() as int
        }),
        forall|i: int|
            0 <= i < r@.len() ==> #[trigger] r@[i] == spec_dispatch(
                buffers@[i]@,
                registry_of(tracer_v4),
                registry_of(tracer_v6),
            ),
{
    let mut out: Vec<Dispatch> = Vec::new();
    let mut i: usize = 0;
    while i < read && i < buffers.len()
        invariant
            i <= read,
            i <= buffers@.len(),
            out@.len() == i,
            forall|k: int|
                0 <= k < i ==> #[trigger] out@[k] == spec_dispatch(
                    buffers@[k]@,
                    registry_of(tracer_v4),
                    registry_of(tracer_v6),
                ),
        decreases buffers@.len() - i,
    {
        let d = dispatch(buffers[i].as_slice(), tracer_v4, tracer_v6);
        out.push(d);
        i += 1;
    }
    out
}

} // verus!
