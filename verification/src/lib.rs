//! In-band TCP traceroute: the path between a server and a client of a
//! live TCP connection, found by probes sent inside that connection.
//!
//! The library holds what the server decides and computes; it does no I/O.
//!
//! - [`wire`]: the records that the classifier and the engine exchange, and
//!   their encodings.
//! - [`classifier`]: which frames matter to a trace, and the event that
//!   each of them becomes.
//! - [`trace_map`]: the filter table, from remote socket address to trace.
//! - [`tracer`]: the engine of one address family and its registry of live
//!   traces.
//! - [`supervisor`]: the engines of one listener over one filter table.
//! - [`probe`]: the probes and their encoding as raw IP packets.
//! - [`sweep`] and [`hop_stream`]: the TTL sweep of one trace as a state
//!   machine, and the stream of hops that comes out of it.
//! - [`hop`]: what a trace reports for each step.
//! - [`pump`]: from a record of the classifier to the trace it is for.
//! - [`clock`], [`dns`], [`server`]: small rules at the edges.
//! - [`laws`]: what holds of several of these together.

pub mod classifier;
pub mod clock;
pub mod dns;
pub mod hop;
pub mod hop_stream;
pub mod laws;
pub mod probe;
pub mod pump;
pub mod server;
pub mod supervisor;
pub mod sweep;
pub mod trace_map;
pub mod tracer;
pub mod wire;
