//! The supervisor: the engines of the configured address families, the
//! filter table that they share, and the classifier's configuration.

use crate::classifier::{inband_traceroute, published_event, Verdict};
use crate::laws::{
    law_other_family_untouched, law_registration_symmetry, law_release_keeps_mirror,
    law_release_other_family_untouched,
};
use crate::pump::{dispatch, spec_dispatch, Dispatch};
use crate::trace_map::TraceMap;
use crate::tracer::{Registry, StartError, TraceHandle, Tracer};
use crate::wire::{EbpfConfig, IPAddr, IPVersion, SocketAddr, TraceEvent};
use vstd::prelude::*;

verus! {

/// Neither an IPv4 nor an IPv6 address was given to listen on.
#[derive(Debug, Clone, Copy, PartialEq, Eq, Structural)]
pub struct NoAddress;

/// The engines of one listener and what they share.
#[derive(Debug)]
pub struct Supervisor {
    config: EbpfConfig,
    tracer_v4: Option<Tracer>,
    tracer_v6: Option<Tracer>,
    trace_map: TraceMap,
}

impl Supervisor {
    /// What the classifier is told about the listener.
    pub closed spec fn spec_config(self) -> EbpfConfig {
        self.config
    }

    /// The filter table.
    pub closed spec fn table(self) -> Map<SocketAddr, u32> {
        self.trace_map@
    }

    /// The IPv4 engine, if there is one.
    pub closed spec fn spec_v4(self) -> Option<Tracer> {
        self.tracer_v4
    }

    /// The IPv6 engine, if there is one.
    pub closed spec fn spec_v6(self) -> Option<Tracer> {
        self.tracer_v6
    }

    /// The registry of the engine of `family`, if there is one.
    pub open spec fn engine(self, family: IPVersion) -> Option<Map<u32, SocketAddr>> {
        match family {
            IPVersion::IPV4 => match self.spec_v4() {
                Some(t) => Some(t@),
                None => None,
            },
            IPVersion::IPV6 => match self.spec_v6() {
                Some(t) => Some(t@),
                None => None,
            },
            IPVersion::EMPTY => None,
        }
    }

    /// The engine of `family`, if there is one.
    pub open spec fn tracer(self, family: IPVersion) -> Option<Tracer> {
        match family {
            IPVersion::IPV4 => self.spec_v4(),
            IPVersion::IPV6 => self.spec_v6(),
            IPVersion::EMPTY => None,
        }
    }

    /// `self` has the engines that `before` had, each listening where it
    /// did and going as far as it did.
    pub open spec fn same_engines(self, before: Supervisor) -> bool {
        forall|family: IPVersion|
            match (#[trigger] self.tracer(family), before.tracer(family)) {
                (Some(now), Some(then)) => now.spec_listen_addr() == then.spec_listen_addr()
                    && now.spec_max_hops() == then.spec_max_hops(),
                (None, None) => true,
                _ => false,
            }
    }

    /// Whether a live trace has `key` as its remote socket address.
    pub open spec fn is_traced(self, key: SocketAddr) -> bool {
        match self.engine(key.addr.ip_version) {
            Some(traces) => exists|id: u32| #[trigger] traces.contains_key(id) && traces[id] == key,
            None => false,
        }
    }

    /// The registry of the engine of `family` beside the filter table.
    pub open spec fn registry(self, family: IPVersion) -> Registry {
        Registry { traces: self.engine(family)->0, table: self.table() }
    }

    spec fn engine_wf(self, tracer: Option<Tracer>, family: IPVersion, slot: IPAddr) -> bool {
        match tracer {
            Some(t) => {
                &&& t.wf()
                &&& t.family() == family
                &&& t.spec_listen_addr().addr == slot
                &&& t.spec_listen_addr().port == self.config.spec_port()
                &&& (Registry { traces: t@, table: self.trace_map@ }).coupled(family)
            },
            None => {
                &&& slot.ip_version == IPVersion::EMPTY
                &&& forall|key: SocketAddr| #[trigger]
                    self.trace_map@.contains_key(key) ==> key.addr.ip_version != family
            },
        }
    }

    /// There is an engine; each engine listens where the configuration
    /// says and mirrors its share of the filter table, in which every key is
    /// of a family that has an engine.
    pub closed spec fn wf(self) -> bool {
        &&& self.trace_map.wf()
        &&& self.tracer_v4 is Some || self.tracer_v6 is Some
        &&& self.engine_wf(self.tracer_v4, IPVersion::IPV4, self.config.ipv4())
        &&& self.engine_wf(self.tracer_v6, IPVersion::IPV6, self.config.ipv6())
        &&& forall|key: SocketAddr| #[trigger]
            self.trace_map@.contains_key(key) ==> key.addr.ip_version != IPVersion::EMPTY
    }

    /// The filter table holds a key exactly while a live trace has it, and
    /// holds it under that trace's id.
    pub proof fn law_filter_table_mirrors_live_traces(self)
        requires
            self.wf(),
        ensures
            forall|key: SocketAddr| #[trigger]
                self.table().contains_key(key) <==> self.is_traced(key),
            forall|key: SocketAddr| #[trigger]
                self.table().contains_key(key) ==> self.engine(key.addr.ip_version) is Some
                    && self.engine(key.addr.ip_version)->0.contains_key(self.table()[key])
                    && self.engine(key.addr.ip_version)->0[self.table()[key]] == key,
            self.engine(IPVersion::IPV4) is Some || self.engine(IPVersion::IPV6) is Some,
    {
        assert forall|key: SocketAddr| #[trigger]
            self.table().contains_key(key) <==> self.is_traced(key) by {
            if self.table().contains_key(key) {
                assert(self.trace_map@.contains_key(key));
                match key.addr.ip_version {
                    IPVersion::IPV4 => {
                        assert(self.tracer_v4 is Some);
                        let reg = Registry { traces: self.tracer_v4->0@, table: self.trace_map@ };
                        assert(reg.table.contains_key(key));
                        assert(reg.traces.contains_key(reg.table[key]));
                        let traces = self.engine(IPVersion::IPV4)->0;
                        let id = reg.table[key];
                        assert(traces.contains_key(id) && traces[id] == key);
                        assert(self.is_traced(key));
                    },
                    IPVersion::IPV6 => {
                        assert(self.tracer_v6 is Some);
                        let reg = Registry { traces: self.tracer_v6->0@, table: self.trace_map@ };
                        assert(reg.table.contains_key(key));
                        assert(reg.traces.contains_key(reg.table[key]));
                        let traces = self.engine(IPVersion::IPV6)->0;
                        let id = reg.table[key];
                        assert(traces.contains_key(id) && traces[id] == key);
                        assert(self.is_traced(key));
                    },
                    IPVersion::EMPTY => {},
                }
            }
            if self.is_traced(key) {
                let traces = self.engine(key.addr.ip_version)->0;
                let id = choose|id: u32| #[trigger] traces.contains_key(id) && traces[id] == key;
                assert(traces.contains_key(id) && traces[id] == key);
                match key.addr.ip_version {
                    IPVersion::IPV4 => {
                        let reg = Registry { traces: self.tracer_v4->0@, table: self.trace_map@ };
                        assert(reg.coupled(IPVersion::IPV4));
                        assert(reg.traces.contains_key(id));
                        assert(reg.table.contains_key(key));
                        assert(self.table().contains_key(key));
                    },
                    IPVersion::IPV6 => {
                        let reg = Registry { traces: self.tracer_v6->0@, table: self.trace_map@ };
                        assert(reg.coupled(IPVersion::IPV6));
                        assert(reg.traces.contains_key(id));
                        assert(reg.table.contains_key(key));
                        assert(self.table().contains_key(key));
                    },
                    IPVersion::EMPTY => {},
                }
            }
        }
    }

    /// A supervisor for a listener on `port` with the given addresses, one
    /// engine for each. At least one address must be given.
    pub fn new(port: u16, ipv4: Option<[u8; 4]>, ipv6: Option<[u8; 16]>, max_hops: u8) -> (r:
        Result<Supervisor, NoAddress>)
        ensures
            r is Ok <==> ipv4 is Some || ipv6 is Some,
            r is Ok ==> ({
                let s = r->Ok_0;
                &&& s.wf()
                &&& s.table() == Map::<SocketAddr, u32>::empty()
                &&& s.spec_config().spec_port() == port
                &&& match ipv4 {
                    Some(a) => s.spec_config().ipv4() == IPAddr::spec_v4(a@) && s.engine(
                        IPVersion::IPV4,
                    ) == Some(Map::<u32, SocketAddr>::empty()) && s.spec_v4()->0.spec_max_hops()
                        == max_hops && s.spec_v4()->0.spec_listen_addr() == (SocketAddr {
                        port,
                        addr: IPAddr::spec_v4(a@),
                    }),
                    None => s.spec_config().ipv4().ip_version == IPVersion::EMPTY && s.engine(
                        IPVersion::IPV4,
                    ) is None,
                }
                &&& match ipv6 {
                    Some(a) => s.spec_config().ipv6() == IPAddr::spec_v6(a@) && s.engine(
                        IPVersion::IPV6,
                    ) == Some(Map::<u32, SocketAddr>::empty()) && s.spec_v6()->0.spec_max_hops()
                        == max_hops && s.spec_v6()->0.spec_listen_addr() == (SocketAddr {
                        port,
                        addr: IPAddr::spec_v6(a@),
                    }),
                    None => s.spec_config().ipv6().ip_version == IPVersion::EMPTY && s.engine(
                        IPVersion::IPV6,
                    ) is None,
                }
            }),
    {
        if ipv4.is_none() && ipv6.is_none() {
            return Err(NoAddress);
        }
        let v4 = match ipv4 {
            Some(a) => Some(IPAddr::new_v4(a)),
            None => None,
        };
        let v6 = match ipv6 {
            Some(a) => Some(IPAddr::new_v6(a)),
            None => None,
        };
        let config = EbpfConfig::new(port, v4, v6);
        let tracer_v4 = match v4 {
            Some(addr) => match Tracer::new(SocketAddr { port, addr }, max_hops) {
                Ok(t) => Some(t),
                Err(_) => None,
            },
            None => None,
        };
        let tracer_v6 = match v6 {
            Some(addr) => match Tracer::new(SocketAddr { port, addr }, max_hops) {
                Ok(t) => Some(t),
                Err(_) => None,
            },
            None => None,
        };
        Ok(Supervisor { config, tracer_v4, tracer_v6, trace_map: TraceMap::new() })
    }

    pub fn config(&self) -> (r: EbpfConfig)
        ensures
            r == self.spec_config(),
    {
        self.config
    }

    /// The filter table, for the classifier.
    pub fn trace_map(&self) -> (r: &TraceMap)
        ensures
            r@ == self.table(),
            self.wf() ==> r.wf(),
    {
        &self.trace_map
    }

    /// The engine for traces of `remote`: the one of its address family.
    pub fn get_tracer(&self, remote: &SocketAddr) -> (r: Option<&Tracer>)
        ensures
            match remote.addr.ip_version {
                IPVersion::IPV4 => (r is Some <==> self.spec_v4() is Some) && (r is Some ==> *r->0
                    == self.spec_v4()->0),
                IPVersion::IPV6 => (r is Some <==> self.spec_v6() is Some) && (r is Some ==> *r->0
                    == self.spec_v6()->0),
                IPVersion::EMPTY => r is None,
            },
    {
        match remote.addr.ip_version {
            IPVersion::IPV4 => self.tracer_v4.as_ref(),
            IPVersion::IPV6 => self.tracer_v6.as_ref(),
            IPVersion::EMPTY => None,
        }
    }

    /// Starts a trace of `remote` on the engine of its family.
    ///
    /// The trace is filed in that engine's registry and in the filter
    /// table under an id that no live trace of the engine had, or nothing
    /// changes. It starts for certain where that engine has no live trace
    /// and the filter table admits `remote`. The handle is that of a trace
    /// from the engine's listener, going as far as the engine goes.
    pub fn start_trace(&mut self, remote: SocketAddr) -> (r: Result<TraceHandle, StartError>)
        requires
            old(self).wf(),
        ensures
            final(self).wf(),
            final(self).spec_config() == old(self).spec_config(),
            final(self).same_engines(*old(self)),
            match r {
                Ok(handle) => {
                    let family = remote.addr.ip_version;
                    &&& old(self).engine(family) is Some
                    &&& final(self).engine(family) is Some
                    &&& handle.of(old(self).tracer(family)->0, remote, handle.spec_trace_id())
                    &&& old(self).registry(family).start(family, remote, handle.spec_trace_id())
                        == Ok::<Registry, StartError>(final(self).registry(family))
                    &&& forall|other: IPVersion|
                        other != family ==> final(self).engine(other) == old(self).engine(other)
                },
                Err(e) => {
                    &&& final(self).table() == old(self).table()
                    &&& forall|family: IPVersion| final(self).engine(family) == old(self).engine(family)
                    &&& e != StartError::TraceIdInUse
                    &&& e != StartError::FamilyMismatch
                    &&& e == StartError::NoEngine <==> old(self).engine(remote.addr.ip_version)
                        is None
                    &&& e == StartError::NoFreeTraceId ==> old(self).engine(
                        remote.addr.ip_version,
                    )->0.dom().len() > 0
                    &&& old(self).engine(remote.addr.ip_version) is Some ==> match old(
                        self,
                    ).registry(remote.addr.ip_version).admits(remote.addr.ip_version, remote) {
                        Err(why) => e == why,
                        Ok(_) => e == StartError::NoFreeTraceId,
                    }
                },
            },
    {
        match remote.addr.ip_version {
            IPVersion::IPV4 => {
                match self.tracer_v4.take() {
                    Some(mut tracer) => {
                        let ghost before = Registry { traces: tracer@, table: self.trace_map@ };
                        let r = TraceHandle::start_trace(&mut tracer, &mut self.trace_map, remote);
                        proof {
                            if r is Ok {
                                let id = r->Ok_0.spec_trace_id();
                                law_registration_symmetry(before, IPVersion::IPV4, remote, id);
                                if old(self).tracer_v6 is Some {
                                    law_other_family_untouched(
                                        before,
                                        IPVersion::IPV4,
                                        remote,
                                        id,
                                        old(self).tracer_v6->0@,
                                        IPVersion::IPV6,
                                    );
                                }
                            }
                        }
                        self.tracer_v4 = Some(tracer);
                        r
                    },
                    None => Err(StartError::NoEngine),
                }
            },
            IPVersion::IPV6 => {
                match self.tracer_v6.take() {
                    Some(mut tracer) => {
                        let ghost before = Registry { traces: tracer@, table: self.trace_map@ };
                        let r = TraceHandle::start_trace(&mut tracer, &mut self.trace_map, remote);
                        proof {
                            if r is Ok {
                                let id = r->Ok_0.spec_trace_id();
                                law_registration_symmetry(before, IPVersion::IPV6, remote, id);
                                if old(self).tracer_v4 is Some {
                                    law_other_family_untouched(
                                        before,
                                        IPVersion::IPV6,
                                        remote,
                                        id,
                                        old(self).tracer_v4->0@,
                                        IPVersion::IPV4,
                                    );
                                }
                            }
                        }
                        self.tracer_v6 = Some(tracer);
                        r
                    },
                    None => Err(StartError::NoEngine),
                }
            },
            IPVersion::EMPTY => Err(StartError::NoEngine),
        }
    }

    /// Ends a trace: its entries leave the registry of its engine and the
    /// filter table.
    pub fn close(&mut self, handle: TraceHandle)
        requires
            old(self).wf(),
        ensures
            final(self).wf(),
            final(self).spec_config() == old(self).spec_config(),
            final(self).same_engines(*old(self)),
            ({
                let family = handle.spec_remote().addr.ip_version;
                match old(self).engine(family) {
                    Some(_) => final(self).engine(family) is Some && final(self).registry(family)
                        == old(self).registry(family).release(
                        handle.spec_trace_id(),
                        handle.spec_remote(),
                    ) && forall|other: IPVersion|
                        other != family ==> final(self).engine(other) == old(self).engine(other),
                    None => final(self).table() == old(self).table() && forall|other: IPVersion|
                        final(self).engine(other) == old(self).engine(other),
                }
            }),
    {
        let remote = handle.remote();
        let ghost id = handle.spec_trace_id();
        match remote.addr.ip_version {
            IPVersion::IPV4 => {
                match self.tracer_v4.take() {
                    Some(mut tracer) => {
                        let ghost before = Registry { traces: tracer@, table: self.trace_map@ };
                        proof {
                            law_release_keeps_mirror(before, IPVersion::IPV4, id, remote);
                            if old(self).tracer_v6 is Some {
                                law_release_other_family_untouched(
                                    before,
                                    id,
                                    remote,
                                    old(self).tracer_v6->0@,
                                    IPVersion::IPV6,
                                );
                            }
                        }
                        handle.close(&mut tracer, &mut self.trace_map);
                        self.tracer_v4 = Some(tracer);
                    },
                    None => {},
                }
            },
            IPVersion::IPV6 => {
                match self.tracer_v6.take() {
                    Some(mut tracer) => {
                        let ghost before = Registry { traces: tracer@, table: self.trace_map@ };
                        proof {
                            law_release_keeps_mirror(before, IPVersion::IPV6, id, remote);
                            if old(self).tracer_v4 is Some {
                                law_release_other_family_untouched(
                                    before,
                                    id,
                                    remote,
                                    old(self).tracer_v4->0@,
                                    IPVersion::IPV4,
                                );
                            }
                        }
                        handle.close(&mut tracer, &mut self.trace_map);
                        self.tracer_v6 = Some(tracer);
                    },
                    None => {},
                }
            },
            IPVersion::EMPTY => {},
        }
    }

    /// Decodes one record of the classifier and finds the trace it is for.
    pub fn dispatch(&self, record: &[u8]) -> (r: Dispatch)
        ensures
            r == spec_dispatch(
                record@,
                self.engine(IPVersion::IPV4),
                self.engine(IPVersion::IPV6),
            ),
    {
        dispatch(record, self.tracer_v4.as_ref(), self.tracer_v6.as_ref())
    }

    /// Classifies one frame as the classifier attached to the listener's
    /// interface does: every frame passes, and the event is that of the
    /// trace that owns the frame's key.
    pub fn classify(&self, frame: &[u8], arrival: u64) -> (r: (Verdict, Option<TraceEvent>))
        requires
            self.wf(),
        ensures
            r.0 == Verdict::Pass,
            r.1 == published_event(frame@, arrival, self.spec_config(), self.table()),
    {
        inband_traceroute(frame, arrival, &self.config, &self.trace_map)
    }
}

} // verus!
