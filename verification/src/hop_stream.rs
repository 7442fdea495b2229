//! The stream of hops that a trace hands to its caller: the sweep, behind a
//! filter that lets through the first hop reported for each TTL and holds
//! back the rest.

use crate::hop::Hop;
use crate::sweep::{Directive, Input, Phase, Sweep, INITIAL_ACK_TIMEOUT_NS};
use crate::wire::{SocketAddr, TraceEventType};
use vstd::prelude::*;

verus! {

/// The outcome of one step of a [`HopStream`].
#[derive(Debug, Clone, Copy, PartialEq, Eq)]
pub struct StreamStep {
    /// The hop to hand on.
    pub hop: Option<Hop>,
    /// A hop that the sweep reported for a TTL that already has one.
    pub suppressed: Option<Hop>,
    pub directive: Directive,
}

/// What a [`HopStream`] stands for: its sweep and the TTLs that it has let
/// through.
pub struct HopStreamState {
    pub sweep: Sweep,
    pub seen: Set<u8>,
}

impl HopStreamState {
    /// One step: the sweep's step, and its hop let through unless its TTL
    /// has had one.
    pub open spec fn step(self, input: Input) -> (HopStreamState, StreamStep) {
        let (sweep, inner) = self.sweep.spec_step(input);
        match inner.hop {
            Some(hop) => if self.seen.contains(hop.ttl) {
                (
                    HopStreamState { sweep, seen: self.seen },
                    StreamStep { hop: None, suppressed: Some(hop), directive: inner.directive },
                )
            } else {
                (
                    HopStreamState { sweep, seen: self.seen.insert(hop.ttl) },
                    StreamStep { hop: Some(hop), suppressed: None, directive: inner.directive },
                )
            },
            None => (
                HopStreamState { sweep, seen: self.seen },
                StreamStep { hop: None, suppressed: None, directive: inner.directive },
            ),
        }
    }

    /// The stream after `inputs`, and the hops it has handed on, in order.
    pub open spec fn run(self, inputs: Seq<Input>) -> (HopStreamState, Seq<Hop>)
        decreases inputs.len(),
    {
        if inputs.len() == 0 {
            (self, Seq::empty())
        } else {
            let (before, hops) = self.run(inputs.drop_last());
            let (after, last) = before.step(inputs.last());
            match last.hop {
                Some(hop) => (after, hops.push(hop)),
                None => (after, hops),
            }
        }
    }

    /// Every TTL let through so far lies below the one in flight, and none
    /// has been let through before the sweep begins.
    pub open spec fn ordered(self) -> bool {
        match self.sweep.phase {
            Phase::AwaitingInitialAck => self.seen == Set::<u8>::empty(),
            Phase::Sending { ttl } => forall|t: u8| self.seen.contains(t) ==> t < ttl,
            Phase::Waiting { ttl, .. } => forall|t: u8| self.seen.contains(t) ==> t < ttl,
            _ => true,
        }
    }

    /// `input` is no Time Exceeded that would be let through out of turn:
    /// its identity has had a hop, or it is that of a probe sent so far and
    /// above every TTL that has had one.
    pub open spec fn in_turn(self, input: Input) -> bool {
        match (self.sweep.phase, input) {
            (Phase::Waiting { ttl, .. }, Input::Event(e)) => e.event_type
                == TraceEventType::IcmpTimeExceeded ==> self.seen.contains(e.ttl) || (e.ttl <= ttl
                && forall|t: u8| self.seen.contains(t) ==> t < e.ttl),
            _ => true,
        }
    }

    /// Every one of `inputs` is in turn when it comes.
    pub open spec fn all_in_turn(self, inputs: Seq<Input>) -> bool
        decreases inputs.len(),
    {
        inputs.len() == 0 || (self.all_in_turn(inputs.drop_last()) && self.run(
            inputs.drop_last(),
        ).0.in_turn(inputs.last()))
    }
}

/// The stream of hops of one trace.
#[derive(Debug)]
pub struct HopStream {
    sweep: Sweep,
    seen: Vec<bool>,
}

impl View for HopStream {
    type V = HopStreamState;

    closed spec fn view(&self) -> HopStreamState {
        HopStreamState {
            sweep: self.sweep,
            seen: Set::new(|t: u8| self.seen@.len() == 256 && self.seen@[t as int]),
        }
    }
}

impl HopStream {
    /// The filter has a place for every TTL.
    pub closed spec fn wf(self) -> bool {
        self.seen@.len() == 256
    }

    /// A stream that has not begun: it waits for the first ACK and has let
    /// nothing through.
    pub fn new(local: SocketAddr, remote: SocketAddr, max_hops: u8) -> (r: Self)
        ensures
            r.wf(),
            r@ == (HopStreamState {
                sweep: Sweep::spec_new(local, remote, max_hops),
                seen: Set::<u8>::empty(),
            }),
    {
        let mut seen: Vec<bool> = Vec::new();
        let mut i: usize = 0;
        while i < 256
            invariant
                i <= 256,
                seen@.len() == i,
                forall|k: int| 0 <= k < i ==> !seen@[k],
            decreases 256 - i,
        {
            seen.push(false);
            i += 1;
        }
        let r = HopStream { sweep: Sweep::new(local, remote, max_hops), seen };
        assert(r@.seen =~= Set::<u8>::empty());
        r
    }

    /// What the driver is to do first.
    pub fn begin(&self) -> (r: Directive)
        ensures
            r == (Directive::Await { rearm: Some(INITIAL_ACK_TIMEOUT_NS) }),
    {
        self.sweep.begin()
    }

    /// The sweep behind the filter.
    pub fn sweep(&self) -> (r: Sweep)
        ensures
            r == self@.sweep,
    {
        self.sweep
    }

    /// Whether a hop has been let through for `ttl`.
    pub fn has_seen(&self, ttl: u8) -> (r: bool)
        requires
            self.wf(),
        ensures
            r == self@.seen.contains(ttl),
    {
        self.seen[ttl as usize]
    }

    /// Takes one input and returns the hop to hand on, if any, and what the
    /// driver is to do next.
    pub fn step(&mut self, input: Input) -> (r: StreamStep)
        requires
            old(self).wf(),
        ensures
            final(self).wf(),
            (final(self)@, r) == old(self)@.step(input),
    {
        let inner = self.sweep.step(input);
        match inner.hop {
            Some(hop) => {
                if self.seen[hop.ttl as usize] {
                    StreamStep { hop: None, suppressed: Some(hop), directive: inner.directive }
                } else {
                    self.seen.set(hop.ttl as usize, true);
                    assert(self@.seen =~= old(self)@.seen.insert(hop.ttl));
                    StreamStep { hop: Some(hop), suppressed: None, directive: inner.directive }
                }
            },
            None => StreamStep { hop: None, suppressed: None, directive: inner.directive },
        }
    }

    /// Takes `inputs` one after the other and returns the hops handed on.
    pub fn feed(&mut self, inputs: &[Input]) -> (r: Vec<Hop>)
        requires
            old(self).wf(),
        ensures
            final(self).wf(),
            (final(self)@, r@) == old(self)@.run(inputs@),
    {
        let mut out: Vec<Hop> = Vec::new();
        let mut i: usize = 0;
        while i < inputs.len()
            invariant
                i <= inputs@.len(),
                self.wf(),
                (self@, out@) == old(self)@.run(inputs@.take(i as int)),
            decreases inputs@.len() - i,
        {
            proof {
                let next = inputs@.take(i + 1);
                assert(next.drop_last() =~= inputs@.take(i as int));
                assert(next.last() == inputs@[i as int]);
            }
            let s = self.step(inputs[i]);
            match s.hop {
                Some(hop) => {
                    out.push(hop);
                },
                None => {},
            }
            i += 1;
        }
        assert(inputs@.take(i as int) =~= inputs@);
        out
    }
}

/// A step lets through at most one hop, whose TTL has had none, and marks
/// that TTL; it holds back a hop exactly when its TTL has had one.
pub proof fn lemma_step_filter(s: HopStreamState, input: Input)
    ensures
        ({
            let (after, out) = s.step(input);
            let inner = s.sweep.spec_step(input).1;
            &&& after.sweep == s.sweep.spec_step(input).0
            &&& out.directive == inner.directive
            &&& match inner.hop {
                Some(hop) => if s.seen.contains(hop.ttl) {
                    out.hop is None && out.suppressed == Some(hop) && after.seen == s.seen
                } else {
                    out.hop == Some(hop) && out.suppressed is None && after.seen == s.seen.insert(
                        hop.ttl,
                    )
                },
                None => out.hop is None && out.suppressed is None && after.seen == s.seen,
            }
        }),
{
}

/// No TTL has two hops: of the hops that a stream hands on, none has a TTL
/// that had a hop before, no two have the same TTL, and the TTLs that have
/// had a hop afterwards are those from before and those of the hops handed
/// on.
pub proof fn law_one_hop_per_ttl(s: HopStreamState, inputs: Seq<Input>)
    ensures
        ({
            let (after, hops) = s.run(inputs);
            &&& forall|i: int| 0 <= i < hops.len() ==> !s.seen.contains(#[trigger] hops[i].ttl)
            &&& forall|i: int, j: int|
                0 <= i < j < hops.len() ==> #[trigger] hops[i].ttl != #[trigger] hops[j].ttl
            &&& forall|t: u8|
                after.seen.contains(t) <==> s.seen.contains(t) || exists|i: int|
                    0 <= i < hops.len() && #[trigger] hops[i].ttl == t
        }),
    decreases inputs.len(),
{
    if inputs.len() > 0 {
        law_one_hop_per_ttl(s, inputs.drop_last());
        let (before, hops0) = s.run(inputs.drop_last());
        let (after, last) = before.step(inputs.last());
        let (after2, hops) = s.run(inputs);
        match last.hop {
            Some(hop) => {
                assert(hops == hops0.push(hop));
                assert(!before.seen.contains(hop.ttl));
                assert forall|t: u8|
                    after.seen.contains(t) <==> s.seen.contains(t) || exists|i: int|
                        0 <= i < hops.len() && #[trigger] hops[i].ttl == t by {
                    if after.seen.contains(t) {
                        if t == hop.ttl {
                            assert(hops[hops.len() - 1].ttl == t);
                        } else if !s.seen.contains(t) {
                            let i = choose|i: int| 0 <= i < hops0.len() && #[trigger] hops0[i].ttl == t;
                            assert(hops[i].ttl == t);
                        }
                    }
                    if exists|i: int| 0 <= i < hops.len() && #[trigger] hops[i].ttl == t {
                        let i = choose|i: int| 0 <= i < hops.len() && #[trigger] hops[i].ttl == t;
                        if i < hops0.len() {
                            assert(hops0[i].ttl == t);
                        }
                    }
                }
                assert forall|i: int, j: int| 0 <= i < j < hops.len() implies #[trigger] hops[i].ttl
                    != #[trigger] hops[j].ttl by {
                    if j == hops0.len() {
                        assert(hops0[i].ttl == hops[i].ttl);
                    } else {
                        assert(hops0[i].ttl == hops[i].ttl);
                        assert(hops0[j].ttl == hops[j].ttl);
                    }
                }
                assert forall|i: int| 0 <= i < hops.len() implies !s.seen.contains(
                    #[trigger] hops[i].ttl,
                ) by {
                    if i < hops0.len() {
                        assert(hops0[i].ttl == hops[i].ttl);
                    }
                }
            },
            None => {
                assert(hops == hops0);
            },
        }
    }
}

/// A sweep reports no more hops than are left to it: one for the origin and
/// one for each TTL not yet done with.
pub proof fn law_stream_is_bounded(s: HopStreamState, inputs: Seq<Input>)
    requires
        s.sweep.wf(),
    ensures
        ({
            let (after, hops) = s.run(inputs);
            &&& after.sweep.wf()
            &&& after.sweep.max_hops == s.sweep.max_hops
            &&& hops.len() + after.sweep.spec_remaining() <= s.sweep.spec_remaining()
            &&& hops.len() <= s.sweep.max_hops + 1
        }),
    decreases inputs.len(),
{
    if inputs.len() > 0 {
        law_stream_is_bounded(s, inputs.drop_last());
    }
}

/// Where every Time Exceeded is in turn, the TTLs of the hops handed on
/// rise strictly, from above every TTL that had a hop before.
pub proof fn law_ttls_rise(s: HopStreamState, inputs: Seq<Input>)
    requires
        s.ordered(),
        s.all_in_turn(inputs),
    ensures
        ({
            let (after, hops) = s.run(inputs);
            &&& after.ordered()
            &&& forall|i: int, j: int|
                0 <= i < j < hops.len() ==> #[trigger] hops[i].ttl < #[trigger] hops[j].ttl
            &&& forall|i: int, t: u8|
                0 <= i < hops.len() && #[trigger] s.seen.contains(t) ==> t < #[trigger] hops[i].ttl
            &&& forall|t: u8|
                after.seen.contains(t) ==> s.seen.contains(t) || exists|i: int|
                    0 <= i < hops.len() && #[trigger] hops[i].ttl == t
        }),
    decreases inputs.len(),
{
    if inputs.len() > 0 {
        law_ttls_rise(s, inputs.drop_last());
        law_one_hop_per_ttl(s, inputs.drop_last());
        law_one_hop_per_ttl(s, inputs);
        let (before, hops0) = s.run(inputs.drop_last());
        let (after, last) = before.step(inputs.last());
        let (after2, hops) = s.run(inputs);
        assert(before.in_turn(inputs.last()));
        match last.hop {
            Some(hop) => {
                assert(hops == hops0.push(hop));
                assert(forall|t: u8| before.seen.contains(t) ==> t < hop.ttl);
                assert forall|i: int, j: int| 0 <= i < j < hops.len() implies #[trigger] hops[i].ttl
                    < #[trigger] hops[j].ttl by {
                    assert(hops0[i].ttl == hops[i].ttl);
                    if j == hops0.len() {
                        assert(before.seen.contains(hops0[i].ttl));
                    } else {
                        assert(hops0[j].ttl == hops[j].ttl);
                    }
                }
                assert forall|i: int, t: u8|
                    0 <= i < hops.len() && #[trigger] s.seen.contains(t) implies t
                    < #[trigger] hops[i].ttl by {
                    if i < hops0.len() {
                        assert(hops0[i].ttl == hops[i].ttl);
                    } else {
                        assert(before.seen.contains(t));
                    }
                }
            },
            None => {
                assert(hops == hops0);
            },
        }
    }
}

} // verus!
