//! The filter table: which remote socket address belongs to which trace.
//!
//! The classifier consults it for every eligible packet; the trace engine
//! adds a key when a trace starts and removes it when the trace is over.

use crate::wire::SocketAddr;
use vstd::prelude::*;

verus! {

/// The number of traces that the filter table can hold.
pub const MAX_TRACES: usize = 1024;

/// The table is full and the key is not in it.
#[derive(Debug, Copy, Clone, PartialEq, Eq, Structural)]
pub struct TableFull;

/// A bounded map from remote socket address to trace id.
#[derive(Debug)]
pub struct TraceMap {
    entries: Vec<(SocketAddr, u32)>,
}

impl View for TraceMap {
    type V = Map<SocketAddr, u32>;

    closed spec fn view(&self) -> Map<SocketAddr, u32> {
        Map::new(
            |k: SocketAddr| exists|i: int| self.holds_at(i, k),
            |k: SocketAddr| self.entries@[self.index_of(k)].1,
        )
    }
}

impl TraceMap {
    spec fn holds_at(self, i: int, k: SocketAddr) -> bool {
        0 <= i < self.entries@.len() && self.entries@[i].0 == k
    }

    spec fn index_of(self, k: SocketAddr) -> int {
        choose|i: int| self.holds_at(i, k)
    }

    /// No key occurs twice, the table is within its bound, and its view has
    /// as many keys as the table has entries.
    pub closed spec fn wf(self) -> bool {
        &&& self.entries@.len() <= MAX_TRACES
        &&& forall|i: int, j: int|
            0 <= i < self.entries@.len() && 0 <= j < self.entries@.len()
                && #[trigger] self.entries@[i].0 == #[trigger] self.entries@[j].0 ==> i == j
        &&& self@.dom().finite()
        &&& self@.dom().len() == self.entries@.len()
    }

    /// The number of entries.
    pub closed spec fn spec_len(self) -> nat {
        self.entries@.len()
    }

    /// A well-formed table has one entry for each key of its view, and at
    /// most `MAX_TRACES` of them.
    pub proof fn lemma_len(self)
        requires
            self.wf(),
        ensures
            self@.dom().finite(),
            self@.dom().len() == self.spec_len(),
            self.spec_len() <= MAX_TRACES,
    {
    }

    proof fn lemma_entry(self, i: int)
        requires
            self.wf(),
            0 <= i < self.entries@.len(),
        ensures
            self@.contains_key(self.entries@[i].0),
            self@[self.entries@[i].0] == self.entries@[i].1,
            self.index_of(self.entries@[i].0) == i,
    {
        let k = self.entries@[i].0;
        assert(self.holds_at(i, k));
        let j = self.index_of(k);
        assert(self.holds_at(j, k));
    }

    proof fn lemma_absent(self, k: SocketAddr)
        requires
            forall|i: int| 0 <= i < self.entries@.len() ==> self.entries@[i].0 != k,
        ensures
            !self@.contains_key(k),
    {
        if self@.contains_key(k) {
            let i = choose|i: int| self.holds_at(i, k);
            assert(self.holds_at(i, k));
        }
    }

    pub fn new() -> (r: Self)
        ensures
            r.wf(),
            r@ == Map::<SocketAddr, u32>::empty(),
            r.spec_len() == 0,
    {
        let r = TraceMap { entries: Vec::new() };
        proof {
            assert forall|k: SocketAddr| !r@.contains_key(k) by {
                r.lemma_absent(k);
            }
            assert(r@ =~= Map::<SocketAddr, u32>::empty());
        }
        r
    }

    pub fn len(&self) -> (r: usize)
        requires
            self.wf(),
        ensures
            r == self.spec_len(),
            r == self@.dom().len(),
            r <= MAX_TRACES,
    {
        self.entries.len()
    }

    /// Where `key` stands among the entries, if it does.
    fn position(&self, key: &SocketAddr) -> (r: Option<usize>)
        requires
            self.wf(),
        ensures
            match r {
                Some(i) => i < self.entries@.len() && self.entries@[i as int].0 == *key
                    && self@.contains_key(*key) && self@[*key] == self.entries@[i as int].1,
                None => !self@.contains_key(*key) && forall|i: int|
                    0 <= i < self.entries@.len() ==> self.entries@[i].0 != *key,
            },
    {
        let mut i: usize = 0;
        while i < self.entries.len()
            invariant
                i <= self.entries@.len(),
                self.wf(),
                forall|j: int| 0 <= j < i ==> self.entries@[j].0 != *key,
            decreases self.entries@.len() - i,
        {
            if self.entries[i].0 == *key {
                proof {
                    self.lemma_entry(i as int);
                }
                return Some(i);
            }
            i += 1;
        }
        proof {
            self.lemma_absent(*key);
        }
        None
    }

    /// The trace that `key` belongs to.
    pub fn get(&self, key: &SocketAddr) -> (r: Option<u32>)
        requires
            self.wf(),
        ensures
            r == (if self@.contains_key(*key) {
                Some(self@[*key])
            } else {
                None
            }),
    {
        match self.position(key) {
            Some(i) => Some(self.entries[i].1),
            None => None,
        }
    }

    /// Files `key` under `trace_id`, replacing what `key` stood for. Fails,
    /// and changes nothing, when the key is new and the table is full.
    pub fn insert(&mut self, key: SocketAddr, trace_id: u32) -> (r: Result<(), TableFull>)
        requires
            old(self).wf(),
        ensures
            final(self).wf(),
            r is Ok <==> old(self)@.contains_key(key) || old(self).spec_len() < MAX_TRACES,
            r is Ok ==> final(self)@ == old(self)@.insert(key, trace_id),
            r is Err ==> *final(self) == *old(self),
    {
        match self.position(&key) {
            Some(i) => {
                let ghost before = *self;
                self.entries.set(i, (key, trace_id));
                proof {
                    let after = *self;
                    assert forall|k: SocketAddr| #[trigger]
                        after@.contains_key(k) == before@.insert(key, trace_id).contains_key(
                            k,
                        ) by {
                        if before@.contains_key(k) {
                            let j = before.index_of(k);
                            assert(before.holds_at(j, k));
                            assert(after.holds_at(j, k));
                        }
                        if after@.contains_key(k) {
                            let j = after.index_of(k);
                            assert(after.holds_at(j, k));
                            assert(before.holds_at(j, k));
                        }
                    }
                    assert(after@.dom() =~= before@.dom());
                    assert forall|k: SocketAddr| #[trigger]
                        after@.contains_key(k) implies after@[k] == before@.insert(
                        key,
                        trace_id,
                    )[k] by {
                        let j = after.index_of(k);
                        assert(after.holds_at(j, k));
                        assert(before.holds_at(j, k));
                        before.lemma_entry(j);
                    }
                    assert(after@ =~= before@.insert(key, trace_id));
                }
                Ok(())
            },
            None => {
                if self.entries.len() >= MAX_TRACES {
                    Err(TableFull)
                } else {
                    let ghost before = *self;
                    self.entries.push((key, trace_id));
                    proof {
                        let after = *self;
                        let n = before.entries@.len() as int;
                        assert(after.holds_at(n, key));
                        assert forall|k: SocketAddr| #[trigger]
                            after@.contains_key(k) == before@.insert(
                                key,
                                trace_id,
                            ).contains_key(k) by {
                            if before@.contains_key(k) {
                                let j = before.index_of(k);
                                assert(before.holds_at(j, k));
                                assert(after.holds_at(j, k));
                            }
                            if after@.contains_key(k) && k != key {
                                let j = after.index_of(k);
                                assert(after.holds_at(j, k));
                                assert(before.holds_at(j, k));
                            }
                        }
                        assert(after@.dom() =~= before@.dom().insert(key));
                        assert forall|k: SocketAddr| #[trigger]
                            after@.contains_key(k) implies after@[k] == before@.insert(
                            key,
                            trace_id,
                        )[k] by {
                            let j = after.index_of(k);
                            assert(after.holds_at(j, k));
                            if k != key {
                                assert(before.holds_at(j, k));
                                before.lemma_entry(j);
                            }
                        }
                        assert(after@ =~= before@.insert(key, trace_id));
                    }
                    Ok(())
                }
            },
        }
    }

    /// Takes `key` out of the table and returns the trace it belonged to.
    pub fn remove(&mut self, key: &SocketAddr) -> (r: Option<u32>)
        requires
            old(self).wf(),
        ensures
            final(self).wf(),
            final(self)@ == old(self)@.remove(*key),
            r == (if old(self)@.contains_key(*key) {
                Some(old(self)@[*key])
            } else {
                None
            }),
    {
        match self.position(key) {
            Some(i) => {
                let ghost before = *self;
                let gone = self.entries.remove(i);
                proof {
                    let after = *self;
                    assert forall|k: SocketAddr| #[trigger]
                        after@.contains_key(k) == before@.remove(*key).contains_key(k) by {
                        if before@.contains_key(k) && k != *key {
                            let j = before.index_of(k);
                            assert(before.holds_at(j, k));
                            if j < i {
                                assert(after.holds_at(j, k));
                            } else {
                                assert(after.holds_at(j - 1, k));
                            }
                        }
                        if after@.contains_key(k) {
                            let j = after.index_of(k);
                            assert(after.holds_at(j, k));
                            if j < i {
                                assert(before.holds_at(j, k));
                            } else {
                                assert(before.holds_at(j + 1, k));
                            }
                        }
                    }
                    assert(after@.dom() =~= before@.dom().remove(*key));
                    assert forall|k: SocketAddr| #[trigger]
                        after@.contains_key(k) implies after@[k] == before@.remove(*key)[k] by {
                        let j = after.index_of(k);
                        assert(after.holds_at(j, k));
                        if j < i {
                            assert(before.holds_at(j, k));
                            before.lemma_entry(j);
                        } else {
                            assert(before.holds_at(j + 1, k));
                            before.lemma_entry(j + 1);
                        }
                    }
                    assert(after@ =~= before@.remove(*key));
                }
                Some(gone.1)
            },
            None => {
                assert(self@ =~= old(self)@.remove(*key));
                None
            },
        }
    }
}

} // verus!
