use vstd::prelude::*;

verus! {

/// The live subscribers, each an opaque handle that appears at most once.
pub struct SubscriberSet {
    handles: Vec<u64>,
}

impl View for SubscriberSet {
    type V = Set<u64>;

    closed spec fn view(&self) -> Set<u64> {
        self.handles@.to_set()
    }
}

impl SubscriberSet {
    pub closed spec fn wf(&self) -> bool {
        self.handles@.no_duplicates()
    }

    pub fn new() -> (s: Self)
        ensures
            s.wf(),
            s@ == Set::<u64>::empty(),
    {
        let s = SubscriberSet { handles: Vec::new() };
        assert(s@ =~= Set::<u64>::empty());
        s
    }

    /// Number of subscribers.
    pub fn len(&self) -> (r: usize)
        requires
            self.wf(),
        ensures
            r == self@.len(),
    {
        proof {
            self.handles@.unique_seq_to_set();
        }
        self.handles.len()
    }

    pub fn contains(&self, handle: u64) -> (r: bool)
        ensures
            r == self@.contains(handle),
    {
        let mut i: usize = 0;
        while i < self.handles.len()
            invariant
                i <= self.handles@.len(),
                forall|j: int| 0 <= j < i ==> self.handles@[j] != handle,
            decreases self.handles@.len() - i,
        {
            if self.handles[i] == handle {
                assert(self.handles@.to_set().contains(self.handles@[i as int]));
                return true;
            }
            i = i + 1;
        }
        false
    }

    /// Adds `handle`; nothing changes when it is already there.
    pub fn subscribe(&mut self, handle: u64)
        requires
            old(self).wf(),
        ensures
            final(self).wf(),
            final(self)@ == old(self)@.insert(handle),
    {
        if !self.contains(handle) {
            let ghost prev = self.handles@;
            self.handles.push(handle);
            proof {
                prev.lemma_push_to_set_commute(handle);
            }
        } else {
            assert(self@ =~= old(self)@.insert(handle));
        }
    }

    /// Removes `handle`; nothing changes when it is not there.
    pub fn unsubscribe(&mut self, handle: u64)
        requires
            old(self).wf(),
        ensures
            final(self).wf(),
            final(self)@ == old(self)@.remove(handle),
    {
        let mut i: usize = 0;
        while i < self.handles.len()
            invariant
                self.handles@ == old(self).handles@,
                old(self).wf(),
                i <= self.handles@.len(),
                forall|j: int| 0 <= j < i ==> self.handles@[j] != handle,
            decreases self.handles@.len() - i,
        {
            if self.handles[i] == handle {
                let ghost prev = self.handles@;
                self.handles.remove(i);
                proof {
                    let cur = self.handles@;
                    assert(cur =~= prev.remove(i as int));
                    assert forall|a: int, b: int|
                        0 <= a < cur.len() && 0 <= b < cur.len() && a != b implies cur[a] != cur[b] by {
                        let pa = if a < i { a } else { a + 1 };
                        let pb = if b < i { b } else { b + 1 };
                        assert(cur[a] == prev[pa] && cur[b] == prev[pb]);
                        assert(pa != pb);
                    }
                    assert forall|x: u64| self@.contains(x) <==> old(self)@.remove(handle).contains(x) by {
                        if x != handle && prev.contains(x) {
                            let k = choose|k: int| 0 <= k < prev.len() && prev[k] == x;
                            if k < i {
                                assert(cur[k] == x);
                            } else {
                                assert(cur[k - 1] == x);
                            }
                        }
                        if cur.contains(x) {
                            let k = choose|k: int| 0 <= k < cur.len() && cur[k] == x;
                            let pk = if k < i { k } else { k + 1 };
                            assert(prev[pk] == x);
                            assert(pk != i);
                        }
                    }
                    assert(self@ =~= old(self)@.remove(handle));
                }
                return;
            }
            i = i + 1;
        }
        assert(self@ =~= old(self)@.remove(handle));
    }

    /// The subscribers as they are now, each once.
    pub fn snapshot(&self) -> (r: Vec<u64>)
        requires
            self.wf(),
        ensures
            r@.no_duplicates(),
            r@.to_set() == self@,
    {
        self.handles.clone()
    }
}

/// Subscribing a handle twice leaves the set as subscribing it once, and the
/// same size; unsubscribing a handle that is not there changes nothing.
pub proof fn lemma_subscription_idempotent(s: Set<u64>, handle: u64)
    requires
        s.finite(),
    ensures
        s.insert(handle).insert(handle) == s.insert(handle),
        s.insert(handle).insert(handle).len() == s.insert(handle).len(),
        !s.contains(handle) ==> s.remove(handle) == s,
{
    assert(s.insert(handle).insert(handle) =~= s.insert(handle));
    assert(!s.contains(handle) ==> s.remove(handle) =~= s);
}

} // verus!
