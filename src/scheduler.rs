use vstd::prelude::*;

verus! {

/// How many scenarios may run at once on a host with `parallelism` hardware
/// threads: each scenario can keep two busy, one per peer, and at least one
/// scenario runs.
pub fn concurrency_limit(parallelism: usize) -> (r: usize)
    ensures
        r == if parallelism / 2 == 0 { 1 } else { parallelism / 2 },
        r >= 1,
{
    let half = parallelism / 2;
    if half == 0 {
        1
    } else {
        half
    }
}

/// Hands out the scenarios of a run, numbered `0 .. total`, in order and at
/// most `limit` at a time, and takes each one back exactly once.
pub struct Scheduler {
    /// Most scenarios that may run at once.
    pub limit: usize,
    /// Number of scenarios of the run.
    pub total: usize,
    /// Scenarios below this one have been started.
    pub next: usize,
    /// Started scenarios that have not completed.
    pub in_flight: Vec<usize>,
    /// For each scenario, whether it has completed.
    pub done: Vec<bool>,
}

impl Scheduler {
    pub open spec fn wf(&self) -> bool {
        &&& self.limit >= 1
        &&& self.next <= self.total
        &&& self.done@.len() == self.total
        &&& self.in_flight@.len() <= self.limit
        &&& self.in_flight@.no_duplicates()
        &&& forall|k: int|
            0 <= k < self.in_flight@.len() ==> #[trigger] self.in_flight@[k] < self.next
                && !self.done@[self.in_flight@[k] as int]
        &&& forall|i: int|
            0 <= i < self.next ==> #[trigger] self.done@[i] || self.in_flight@.contains(i as usize)
        &&& forall|i: int| self.next <= i < self.total ==> !#[trigger] self.done@[i]
    }

    /// Scenario `i` has been started and has not completed.
    pub open spec fn running(&self, i: usize) -> bool {
        self.in_flight@.contains(i)
    }

    /// Every scenario has been started and has completed.
    pub open spec fn finished(&self) -> bool {
        self.next == self.total && self.in_flight@.len() == 0
    }

    pub fn new(total: usize, limit: usize) -> (r: Scheduler)
        requires
            limit >= 1,
        ensures
            r.wf(),
            r.limit == limit,
            r.total == total,
            r.next == 0,
            r.in_flight@.len() == 0,
            forall|i: int| 0 <= i < total ==> !#[trigger] r.done@[i],
    {
        let mut done: Vec<bool> = Vec::new();
        let mut i: usize = 0;
        while i < total
            invariant
                i <= total,
                done@.len() == i,
                forall|j: int| 0 <= j < i ==> !#[trigger] done@[j],
            decreases total - i,
        {
            done.push(false);
            i = i + 1;
        }
        Scheduler { limit, total, next: 0, in_flight: Vec::new(), done }
    }

    /// Starts the next scenario where a permit is free and one is left.
    pub fn next_start(&mut self) -> (r: Option<usize>)
        requires
            old(self).wf(),
        ensures
            final(self).wf(),
            final(self).limit == old(self).limit,
            final(self).total == old(self).total,
            final(self).done@ == old(self).done@,
            r is Some <==> (old(self).in_flight@.len() < old(self).limit && old(self).next
                < old(self).total),
            r matches Some(i) ==> i == old(self).next && final(self).next == i + 1
                && final(self).in_flight@ == old(self).in_flight@.push(i),
            r is None ==> *final(self) == *old(self),
    {
        if self.in_flight.len() < self.limit && self.next < self.total {
            let i = self.next;
            proof {
                assert(!self.in_flight@.contains(i));
            }
            self.in_flight.push(i);
            self.next = i + 1;
            proof {
                let s = *self;
                assert forall|k: int| 0 <= k < s.in_flight@.len() implies #[trigger] s.in_flight@[k]
                    < s.next && !s.done@[s.in_flight@[k] as int] by {
                    if k < s.in_flight@.len() - 1 {
                        assert(s.in_flight@[k] == old(self).in_flight@[k]);
                    }
                }
                assert forall|j: int| 0 <= j < s.next implies #[trigger] s.done@[j]
                    || s.in_flight@.contains(j as usize) by {
                    if j < i {
                        if !s.done@[j] {
                            let k = choose|k: int|
                                0 <= k < old(self).in_flight@.len() && old(self).in_flight@[k]
                                    == j as usize;
                            assert(s.in_flight@[k] == j as usize);
                        }
                    } else {
                        assert(s.in_flight@[s.in_flight@.len() - 1] == i);
                    }
                }
            }
            Some(i)
        } else {
            None
        }
    }

    /// Takes back a completed scenario. Returns `true` where `i` was running:
    /// it is then done and its permit is free again. Returns `false`, and
    /// changes nothing, for a scenario that is not running, so that no
    /// scenario completes twice.
    pub fn complete(&mut self, i: usize) -> (r: bool)
        requires
            old(self).wf(),
        ensures
            final(self).wf(),
            r == old(self).running(i),
            r ==> !old(self).done@[i as int] && final(self).done@ == old(self).done@.update(
                i as int,
                true,
            ) && !final(self).running(i) && final(self).in_flight@.len() + 1
                == old(self).in_flight@.len() && final(self).next == old(self).next
                && final(self).limit == old(self).limit && final(self).total == old(self).total,
            !r ==> *final(self) == *old(self),
    {
        let mut k: usize = 0;
        while k < self.in_flight.len() && self.in_flight[k] != i
            invariant
                *self == *old(self),
                k <= self.in_flight@.len(),
                forall|j: int| 0 <= j < k ==> self.in_flight@[j] != i,
            decreases self.in_flight@.len() - k,
        {
            k = k + 1;
        }
        if k == self.in_flight.len() {
            return false;
        }
        let ghost before = *self;
        proof {
            assert(self.in_flight@[k as int] < self.next);
        }
        self.in_flight.remove(k);
        self.done[i] = true;
        proof {
            let s = *self;
            assert(before.in_flight@[k as int] == i);
            assert forall|m: int| 0 <= m < s.in_flight@.len() implies #[trigger] s.in_flight@[m]
                < s.next && !s.done@[s.in_flight@[m] as int] by {
                if m < k {
                    assert(s.in_flight@[m] == before.in_flight@[m]);
                } else {
                    assert(s.in_flight@[m] == before.in_flight@[m + 1]);
                }
            }
            assert forall|j: int| 0 <= j < s.next implies #[trigger] s.done@[j]
                || s.in_flight@.contains(j as usize) by {
                if j != i && !s.done@[j] {
                    let m = choose|m: int|
                        0 <= m < before.in_flight@.len() && before.in_flight@[m] == j as usize;
                    if m < k {
                        assert(s.in_flight@[m] == j as usize);
                    } else {
                        assert(m != k);
                        assert(s.in_flight@[m - 1] == j as usize);
                    }
                }
            }
            assert(!s.in_flight@.contains(i)) by {
                if s.in_flight@.contains(i) {
                    let m = choose|m: int| 0 <= m < s.in_flight@.len() && s.in_flight@[m] == i;
                    if m < k {
                        assert(before.in_flight@[m] == i);
                    } else {
                        assert(before.in_flight@[m + 1] == i);
                    }
                }
            }
            assert(s.in_flight@.no_duplicates()) by {
                assert forall|a: int, b: int|
                    0 <= a < s.in_flight@.len() && 0 <= b < s.in_flight@.len() && a != b implies
                    s.in_flight@[a] != s.in_flight@[b] by {
                    let a0 = if a < k { a } else { a + 1 };
                    let b0 = if b < k { b } else { b + 1 };
                    assert(s.in_flight@[a] == before.in_flight@[a0]);
                    assert(s.in_flight@[b] == before.in_flight@[b0]);
                }
            }
        }
        true
    }

    pub fn is_finished(&self) -> (r: bool)
        requires
            self.wf(),
        ensures
            r == self.finished(),
    {
        self.next == self.total && self.in_flight.len() == 0
    }
}

/// Never more than the limit of scenarios runs at once, a scenario that has
/// completed is not running (so `complete` cannot take it back again), and
/// once the run is finished every scenario has completed.
pub proof fn lemma_bounded_and_complete(s: Scheduler)
    requires
        s.wf(),
    ensures
        s.in_flight@.len() <= s.limit,
        forall|i: usize| #[trigger] s.running(i) ==> (i as int) < s.total && !s.done@[i as int],
        s.finished() ==> forall|i: int| 0 <= i < s.total ==> #[trigger] s.done@[i],
{
    if s.finished() {
        assert forall|i: int| 0 <= i < s.total implies #[trigger] s.done@[i] by {
            assert(s.done@[i] || s.in_flight@.contains(i as usize));
        }
    }
}

} // verus!
