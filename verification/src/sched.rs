//! The adaptive per-component scheduler: one last-updated timestamp per
//! component, indexed positionally in parallel with the component list, each
//! entry touched only right after that component's update.

use vstd::prelude::*;

use crate::components::{spec_should_update, spec_updated_rel, Component, UpdateInput};

verus! {

/// Whether a component is due for an update at `now`, given the timestamp of
/// its last one.
pub open spec fn spec_due(c: Component, last: u64, now: u64) -> bool {
    now >= last && spec_should_update(c, (now - last) as u64)
}

/// What one pass of the driving loop does to a component's timestamp: a due
/// component is stamped with `now`, any other keeps its timestamp.
pub open spec fn spec_tick_stamp(c: Component, last: u64, now: u64) -> u64 {
    if spec_due(c, last, now) {
        now
    } else {
        last
    }
}

/// What one pass of the driving loop does to one component and its timestamp:
/// a due component absorbs its measurement and is stamped with `now`; any
/// other is left exactly as it was, measurement uncollected.
pub open spec fn spec_tick_rel(
    c: Component,
    input: UpdateInput,
    last: u64,
    now: u64,
    c_after: Component,
    last_after: u64,
) -> bool {
    if spec_due(c, last, now) {
        spec_updated_rel(c, input, c_after) && last_after == spec_tick_stamp(c, last, now)
    } else {
        c_after == c && last_after == last
    }
}

/// Scheduler independence: when two components disagree about being due at
/// the same instant, one pass of the driving loop updates only the one
/// reporting true; the other's cached state and last-update timestamp are
/// left untouched.
pub proof fn lemma_scheduler_independence(
    c1: Component,
    input1: UpdateInput,
    last1: u64,
    c1_after: Component,
    stamp1: u64,
    c2: Component,
    input2: UpdateInput,
    last2: u64,
    c2_after: Component,
    stamp2: u64,
    now: u64,
)
    requires
        spec_due(c1, last1, now),
        !spec_due(c2, last2, now),
        spec_tick_rel(c1, input1, last1, now, c1_after, stamp1),
        spec_tick_rel(c2, input2, last2, now, c2_after, stamp2),
    ensures
        spec_updated_rel(c1, input1, c1_after),
        stamp1 == now,
        c2_after == c2,
        stamp2 == last2,
{
}

/// The last-updated timestamps, one per component, in component-list order.
pub struct Scheduler {
    last: Vec<u64>,
}

impl View for Scheduler {
    type V = Seq<u64>;

    closed spec fn view(&self) -> Seq<u64> {
        self.last@
    }
}

impl Scheduler {
    /// A schedule for `n` components, all treated as just updated at `now`.
    pub fn new(n: usize, now: u64) -> (r: Scheduler)
        ensures
            r@.len() == n,
            forall|i: int| 0 <= i < n ==> r@[i] == now,
    {
        let mut last: Vec<u64> = Vec::new();
        let mut i: usize = 0;
        while i < n
            invariant
                i <= n,
                last@.len() == i,
                forall|j: int| 0 <= j < i ==> last@[j] == now,
            decreases n - i,
        {
            last.push(now);
            i = i + 1;
        }
        Scheduler { last }
    }

    /// How many components this schedule tracks.
    pub fn len(&self) -> (r: usize)
        ensures
            r == self@.len(),
    {
        self.last.len()
    }

    /// The timestamp of component `i`'s last update.
    pub fn stamp(&self, i: usize) -> (r: u64)
        requires
            i < self@.len(),
        ensures
            r == self@[i as int],
    {
        self.last[i]
    }

    /// Whether component `i` (`c`) is due for an update at `now`.
    pub fn due(&self, c: &Component, i: usize, now: u64) -> (r: bool)
        requires
            i < self@.len(),
            now >= self@[i as int],
        ensures
            r == spec_due(*c, self@[i as int], now),
    {
        c.should_update(now - self.last[i])
    }

    /// Stamps component `i` as updated at `now`, touching no other entry.
    pub fn record(&mut self, i: usize, now: u64)
        requires
            i < old(self)@.len(),
        ensures
            final(self)@ == old(self)@.update(i as int, now),
    {
        self.last.set(i, now);
    }
}

} // verus!
