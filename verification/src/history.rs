//! Fixed-capacity rolling history of normalized fractions, newest first,
//! driving the sparkline panels.
//!
//! Fractions are held in thousandths (0 ..= 1000) so that pixel placement is
//! exact integer arithmetic.

use std::collections::VecDeque;

use vstd::prelude::*;

verus! {

/// `items` with `sample` put in front, the oldest entry evicted first if the
/// store is full.
pub open spec fn spec_insert(items: Seq<u16>, cap: nat, sample: u16) -> Seq<u16> {
    if items.len() >= cap {
        seq![sample].add(items.drop_last())
    } else {
        seq![sample].add(items)
    }
}

/// `items` after inserting every entry of `samples` in order.
pub open spec fn spec_insert_all(items: Seq<u16>, cap: nat, samples: Seq<u16>) -> Seq<u16>
    decreases samples.len(),
{
    if samples.len() == 0 {
        items
    } else {
        spec_insert_all(spec_insert(items, cap, samples[0]), cap, samples.drop_first())
    }
}

/// A rolling store of the most recent normalized samples, newest at the
/// front; at capacity the oldest (back) entry is evicted first.
pub struct History {
    cap: usize,
    items: VecDeque<u16>,
}

impl View for History {
    type V = Seq<u16>;

    closed spec fn view(&self) -> Seq<u16> {
        self.items@
    }
}

impl History {
    /// The fixed capacity this store was created with.
    pub closed spec fn spec_cap(&self) -> nat {
        self.cap as nat
    }

    /// A history is well formed when it never outgrows its capacity and every
    /// sample is a fraction in thousandths.
    pub open spec fn wf(&self) -> bool {
        &&& self@.len() <= self.spec_cap()
        &&& forall|i: int| 0 <= i < self@.len() ==> self@[i] <= 1000
    }

    /// An empty history with room for `cap` samples.
    pub fn new(cap: usize) -> (r: History)
        ensures
            r.wf(),
            r@ == Seq::<u16>::empty(),
            r.spec_cap() == cap,
    {
        History { cap, items: VecDeque::new() }
    }

    /// The number of stored samples.
    pub fn len(&self) -> (r: usize)
        ensures
            r == self@.len(),
    {
        self.items.len()
    }

    /// The sample at position `i`, newest first.
    pub fn get(&self, i: usize) -> (r: u16)
        requires
            i < self@.len(),
        ensures
            r == self@[i as int],
    {
        self.items[i]
    }

    /// Puts the newest sample in front, evicting the oldest entry first when
    /// the store is at capacity.
    pub fn insert(&mut self, sample: u16)
        requires
            old(self).wf(),
            old(self).spec_cap() > 0,
            sample <= 1000,
        ensures
            final(self).wf(),
            final(self).spec_cap() == old(self).spec_cap(),
            final(self)@ == spec_insert(old(self)@, old(self).spec_cap(), sample),
            old(self).spec_cap() > 0 ==> final(self)@.len() > 0,
    {
        if self.items.len() == self.cap {
            self.items.pop_back();
        }
        self.items.push_front(sample);
        proof {
            assert(self@ =~= spec_insert(old(self)@, old(self).spec_cap(), sample));
        }
    }
}

/// Inserting a run of samples leaves the reversed tail of the run in front of
/// whatever older content survives, cut to capacity.
proof fn lemma_insert_all_shape(items: Seq<u16>, cap: nat, samples: Seq<u16>)
    requires
        cap > 0,
        items.len() <= cap,
    ensures
        spec_insert_all(items, cap, samples) =~= (samples.reverse().add(items)).take(
            vstd::math::min(cap as int, samples.len() + items.len() as int),
        ),
    decreases samples.len(),
{
    if samples.len() == 0 {
        assert(spec_insert_all(items, cap, samples) == items);
        assert(samples.reverse() =~= Seq::<u16>::empty());
    } else {
        let first = samples[0];
        let rest = samples.drop_first();
        let pushed = spec_insert(items, cap, first);
        assert(pushed.len() <= cap);
        lemma_insert_all_shape(pushed, cap, rest);
        assert(rest.reverse().add(pushed) =~= (samples.reverse().add(items)).take(
            rest.len() + pushed.len() as int,
        )) by {
            assert(samples.reverse() =~= rest.reverse().push(first));
        }
        let n1 = vstd::math::min(cap as int, rest.len() + pushed.len() as int);
        let n2 = vstd::math::min(cap as int, samples.len() + items.len() as int);
        assert((rest.reverse().add(pushed)).take(n1) =~= (samples.reverse().add(items)).take(n2));
    }
}

/// Rolling-history law: after inserting `samples` into a history of capacity
/// `cap`, with at least `cap` of them, the store holds exactly `cap` entries,
/// namely the `cap` most recent samples, most recent first.
pub proof fn lemma_history_rolling(items: Seq<u16>, cap: nat, samples: Seq<u16>)
    requires
        cap > 0,
        items.len() <= cap,
        samples.len() >= cap,
    ensures
        spec_insert_all(items, cap, samples).len() == cap,
        forall|j: int|
            0 <= j < cap ==> spec_insert_all(items, cap, samples)[j] == samples[samples.len() - 1
                - j],
{
    lemma_insert_all_shape(items, cap, samples);
}

} // verus!
