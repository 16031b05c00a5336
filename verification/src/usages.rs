//! The usage history of one tracked object.

use crate::timestamp::{current_time, Timestamp};
use vstd::prelude::*;
use vstd::std_specs::cmp::PartialEqSpecImpl;

verus! {

/// What is left of `history` once every usage strictly before `cutoff` is
/// taken out: usages at `cutoff` or later stay, in their order.
pub open spec fn pruned(history: Seq<Timestamp>, cutoff: Timestamp) -> Seq<Timestamp> {
    history.filter(|t: Timestamp| !t.precedes(cutoff))
}

/// Keeps track of the usages of an object, in the order in which they were
/// recorded.
#[derive(Debug)]
pub struct Usages {
    /// All recorded usages of something.
    usages: Vec<Timestamp>,
}

impl View for Usages {
    type V = Seq<Timestamp>;

    closed spec fn view(&self) -> Seq<Timestamp> {
        self.usages@
    }
}

impl Usages {
    /// Removes all recorded usages.
    pub fn clear(&mut self)
        ensures
            final(self)@ == Seq::<Timestamp>::empty(),
    {
        self.usages.clear();
    }

    /// A history that holds the usages of `list`, in their order.
    pub fn from_list(list: Vec<Timestamp>) -> (r: Self)
        ensures
            r@ == list@,
    {
        Self { usages: list }
    }

    /// Whether no usage is recorded.
    pub fn is_empty(&self) -> (r: bool)
        ensures
            r == (self@.len() == 0),
    {
        self.usages.len() == 0
    }

    /// Provides read access to all stored data.
    pub fn list(&self) -> (r: &Vec<Timestamp>)
        ensures
            r@ == self@,
    {
        &self.usages
    }

    /// Creates a new, empty Usages object.
    pub fn new() -> (r: Self)
        ensures
            r@ == Seq::<Timestamp>::empty(),
    {
        Self { usages: Vec::new() }
    }

    /// Removes all recorded usages from before the value of the `before`
    /// parameter. Usages at `before` itself stay.
    pub fn prune(&mut self, before: Timestamp)
        ensures
            final(self)@ == pruned(old(self)@, before),
    {
        let ghost keep = |t: Timestamp| !t.precedes(before);
        let mut kept: Vec<Timestamp> = Vec::new();
        let mut i: usize = 0;
        proof {
            reveal(Seq::filter);
            assert(self.usages@.take(0) =~= Seq::<Timestamp>::empty());
        }
        while i < self.usages.len()
            invariant
                i <= self.usages@.len(),
                keep == |t: Timestamp| !t.precedes(before),
                kept@ == self.usages@.take(i as int).filter(keep),
            decreases self.usages@.len() - i,
        {
            let t = self.usages[i];
            proof {
                reveal(Seq::filter);
                let next = self.usages@.take(i + 1);
                assert(next.drop_last() =~= self.usages@.take(i as int));
                assert(next.last() == t);
            }
            if !t.is_before(&before) {
                kept.push(t);
            }
            i += 1;
        }
        proof {
            assert(self.usages@.take(i as int) =~= self.usages@);
        }
        self.usages = kept;
    }

    /// Records a new usage of an object, at the time the clock shows.
    ///
    /// The history grows by one usage at its end; which instant that is
    /// depends on the clock.
    pub fn record_usage(&mut self)
        ensures
            final(self)@.len() == old(self)@.len() + 1,
            final(self)@.drop_last() == old(self)@,
    {
        let now = current_time();
        self.record_usage_at(now);
        assert(self@.drop_last() =~= old(self)@);
    }

    /// Records a usage of an object at the instant `at`.
    pub fn record_usage_at(&mut self, at: Timestamp)
        ensures
            final(self)@ == old(self)@.push(at),
    {
        self.usages.push(at);
    }
}

impl Clone for Usages {
    fn clone(&self) -> (r: Self)
        ensures
            r@ == self@,
    {
        Self { usages: self.usages.clone() }
    }
}

impl PartialEq for Usages {
    fn eq(&self, other: &Self) -> (r: bool) {
        if self.usages.len() != other.usages.len() {
            return false;
        }
        let mut i: usize = 0;
        while i < self.usages.len()
            invariant
                i <= self.usages@.len(),
                self.usages@.len() == other.usages@.len(),
                forall|k: int| 0 <= k < i ==> self.usages@[k] == other.usages@[k],
            decreases self.usages@.len() - i,
        {
            if self.usages[i] != other.usages[i] {
                return false;
            }
            i += 1;
        }
        assert(self@ =~= other@);
        true
    }
}

impl PartialEqSpecImpl for Usages {
    open spec fn obeys_eq_spec() -> bool {
        true
    }

    open spec fn eq_spec(&self, other: &Self) -> bool {
        self@ == other@
    }
}

impl Eq for Usages {

}

/// Pruning twice with the same cutoff leaves what pruning once leaves.
pub proof fn lemma_prune_idempotent(history: Seq<Timestamp>, cutoff: Timestamp)
    ensures
        pruned(pruned(history, cutoff), cutoff) == pruned(history, cutoff),
    decreases history.len(),
{
    reveal(Seq::filter);
    if history.len() > 0 {
        let keep = |t: Timestamp| !t.precedes(cutoff);
        let rest = history.drop_last();
        lemma_prune_idempotent(rest, cutoff);
        if keep(history.last()) {
            let once = rest.filter(keep).push(history.last());
            assert(once.drop_last() =~= rest.filter(keep));
            assert(once.last() == history.last());
        }
    }
}

} // verus!
