//! The course of an adapter over a given sequence of items.

use vstd::prelude::*;
use crate::display::{Bounded, ProgressDisplay, Unbounded};
use crate::glyphs::{marks, BREAK, DONE, LEFT};

verus! {

/// Where an adapter stands: the steps it has taken and the items that its
/// base has yet to give.
pub struct Run<T> {
    /// The steps taken.
    pub count: nat,
    /// The items to come, the next one first.
    pub pending: Seq<T>,
}

impl<T> Run<T> {
    /// After `count` steps, with `pending` to come.
    pub open spec fn at(count: nat, pending: Seq<T>) -> Run<T> {
        Run { count, pending }
    }

    /// Before the first step over `items`.
    pub open spec fn fresh(items: Seq<T>) -> Run<T> {
        Run::at(0, items)
    }

    /// What the next step hands out: the first item to come, or nothing when
    /// none is left.
    pub open spec fn yields(self) -> Option<T> {
        if self.pending.len() > 0 {
            Some(self.pending[0])
        } else {
            None
        }
    }

    /// Where the adapter stands one step later: the step is counted, whether
    /// or not it found an item, and the item it found is gone.
    pub open spec fn step(self) -> Run<T> {
        Run {
            count: self.count + 1,
            pending: if self.pending.len() > 0 {
                self.pending.drop_first()
            } else {
                self.pending
            },
        }
    }

    /// Where the adapter stands `k` steps later.
    pub open spec fn after(self, k: nat) -> Run<T>
        decreases k,
    {
        if k == 0 {
            self
        } else {
            self.after((k - 1) as nat).step()
        }
    }
}

/// Steps add up. After `k` steps the count has grown by `k`, the first `k`
/// items to come are gone, and the next step hands out the one that was
/// `k`-th in line, if there was one.
pub proof fn lemma_after<T>(run: Run<T>, k: nat)
    ensures
        run.after(k).count == run.count + k,
        k <= run.pending.len() ==> run.after(k).pending == run.pending.skip(k as int),
        k >= run.pending.len() ==> run.after(k).pending == Seq::<T>::empty(),
        k < run.pending.len() ==> run.after(k).yields() == Some(run.pending[k as int]),
        k >= run.pending.len() ==> run.after(k).yields() == None::<T>,
    decreases k,
{
    if k > 0 {
        let j = (k - 1) as nat;
        lemma_after(run, j);
        if j < run.pending.len() {
            assert(run.pending.skip(j as int).drop_first() == run.pending.skip(k as int));
        }
    }
}

/// An unbounded adapter over `items` draws for step `k`, counted from zero, a
/// line of `k` marks, and finds in that step the item that was `k`-th in
/// line: one line for each item, and for the steps after the last item a
/// line and no item.
pub proof fn lemma_unbounded_course<T>(items: Seq<T>, k: nat)
    ensures
        Unbounded.line(Run::fresh(items).after(k).count) == marks(DONE, k).push(BREAK),
        k < items.len() ==> Run::fresh(items).after(k).yields() == Some(items[k as int]),
        k >= items.len() ==> Run::fresh(items).after(k).yields() == None::<T>,
{
    lemma_after(Run::fresh(items), k);
}

/// A bounded adapter whose bound is the length of `items` draws for step
/// `k`, counted from zero, a bar of `k` marks for the steps taken and one
/// mark for each item still to come, between its brackets, and finds in that
/// step the item that was `k`-th in line.
pub proof fn lemma_bounded_course<T>(items: Seq<T>, bar: Bounded, k: nat)
    requires
        bar.bound == items.len(),
        k <= items.len(),
    ensures
        bar.line(Run::fresh(items).after(k).count) == seq![bar.brackets.0] + marks(DONE, k)
            + marks(LEFT, (items.len() - k) as nat) + seq![bar.brackets.1, BREAK],
        k < items.len() ==> Run::fresh(items).after(k).yields() == Some(items[k as int]),
{
    lemma_after(Run::fresh(items), k);
}

/// When an adapter has handed out all of `items`, it has counted as many
/// steps as there are items, and the step after that finds nothing.
pub proof fn lemma_count_at_end<T>(items: Seq<T>)
    ensures
        Run::fresh(items).after(items.len()).count == items.len(),
        Run::fresh(items).after(items.len()).pending == Seq::<T>::empty(),
        Run::fresh(items).after(items.len()).yields() == None::<T>,
{
    lemma_after(Run::fresh(items), items.len());
}

} // verus!
