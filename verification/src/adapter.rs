//! The adapter.

use vstd::prelude::*;
use vstd::std_specs::iter::IteratorSpec;
use crate::display::{Bounded, ProgressDisplay, Unbounded};
use crate::glyphs::{frame, framed, BRACKETS};
use crate::run::Run;

verus! {

/// An iterator together with the number of steps taken on it and the display
/// that draws that number.
pub struct Progress<Iter, Bound> {
    iter: Iter,
    i: usize,
    bound: Bound,
}

/// What a [`Progress`] stands for.
pub struct ProgressView<Iter, Bound> {
    /// The wrapped iterator.
    pub base: Iter,
    /// How many steps have been taken.
    pub count: nat,
    /// The display.
    pub strategy: Bound,
}

impl<Iter, Bound> View for Progress<Iter, Bound> {
    type V = ProgressView<Iter, Bound>;

    closed spec fn view(&self) -> ProgressView<Iter, Bound> {
        ProgressView { base: self.iter, count: self.i as nat, strategy: self.bound }
    }
}

impl<Iter, Bound> Progress<Iter, Bound> {
    /// How many steps have been taken.
    pub fn count(&self) -> (n: usize)
        ensures
            n == self@.count,
    {
        self.i
    }

    /// The display.
    pub fn strategy(&self) -> (bound: &Bound)
        ensures
            *bound == self@.strategy,
    {
        &self.bound
    }
}

impl<Iter> Progress<Iter, Unbounded> {
    /// Wraps `iter`: no step taken yet, and the display unbounded.
    pub fn new(iter: Iter) -> (p: Self)
        ensures
            p@ == (ProgressView { base: iter, count: 0, strategy: Unbounded }),
    {
        Self { iter, i: 0, bound: Unbounded }
    }
}

impl<Iter: Iterator + ExactSizeIterator> Progress<Iter, Unbounded> {
    /// Takes the number of items that the base has yet to give as the bound
    /// of a bar with the brackets `[` and `]`. The base and the steps taken
    /// stay as they are.
    pub fn with_bounds(self) -> (p: Progress<Iter, Bounded>)
        ensures
            p@.base == self@.base,
            p@.count == self@.count,
            p@.strategy.brackets == BRACKETS,
            self@.base.obeys_prophetic_iter_laws() ==> p@.strategy.bound
                == self@.base.remaining().len(),
    {
        let bound = Bounded { brackets: BRACKETS, bound: exact_len(&self.iter) };
        Progress { iter: self.iter, i: self.i, bound }
    }
}

impl<Iter> Progress<Iter, Bounded> {
    /// Puts the bar between other brackets. The bound, the base and the
    /// steps taken stay as they are.
    pub fn with_brackets(self, brackets: (char, char)) -> (p: Self)
        ensures
            p@ == (ProgressView { strategy: self@.strategy.restyled(brackets), ..self@ }),
    {
        let mut p = self;
        p.bound.brackets = brackets;
        p
    }
}

impl<Iter: Iterator, Bound: ProgressDisplay> Progress<Iter, Bound> {
    /// Takes one step: draws the line for the steps taken before this one,
    /// counts the step, and only then asks the base for its next item.
    ///
    /// Returns the text for the terminal and what the base gave. The step is
    /// drawn and counted also when the base has nothing left. The display
    /// never changes. Of a base that keeps the laws of iterators the item is
    /// the first of those to come, and the others stay in line.
    pub fn next(&mut self) -> (out: (String, Option<Iter::Item>))
        requires
            old(self)@.count < usize::MAX,
        ensures
            out.0@ == frame(old(self)@.strategy.line(old(self)@.count)),
            final(self)@.count == old(self)@.count + 1,
            final(self)@.strategy == old(self)@.strategy,
            final(self)@.base.obeys_prophetic_iter_laws()
                == old(self)@.base.obeys_prophetic_iter_laws(),
            old(self)@.base.obeys_prophetic_iter_laws() ==> ({
                let before = Run::at(old(self)@.count, old(self)@.base.remaining());
                let after = Run::at(final(self)@.count, final(self)@.base.remaining());
                &&& out.1 == before.yields()
                &&& after == before.step()
                &&& final(self)@.base.will_return_none() == old(self)@.base.will_return_none()
                &&& out.1 is None ==> final(self)@.base.will_return_none()
                &&& final(self)@.base.decrease() is Some == old(self)@.base.decrease() is Some
                &&& out.1 is Some && final(self)@.base.decrease() is Some ==> decreases_to!(
                    old(self)@.base.decrease()->0 => final(self)@.base.decrease()->0
                )
            }),
    {
        let line = self.bound.display(self);
        let text = framed(&line);
        self.i = self.i + 1;
        let item = self.iter.next();
        (text, item)
    }
}

/// `ExactSizeIterator::len` gives the number of items that the iterator will
/// still yield before it ends. This holds of every iterator that keeps to
/// what the trait asks of it; nothing is said of one on which `next` does
/// not behave as an iterator's should.
#[verifier::external_body]
fn exact_len<Iter: Iterator + ExactSizeIterator>(iter: &Iter) -> (n: usize)
    ensures
        iter.obeys_prophetic_iter_laws() ==> n == iter.remaining().len(),
{
    iter.len()
}

/// Lets any value be wrapped by a method call.
pub trait ProgressIteratorExt: Sized {
    /// Wraps `self`: no step taken yet, and the display unbounded.
    fn progress(self) -> (p: Progress<Self, Unbounded>)
        ensures
            p@ == (ProgressView { base: self, count: 0, strategy: Unbounded }),
    ;
}

impl<Iter> ProgressIteratorExt for Iter {
    fn progress(self) -> (p: Progress<Self, Unbounded>) {
        Progress::new(self)
    }
}

} // verus!
