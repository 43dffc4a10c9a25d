//! The two displays of an adapter.

use vstd::prelude::*;
use crate::adapter::Progress;
use crate::glyphs::{marks, push_marks, BREAK, DONE, LEFT};

verus! {

/// What draws the line of an adapter.
pub trait ProgressDisplay: Sized {
    /// The line drawn when `count` steps have been taken, with its line
    /// break.
    spec fn line(&self, count: nat) -> Seq<char>;

    /// Draws the line for the steps that `progress` has taken so far.
    fn display<Iter>(&self, progress: &Progress<Iter, Self>) -> (text: String)
        ensures
            text@ == self.line(progress@.count),
    ;
}

/// The display of an adapter that does not know how many items will come:
/// one mark for each step taken.
pub struct Unbounded;

/// The display of an adapter that knows how many items will come: a bar
/// between two brackets.
pub struct Bounded {
    /// How many items the base had to give when the bound was taken.
    pub bound: usize,
    /// The glyphs that open and close the bar.
    pub brackets: (char, char),
}

/// How many steps of `total` are left after `count`: none once `count` has
/// passed `total`.
pub open spec fn left(total: nat, count: nat) -> nat {
    if count <= total {
        (total - count) as nat
    } else {
        0
    }
}

impl Bounded {
    /// What stands between the brackets after `count` steps: a mark for each
    /// step taken, then one for each step left.
    pub open spec fn bar(self, count: nat) -> Seq<char> {
        marks(DONE, count) + marks(LEFT, left(self.bound as nat, count))
    }

    /// This display with other brackets.
    pub open spec fn restyled(self, brackets: (char, char)) -> Bounded {
        Bounded { bound: self.bound, brackets }
    }
}

impl ProgressDisplay for Unbounded {
    open spec fn line(&self, count: nat) -> Seq<char> {
        marks(DONE, count).push(BREAK)
    }

    fn display<Iter>(&self, progress: &Progress<Iter, Self>) -> (text: String) {
        let mut text = String::new();
        push_marks(&mut text, DONE, progress.count());
        text.push(BREAK);
        text
    }
}

impl ProgressDisplay for Bounded {
    open spec fn line(&self, count: nat) -> Seq<char> {
        seq![self.brackets.0] + self.bar(count) + seq![self.brackets.1, BREAK]
    }

    fn display<Iter>(&self, progress: &Progress<Iter, Self>) -> (text: String) {
        let count = progress.count();
        let rest: usize = if count <= self.bound {
            self.bound - count
        } else {
            0
        };
        let mut text = String::new();
        text.push(self.brackets.0);
        push_marks(&mut text, DONE, count);
        push_marks(&mut text, LEFT, rest);
        text.push(self.brackets.1);
        text.push(BREAK);
        text
    }
}

/// Other brackets change the glyph in front of the bar and the glyph behind
/// it, and nothing else: not the bar between them, which shows the same
/// steps as before, nor the length of the line. Of two changes only the
/// second one shows.
pub proof fn lemma_brackets(bar: Bounded, first: (char, char), second: (char, char), count: nat)
    ensures
        bar.restyled(first).bar(count) == bar.bar(count),
        bar.restyled(first).line(count) == seq![first.0] + bar.bar(count) + seq![first.1, BREAK],
        bar.restyled(first).line(count) == bar.line(count).update(0, first.0).update(
            bar.line(count).len() - 2,
            first.1,
        ),
        bar.restyled(first).restyled(second) == bar.restyled(second),
{
}

/// The bar is as wide as its bound until the steps taken pass it, and as
/// wide as the steps taken from then on: no step is drawn as left, and none
/// is taken back.
pub proof fn lemma_overrun(bar: Bounded, count: nat)
    ensures
        count <= bar.bound ==> bar.bar(count).len() == bar.bound,
        count >= bar.bound ==> bar.bar(count) == marks(DONE, count),
        count >= bar.bound ==> bar.line(count) == seq![bar.brackets.0] + marks(DONE, count)
            + seq![bar.brackets.1, BREAK],
{
}

} // verus!
