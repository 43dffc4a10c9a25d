//! A progress display for iterators.
//!
//! [`Progress`] wraps an iterator and counts the calls of its `next`. Each
//! call hands back, beside the item, the text that a terminal should show for
//! it: a sequence that clears the screen, then one line drawn by the
//! adapter's display. An adapter starts out [`Unbounded`] and draws a growing
//! row of marks; over an iterator that knows its length it can become
//! [`Bounded`] and draw a bar between two brackets.
//!
//! The library writes nothing itself: the caller prints the text.

pub mod glyphs;
pub mod display;
pub mod adapter;
pub mod run;

pub use crate::adapter::{Progress, ProgressIteratorExt, ProgressView};
pub use crate::display::{Bounded, ProgressDisplay, Unbounded};
pub use crate::glyphs::CLEAR;
