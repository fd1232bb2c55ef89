//! The size rule that decides where a transform runs.

use vstd::prelude::*;

verus! {

/// The least number of elements that is processed in parallel: the cost of
/// handing work to other threads is not worth paying for fewer.
pub const THRESHOLD: usize = 64;

/// Where the elements of a collection are processed.
#[derive(Clone, Copy, Debug, PartialEq, Eq, Structural)]
pub enum Strategy {
    /// One element after the other, in input order, on the calling thread.
    Sequential,
    /// Spread over the worker pool; the caller blocks until all are done.
    Parallel,
}

impl Strategy {
    /// The strategy for a collection of `len` elements: sequential strictly
    /// below [`THRESHOLD`], parallel from there on.
    pub open spec fn for_len(len: nat) -> Strategy {
        if len < THRESHOLD {
            Strategy::Sequential
        } else {
            Strategy::Parallel
        }
    }

    /// Chooses the strategy for a collection of `len` elements.
    pub fn select(len: usize) -> (chosen: Strategy)
        ensures
            chosen == Strategy::for_len(len as nat),
    {
        if len < THRESHOLD {
            Strategy::Sequential
        } else {
            Strategy::Parallel
        }
    }
}

} // verus!
