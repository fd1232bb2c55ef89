//! The parallel execution engine: what this library asks of [`rayon`]'s
//! worker pool. The two functions here are the only ones whose contracts are
//! taken on trust; everything else is proved against them.

use crate::map::accepts_each;
use crate::map::maps_each;
use crate::mutate::accepts_each_slot;
use crate::mutate::in_range;
use rayon::iter::IntoParallelIterator;
use rayon::iter::IntoParallelRefMutIterator;
use rayon::iter::ParallelIterator;
use vstd::prelude::*;

verus! {

/// Trusted, not proved: the chain of `rayon`'s
/// `IntoParallelIterator::into_par_iter` on a `Vec<T>`,
/// `ParallelIterator::map` and `ParallelIterator::collect` into a `Vec<U>`.
///
/// The contract claims of that chain that it calls `map` on elements of `src`
/// only, that the vector it returns has one result per element, and that the
/// result of the call on `src[i]` stands at position `i`, in whatever order
/// the worker threads made the calls. `rayon` knows the length of such an
/// iterator in advance and writes each result into the slot of its index.
/// The worker pool is taken to be there: `rayon` builds its global pool on
/// first use.
#[verifier::external_body]
pub(crate) fn parallel_map<T, F, U>(src: Vec<T>, map: F) -> (out: Vec<U>) where
    F: Fn(T) -> U + Send + Sync,
    T: Send,
    U: Send,

    requires
        accepts_each(map, src@),
    ensures
        maps_each(src@, map, out@),
{
    src.into_par_iter().map(map).collect()
}

/// Trusted, not proved: the chain of `rayon`'s
/// `IntoParallelRefMutIterator::par_iter_mut` on a slice and
/// `ParallelIterator::for_each`.
///
/// The contract claims of that chain that it hands `map` one exclusive
/// reference to each element of `src` and to nothing else, that an element
/// changes only through the one call made on it, and that the slice is as
/// long afterwards as before. `rayon` splits the slice into disjoint parts
/// and iterates over each part in place. The worker pool is taken to be
/// there: `rayon` builds its global pool on first use.
#[verifier::external_body]
pub(crate) fn parallel_for_each_mut<T, F>(src: &mut [T], map: F) where
    F: Fn(&mut T) + Send + Sync,
    T: Send,

    requires
        accepts_each_slot(map, old(src)@),
    ensures
        final(src)@.len() == old(src)@.len(),
        forall|i: int|
            #![trigger in_range(i, old(src)@.len())]
            #![trigger final(src)@[i]]
            in_range(i, old(src)@.len()) ==> exists|slot: &mut T|
                #![trigger call_ensures(map, (slot,), ())]
                call_ensures(map, (slot,), ()) && *slot == old(src)@[i]
                    && *final(slot) == final(src)@[i],
{
    src.par_iter_mut().for_each(map)
}

} // verus!
