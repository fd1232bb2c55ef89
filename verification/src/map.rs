//! Transform-and-collect: a new vector made of what a transform returns for
//! each element of an owned input vector.

use crate::engine::parallel_map;
use crate::policy::Strategy;
use crate::policy::THRESHOLD;
use vstd::prelude::*;

verus! {

/// `f` may be called on every element of `input`.
pub open spec fn accepts_each<T, U, F: Fn(T) -> U>(f: F, input: Seq<T>) -> bool {
    forall|i: int| 0 <= i < input.len() ==> call_requires(f, (#[trigger] input[i],))
}

/// `output` holds one result per element of `input`, at the same position:
/// `output[i]` is a value that `f` returned for `input[i]`.
pub open spec fn maps_each<T, U, F: Fn(T) -> U>(input: Seq<T>, f: F, output: Seq<U>) -> bool {
    &&& output.len() == input.len()
    &&& forall|i: int|
        0 <= i < input.len() ==> call_ensures(f, (input[i],), #[trigger] output[i])
}

/// `f` never returns two different results for one argument.
pub open spec fn deterministic<T, U, F: Fn(T) -> U>(f: F) -> bool {
    forall|x: T, y1: U, y2: U|
        #![trigger call_ensures(f, (x,), y1), call_ensures(f, (x,), y2)]
        call_ensures(f, (x,), y1) && call_ensures(f, (x,), y2) ==> y1 == y2
}

/// Every result of `f` is the value of the mathematical function `g` at the
/// argument.
pub open spec fn computes<T, U, F: Fn(T) -> U>(f: F, g: spec_fn(T) -> U) -> bool {
    forall|x: T, y: U| #[trigger] call_ensures(f, (x,), y) ==> y == g(x)
}

/// Applies `map` to the elements of `src` one after the other, first to last,
/// on the calling thread.
fn sequential_map<T, F, U>(src: Vec<T>, map: F) -> (out: Vec<U>) where
    F: Fn(T) -> U + Send + Sync,
    T: Send,
    U: Send,

    requires
        accepts_each(map, src@),
    ensures
        maps_each(src@, map, out@),
{
    let ghost input = src@;
    let mut out: Vec<U> = Vec::new();
    for item in it: src.into_iter()
        invariant
            it.seq() == input,
            accepts_each(map, input),
            out@.len() == it.index(),
            forall|i: int|
                0 <= i < it.index() ==> call_ensures(map, (input[i],), #[trigger] out@[i]),
    {
        out.push(map(item));
    }
    out
}

/// Runs `map` on each element of `src` with the given strategy.
///
/// The result does not tell which strategy ran: either way it has one element
/// per element of `src`, and the one at position `i` is what `map` returned
/// for `src[i]`.
pub fn map_with<T, F, U>(strategy: Strategy, src: Vec<T>, map: F) -> (out: Vec<U>) where
    F: Fn(T) -> U + Send + Sync,
    T: Send,
    U: Send,

    requires
        accepts_each(map, src@),
    ensures
        maps_each(src@, map, out@),
{
    match strategy {
        Strategy::Sequential => sequential_map(src, map),
        Strategy::Parallel => parallel_map(src, map),
    }
}

/// Runs `map` on each element of `src`, parallelizing when `src` is big enough:
/// with fewer than [`THRESHOLD`] elements the calls are made on the calling
/// thread, otherwise by the worker pool.
///
/// `map` must be callable on every element of `src`. The output has exactly one
/// element per element of `src`, and its element at position `i` is what `map`
/// returned for `src[i]`, whichever way the calls were made.
///
/// If you want to transform a vector of data in-place, check out
/// [`threaded_mutate`](crate::mutate::threaded_mutate).
pub fn threaded_map<T, F, U>(src: Vec<T>, map: F) -> (out: Vec<U>) where
    F: Fn(T) -> U + Send + Sync,
    T: Send,
    U: Send,

    requires
        accepts_each(map, src@),
    ensures
        maps_each(src@, map, out@),
{
    let strategy = Strategy::select(src.len());
    map_with(strategy, src, map)
}

/// Order preservation: where every result of `f` is the value of the
/// mathematical function `g` at the argument, the mapped output is `g` applied
/// to the input, position by position.
pub proof fn lemma_map_computes<T, U, F: Fn(T) -> U>(
    input: Seq<T>,
    f: F,
    g: spec_fn(T) -> U,
    output: Seq<U>,
)
    requires
        maps_each(input, f, output),
        computes(f, g),
    ensures
        output == input.map_values(g),
{
    assert(output =~= input.map_values(g));
}

/// Repeatability: mapping equal inputs twice with one deterministic transform
/// gives equal outputs.
pub proof fn lemma_map_repeatable<T, U, F: Fn(T) -> U>(
    input: Seq<T>,
    f: F,
    first: Seq<U>,
    second: Seq<U>,
)
    requires
        deterministic(f),
        maps_each(input, f, first),
        maps_each(input, f, second),
    ensures
        first == second,
{
    assert(first =~= second);
}

/// The threshold boundary: an input one element short of [`THRESHOLD`] is
/// mapped sequentially and one that has reached it in parallel, and still a
/// deterministic transform gives both the same result for the same element.
pub proof fn lemma_threshold_boundary<T, U, F: Fn(T) -> U>(
    below: Seq<T>,
    at: Seq<T>,
    f: F,
    out_below: Seq<U>,
    out_at: Seq<U>,
)
    requires
        below.len() == THRESHOLD - 1,
        at.len() == THRESHOLD,
        deterministic(f),
        maps_each(below, f, out_below),
        maps_each(at, f, out_at),
    ensures
        Strategy::for_len(below.len()) == Strategy::Sequential,
        Strategy::for_len(at.len()) == Strategy::Parallel,
        forall|i: int, j: int|
            0 <= i < below.len() && 0 <= j < at.len() && below[i] == at[j]
                ==> #[trigger] out_below[i] == #[trigger] out_at[j],
{
}

} // verus!
