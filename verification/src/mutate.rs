//! In-place mutate: a mutation applied to each element of a borrowed slice.

use crate::engine::parallel_for_each_mut;
use crate::policy::Strategy;
use vstd::prelude::*;

verus! {

/// `i` is a position in a sequence of `len` elements.
pub open spec fn in_range(i: int, len: nat) -> bool {
    0 <= i < len
}

/// `f` may be called on a reference to `value`, whatever the reference ends
/// up holding.
pub open spec fn accepts_slot<T, F: Fn(&mut T)>(f: F, value: T) -> bool {
    forall|slot: &mut T| *slot == value ==> #[trigger] call_requires(f, (slot,))
}

/// `f` may be called on a reference to every element of `input`.
pub open spec fn accepts_each_slot<T, F: Fn(&mut T)>(f: F, input: Seq<T>) -> bool {
    forall|i: int| 0 <= i < input.len() ==> accepts_slot(f, #[trigger] input[i])
}

/// Calls `map` on the elements of `src` one after the other, first to last,
/// on the calling thread.
fn sequential_for_each_mut<T, F>(src: &mut [T], map: F) where
    F: Fn(&mut T) + Send + Sync,
    T: Send,

    requires
        accepts_each_slot(map, old(src)@),
    ensures
        final(src)@.len() == old(src)@.len(),
        forall|i: int|
            #![trigger in_range(i, old(src)@.len())]
            #![trigger final(src)@[i]]
            in_range(i, old(src)@.len()) ==> exists|slot: &mut T|
                #![trigger call_ensures(map, (slot,), ())]
                call_ensures(map, (slot,), ()) && *slot == old(src)@[i]
                    && *final(slot) == final(src)@[i],
{
    let len: usize = src.len();
    let mut done: usize = 0;
    while done < len
        invariant
            done <= len,
            src@.len() == len,
            old(src)@.len() == len,
            accepts_each_slot(map, old(src)@),
            forall|i: int| done <= i < len ==> src@[i] == old(src)@[i],
            forall|i: int|
                #![trigger in_range(i, done as nat)]
                in_range(i, done as nat) ==> exists|slot: &mut T|
                    #![trigger call_ensures(map, (slot,), ())]
                    call_ensures(map, (slot,), ()) && *slot == old(src)@[i]
                        && *final(slot) == src@[i],
        decreases len - done,
    {
        let ghost earlier = done as nat;
        map(&mut src[done]);
        done += 1;
        proof {
            assert forall|i: int|
                #![trigger in_range(i, done as nat)]
                in_range(i, done as nat) implies exists|slot: &mut T|
                #![trigger call_ensures(map, (slot,), ())]
                call_ensures(map, (slot,), ()) && *slot == old(src)@[i]
                    && *final(slot) == src@[i] by {
                if i < earlier {
                    // untouched by this call: the witness of the earlier call stands
                    assert(in_range(i, earlier));
                }
            }
        }
    }
}

/// Calls `map` on each element of `src` with the given strategy.
///
/// The slice does not tell afterwards which strategy ran: either way it is
/// as long as before, and the element at position `i` is what one call of
/// `map` made of the element that stood there.
pub fn mutate_with<T, F>(strategy: Strategy, src: &mut [T], map: F) where
    F: Fn(&mut T) + Send + Sync,
    T: Send,

    requires
        accepts_each_slot(map, old(src)@),
    ensures
        final(src)@.len() == old(src)@.len(),
        forall|i: int|
            #![trigger in_range(i, old(src)@.len())]
            #![trigger final(src)@[i]]
            in_range(i, old(src)@.len()) ==> exists|slot: &mut T|
                #![trigger call_ensures(map, (slot,), ())]
                call_ensures(map, (slot,), ()) && *slot == old(src)@[i]
                    && *final(slot) == final(src)@[i],
{
    match strategy {
        Strategy::Sequential => sequential_for_each_mut(src, map),
        Strategy::Parallel => parallel_for_each_mut(src, map),
    }
}

/// Calls `map` on each element of `src` in place, parallelizing when `src` is
/// big enough: with fewer than [`THRESHOLD`](crate::policy::THRESHOLD)
/// elements the calls are made on the calling thread, otherwise by the worker
/// pool. No new collection is allocated, unlike with
/// [`threaded_map`](crate::map::threaded_map).
///
/// `map` must be callable on a reference to every element of `src`. The slice
/// is as long afterwards as before, and for each position `i` there was a call
/// of `map` on a reference that held the old `src[i]` when the call began and
/// the new `src[i]` when the reference was given back.
pub fn threaded_mutate<T, F>(src: &mut [T], map: F) where
    F: Fn(&mut T) + Send + Sync,
    T: Send,

    requires
        accepts_each_slot(map, old(src)@),
    ensures
        final(src)@.len() == old(src)@.len(),
        forall|i: int|
            #![trigger in_range(i, old(src)@.len())]
            #![trigger final(src)@[i]]
            in_range(i, old(src)@.len()) ==> exists|slot: &mut T|
                #![trigger call_ensures(map, (slot,), ())]
                call_ensures(map, (slot,), ()) && *slot == old(src)@[i]
                    && *final(slot) == final(src)@[i],
{
    let strategy = Strategy::select(src.len());
    mutate_with(strategy, src, map)
}

/// In-place identity: where every call of `f` leaves in its slot the value of
/// the mathematical function `g` at what the slot held, a slice that `f` was
/// run over holds `g` of each of its former elements, position by position.
pub proof fn lemma_mutate_computes<T, F: Fn(&mut T)>(
    before: Seq<T>,
    f: F,
    g: spec_fn(T) -> T,
    after: Seq<T>,
)
    requires
        after.len() == before.len(),
        forall|i: int|
            #![trigger in_range(i, before.len())]
            #![trigger after[i]]
            in_range(i, before.len()) ==> exists|slot: &mut T|
                #![trigger call_ensures(f, (slot,), ())]
                call_ensures(f, (slot,), ()) && *slot == before[i] && *final(slot) == after[i],
        forall|slot: &mut T| #[trigger] call_ensures(f, (slot,), ()) ==> *final(slot) == g(*slot),
    ensures
        after == before.map_values(g),
{
    assert forall|i: int| 0 <= i < before.len() implies after[i] == g(before[i]) by {
        assert(in_range(i, before.len()));
    }
    assert(after =~= before.map_values(g));
}

} // verus!
