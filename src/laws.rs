//! Properties of recording and validation that hold for every trackable type.
use crate::access::admits_output;
use crate::tracker::{admits, recording, unobserved, Trackable};
use vstd::prelude::*;

verus! {

/// Soundness: when the tracker recorded by running `calls` against `v1`
/// accepts `v2`, every accessor it observed gives the same output on `v1`
/// and on `v2`.
pub proof fn lemma_soundness<T: Trackable>(v1: T, v2: T, calls: Seq<usize>)
    requires
        admits(recording(v1, calls), v2),
    ensures
        forall|i: int|
            0 <= i < T::accessor_count() && (#[trigger] recording(v1, calls)[i]) is Some
                ==> v1.accessor(i) == v2.accessor(i),
{
    assert forall|i: int|
        0 <= i < T::accessor_count() && (#[trigger] recording(v1, calls)[i]) is Some implies v1.accessor(i)
        == v2.accessor(i) by {
        assert(admits_output(recording(v1, calls)[i], v2.accessor(i)));
    }
}

/// A tracker recorded against a value accepts that value.
pub proof fn lemma_recording_admits_own<T: Trackable>(v: T, calls: Seq<usize>)
    ensures
        admits(recording(v, calls), v),
{
}

/// Vacuous validity: a tracker that has observed nothing accepts every value.
pub proof fn lemma_vacuous_validity<T: Trackable>(v: T)
    ensures
        admits(unobserved::<T>(), v),
{
}

/// Determinism: running the same accessor calls against two values whose
/// called accessors agree records the same observations.
pub proof fn lemma_determinism<T: Trackable>(v1: T, v2: T, calls: Seq<usize>)
    requires
        forall|j: int|
            0 <= j < calls.len() ==> v1.accessor(#[trigger] calls[j] as int) == v2.accessor(
                calls[j] as int,
            ),
    ensures
        recording(v1, calls) == recording(v2, calls),
{
    let ints = calls.map_values(|c: usize| c as int);
    assert forall|i: int| 0 <= i < T::accessor_count() implies #[trigger] recording(v1, calls)[i]
        == recording(v2, calls)[i] by {
        if ints.contains(i) {
            let j = choose|j: int| 0 <= j < ints.len() && ints[j] == i;
            assert(calls[j] as int == i);
        }
    }
    assert(recording(v1, calls) =~= recording(v2, calls));
}

} // verus!
