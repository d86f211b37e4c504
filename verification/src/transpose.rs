//! The conversion entry point shared by presence and outcome wrappers.

use vstd::prelude::*;

verus! {

/// Entry point of the library: wraps a presence value (`Option` of a
/// sequence) or an outcome value (`Result` of a sequence) into the adapter
/// that produces one per-element optional or fallible value per step.
///
/// Construction only captures ownership of the wrapped value; it never
/// iterates it. The convenience method `transpose_into_vec` additionally runs
/// the adapter to completion, truncating at the first absent or failure item,
/// so its result is always finite: one item per wrapped element, and none at
/// all for an absent or failed wrapper.
pub trait IterTranspose: Sized {
    /// The adapter produced by `transpose_into_iter`.
    type Iter;

    /// The finite collection produced by `transpose_into_vec`.
    type Materialized;

    /// What `transpose_into_iter` guarantees of its result.
    spec fn iter_ens(self, r: Self::Iter) -> bool;

    /// What `transpose_into_vec` guarantees of its result.
    spec fn materialize_ens(self, r: Self::Materialized) -> bool;

    /// Converts the wrapped value into its transposed adapter, a fresh one on
    /// which no production step has been taken yet.
    fn transpose_into_iter(self) -> (r: Self::Iter)
        ensures
            self.iter_ens(r),
    ;

    /// Runs the transposed adapter to completion into a collection, applying
    /// the appropriate truncation combinator first so that the result is
    /// finite and matches the cardinality of the wrapped sequence.
    fn transpose_into_vec(self) -> (r: Self::Materialized)
        ensures
            self.materialize_ens(r),
    ;
}

} // verus!
