//! Lazy transposition of an optional or fallible container of a sequence into
//! a sequence of per-element optional or fallible values.
//!
//! The [`IterTranspose`] entry point turns an `Option<Vec<T>>` into an
//! [`OptionTransposedIter<T>`] producing one `Option<T>` per step, and a
//! `Result<Vec<T>, E>` into a [`ResultTransposedIter<T, E>`] producing one
//! `Result<T, E>` per step. An adapter built from an absent or failed wrapper
//! produces `None` (respectively a clone of the retained error) on every step,
//! forever; the truncation combinators (`take_while_some`, `take_while_ok`)
//! and their unwrapping variants turn such a conceptually infinite sequence
//! back into a finite collection, one item per originally wrapped element.

mod option_iter;
mod result_iter;
mod transpose;

pub use option_iter::{
    cursor_index, lemma_absent_prefix, lemma_materialize_present_len, lemma_present_prefix,
    option_item_at, option_outputs_prefix, wrap_some, OptionTransposedIter,
};
pub use result_iter::{
    is_failure_output, lemma_success_prefix, ok_item_at, ok_outputs_prefix, wrap_ok,
    ResultTransposedIter,
};
pub use transpose::IterTranspose;
