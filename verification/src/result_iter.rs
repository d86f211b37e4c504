//! The outcome-backed adapter: a lazy sequence of `Result<T, E>` items drawn
//! from a wrapped sequence, or of replayed clones of a retained error.

use vstd::prelude::*;

use crate::option_iter::cursor_index;
use crate::transpose::IterTranspose;

verus! {

/// The value produced by production step `i` of an adapter whose source is
/// the successful sequence `s`: `Some(Ok(s[i]))` while elements remain, and
/// `None` (end of sequence) at every step past the end. Natural exhaustion of
/// a successful source terminates the sequence rather than fabricating a
/// failure, since no error value exists to replay at that point.
pub open spec fn ok_item_at<T, E>(s: Seq<T>, i: int) -> Option<Result<T, E>> {
    if 0 <= i < s.len() {
        Some(Ok(s[i]))
    } else {
        None
    }
}

/// A sequence wrapped element-wise in `Ok`.
pub open spec fn wrap_ok<T, E>(s: Seq<T>) -> Seq<Result<T, E>> {
    s.map_values(|x: T| Ok(x))
}

/// Holds when `r` is one production step of an adapter that retains the
/// error `e`: a failure item carrying a clone of `e`. The retained original
/// is never mutated or consumed; each step duplicates it afresh.
pub open spec fn is_failure_output<T, E: Clone>(e: E, r: Option<Result<T, E>>) -> bool {
    match r {
        Some(item) => match item {
            Ok(_) => false,
            Err(e2) => cloned(e, e2),
        },
        None => false,
    }
}

/// The values of the first `k` production steps of a successful source, as a
/// sequence.
pub open spec fn ok_outputs_prefix<T, E>(s: Seq<T>, k: nat) -> Seq<Option<Result<T, E>>> {
    Seq::new(k, |i: int| ok_item_at::<T, E>(s, i))
}

/// Law: a successful source of length `n` produces exactly
/// `Ok(S[0]), ..., Ok(S[n-1])` over its first `n` steps, and ends the
/// sequence at the step right after.
pub proof fn lemma_success_prefix<T, E>(s: Seq<T>)
    ensures
        ok_outputs_prefix::<T, E>(s, s.len()) == wrap_ok::<T, E>(s).map_values(
            |x: Result<T, E>| Some(x),
        ),
        ok_item_at::<T, E>(s, s.len() as int) is None,
{
    assert(ok_outputs_prefix::<T, E>(s, s.len()) =~= wrap_ok::<T, E>(s).map_values(
        |x: Result<T, E>| Some(x),
    ));
}

/// Adapter produced by calling [`IterTranspose::transpose_into_iter`] on a
/// `Result` of a sequence.
///
/// Its discriminant is fixed at construction: an adapter built from a
/// successful wrapper walks its sequence and then ends, while one built from
/// a failed wrapper retains the single error value and replays a clone of it
/// on every production step, forever. A consumer that needs a finite result
/// from the failed case applies [`take_while_ok`](Self::take_while_ok) or
/// [`unwrap_while_ok`](Self::unwrap_while_ok).
pub struct ResultTransposedIter<T, E> {
    inner: Result<Vec<T>, E>,
    full: Ghost<Seq<T>>,
    taken: Ghost<nat>,
}

impl<T, E: Clone> ResultTransposedIter<T, E> {
    /// The originally wrapped sequence (`Ok`) or the retained error (`Err`).
    /// Fixed at construction; no production step changes it.
    pub closed spec fn source(self) -> Result<Seq<T>, E> {
        match self.inner {
            Ok(_) => Ok(self.full@),
            Err(e) => Err(e),
        }
    }

    /// How many production steps have been taken so far.
    pub closed spec fn steps(self) -> nat {
        self.taken@
    }

    /// Internal consistency: what is left to walk is exactly the source's
    /// tail from the cursor on.
    pub closed spec fn wf(self) -> bool {
        match self.inner {
            Ok(v) => v@ == self.full@.skip(cursor_index(self.full@.len(), self.taken@)),
            Err(_) => true,
        }
    }

    /// One production step: returns `Some(Ok(..))` of the next element while
    /// the successful source still has one, `None` once it is exhausted, and
    /// `Some(Err(..))` carrying a fresh clone of the retained error at every
    /// step of a failed source, however often it is called.
    pub fn next(&mut self) -> (r: Option<Result<T, E>>)
        requires
            old(self).wf(),
        ensures
            final(self).wf(),
            final(self).source() == old(self).source(),
            final(self).steps() == old(self).steps() + 1,
            match old(self).source() {
                Ok(s) => r == ok_item_at::<T, E>(s, old(self).steps() as int),
                Err(e) => is_failure_output(e, r),
            },
    {
        let ghost s = self.full@;
        let ghost k = self.taken@;
        let r = match &mut self.inner {
            Err(e) => Some(Err(e.clone())),
            Ok(v) => {
                if v.len() > 0 {
                    let x = v.remove(0);
                    proof {
                        assert(s.skip(k as int).remove(0) =~= s.skip(k as int + 1));
                    }
                    Some(Ok(x))
                } else {
                    proof {
                        assert(s.skip(cursor_index(s.len(), k)).len() == 0);
                        assert(v@ =~= s.skip(s.len() as int));
                    }
                    None
                }
            },
        };
        self.taken = Ghost(self.taken@ + 1);
        r
    }

    /// Truncation combinator: produces every remaining item up to, and not
    /// including, the first failure, still wrapped in `Ok`. An adapter built
    /// from a failed wrapper yields an empty collection, since its very
    /// first step is already a failure.
    #[verifier::loop_isolation(false)]
    pub fn take_while_ok(self) -> (r: Vec<Result<T, E>>)
        requires
            self.wf(),
        ensures
            match self.source() {
                Ok(s) => r@ == wrap_ok::<T, E>(s.skip(cursor_index(s.len(), self.steps()))),
                Err(_) => r@ == Seq::<Result<T, E>>::empty(),
            },
    {
        match self.inner {
            Err(_) => Vec::new(),
            Ok(mut v) => {
                let ghost g = v@;
                let mut out: Vec<Result<T, E>> = Vec::new();
                while v.len() > 0
                    invariant
                        out@.len() + v@.len() == g.len(),
                        v@ == g.skip(out@.len() as int),
                        out@ == wrap_ok::<T, E>(g.take(out@.len() as int)),
                    decreases v@.len(),
                {
                    let ghost k = out@.len() as int;
                    let x = v.remove(0);
                    out.push(Ok(x));
                    proof {
                        assert(v@ =~= g.skip(k + 1));
                        assert(out@ =~= wrap_ok::<T, E>(g.take(k + 1)));
                    }
                }
                proof {
                    assert(g.take(g.len() as int) =~= g);
                }
                out
            },
        }
    }

    /// Unwrapping truncation combinator: like
    /// [`take_while_ok`](Self::take_while_ok), but strips the `Ok` wrapper
    /// from every yielded item, which is safe because truncation guarantees
    /// that no failure item is ever unwrapped.
    #[verifier::loop_isolation(false)]
    pub fn unwrap_while_ok(self) -> (r: Vec<T>)
        requires
            self.wf(),
        ensures
            match self.source() {
                Ok(s) => r@ == s.skip(cursor_index(s.len(), self.steps())),
                Err(_) => r@ == Seq::<T>::empty(),
            },
    {
        match self.inner {
            Err(_) => Vec::new(),
            Ok(mut v) => {
                let ghost g = v@;
                let mut out: Vec<T> = Vec::new();
                while v.len() > 0
                    invariant
                        out@.len() + v@.len() == g.len(),
                        v@ == g.skip(out@.len() as int),
                        out@ == g.take(out@.len() as int),
                    decreases v@.len(),
                {
                    let ghost k = out@.len() as int;
                    let x = v.remove(0);
                    out.push(x);
                    proof {
                        assert(v@ =~= g.skip(k + 1));
                        assert(out@ =~= g.take(k + 1));
                    }
                }
                proof {
                    assert(g.take(g.len() as int) =~= g);
                }
                out
            },
        }
    }
}

impl<T, E: Clone> IterTranspose for Result<Vec<T>, E> {
    type Iter = ResultTransposedIter<T, E>;

    type Materialized = Vec<Result<T, E>>;

    open spec fn iter_ens(self, r: ResultTransposedIter<T, E>) -> bool {
        &&& r.wf()
        &&& r.steps() == 0
        &&& r.source() == match self {
            Ok(v) => Ok::<Seq<T>, E>(v@),
            Err(e) => Err::<Seq<T>, E>(e),
        }
    }

    open spec fn materialize_ens(self, r: Vec<Result<T, E>>) -> bool {
        r@ == match self {
            Ok(v) => wrap_ok::<T, E>(v@),
            Err(_) => Seq::<Result<T, E>>::empty(),
        }
    }

    fn transpose_into_iter(self) -> (r: ResultTransposedIter<T, E>) {
        match self {
            Ok(v) => {
                let ghost f = v@;
                let it = ResultTransposedIter { inner: Ok(v), full: Ghost(f), taken: Ghost(0) };
                proof {
                    assert(f.skip(0) =~= f);
                }
                it
            },
            Err(e) => ResultTransposedIter {
                inner: Err(e),
                full: Ghost(Seq::empty()),
                taken: Ghost(0),
            },
        }
    }

    fn transpose_into_vec(self) -> (r: Vec<Result<T, E>>) {
        let ghost w = self;
        let it = self.transpose_into_iter();
        let out = it.take_while_ok();
        proof {
            match w {
                Ok(v) => {
                    assert(v@.skip(0) =~= v@);
                },
                Err(_) => {},
            }
        }
        out
    }
}

} // verus!
