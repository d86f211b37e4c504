//! The presence-backed adapter: a lazy, conceptually infinite sequence of
//! `Option<T>` items drawn from a wrapped sequence.

use vstd::prelude::*;

use crate::transpose::IterTranspose;

verus! {

/// The value produced by production step `i` of an adapter whose source is
/// `src`: `Some(S[i])` while a present sequence `S` still has elements, and
/// `None` at every step past its end as well as at every step of an absent
/// source.
pub open spec fn option_item_at<T>(src: Option<Seq<T>>, i: int) -> Option<T> {
    match src {
        Some(s) => if 0 <= i < s.len() {
            Some(s[i])
        } else {
            None
        },
        None => None,
    }
}

/// Where the cursor of an adapter stands after `steps` production steps over
/// a sequence of length `len`: it advances once per step until the sequence
/// is exhausted and stays put afterwards.
pub open spec fn cursor_index(len: nat, steps: nat) -> int {
    if steps <= len {
        steps as int
    } else {
        len as int
    }
}

/// A sequence wrapped element-wise in `Some`.
pub open spec fn wrap_some<T>(s: Seq<T>) -> Seq<Option<T>> {
    s.map_values(|x: T| Some(x))
}

/// The values of the first `k` production steps of a source, as a sequence.
pub open spec fn option_outputs_prefix<T>(src: Option<Seq<T>>, k: nat) -> Seq<Option<T>> {
    Seq::new(k, |i: int| option_item_at(src, i))
}

/// Law: a present source of length `n` produces exactly
/// `Some(S[0]), ..., Some(S[n-1])` over its first `n` steps, and `None` at
/// the step right after.
pub proof fn lemma_present_prefix<T>(s: Seq<T>)
    ensures
        option_outputs_prefix(Some(s), s.len()) == wrap_some(s),
        option_item_at(Some(s), s.len() as int) is None,
{
    assert(option_outputs_prefix(Some(s), s.len()) =~= wrap_some(s));
}

/// Law: an absent source produces `None` at every one of its first `k`
/// steps, however large `k` is.
pub proof fn lemma_absent_prefix<T>(k: nat)
    ensures
        forall|i: int| 0 <= i < k ==> option_outputs_prefix(None::<Seq<T>>, k)[i] is None,
{
}

/// Law: materializing a present wrapper yields exactly one item per wrapped
/// element, whatever the element type.
pub proof fn lemma_materialize_present_len<T>(v: Vec<T>, r: Vec<Option<T>>)
    requires
        Some(v).materialize_ens(r),
    ensures
        r@.len() == v@.len(),
{
}

/// Adapter produced by calling [`IterTranspose::transpose_into_iter`] on an
/// `Option` of a sequence.
///
/// Its discriminant is fixed at construction: an adapter built from a present
/// wrapper stays engaged for its whole lifetime and only its cursor advances,
/// while one built from an absent wrapper stays disengaged forever. Each call
/// of [`next`](Self::next) is one production step; the sequence of steps
/// never ends, so a consumer that needs a finite result applies
/// [`take_while_some`](Self::take_while_some) or
/// [`unwrap_while_some`](Self::unwrap_while_some).
pub struct OptionTransposedIter<T> {
    inner: Option<Vec<T>>,
    full: Ghost<Seq<T>>,
    taken: Ghost<nat>,
}

impl<T> OptionTransposedIter<T> {
    /// The originally wrapped sequence (`Some`) or the absent sentinel
    /// (`None`). Fixed at construction; no production step changes it.
    pub closed spec fn source(self) -> Option<Seq<T>> {
        match self.inner {
            Some(_) => Some(self.full@),
            None => None,
        }
    }

    /// How many production steps have been taken so far.
    pub closed spec fn steps(self) -> nat {
        self.taken@
    }

    /// Internal consistency: what is left to walk is exactly the source's
    /// tail from the cursor on.
    pub closed spec fn wf(self) -> bool {
        match self.inner {
            Some(v) => v@ == self.full@.skip(cursor_index(self.full@.len(), self.taken@)),
            None => true,
        }
    }

    /// One production step: returns `Some` of the next element while the
    /// present source still has one, and `None` at every step thereafter as
    /// well as at every step of an absent source. Never fails and never
    /// blocks, however often it is called.
    pub fn next(&mut self) -> (r: Option<T>)
        requires
            old(self).wf(),
        ensures
            final(self).wf(),
            final(self).source() == old(self).source(),
            final(self).steps() == old(self).steps() + 1,
            r == option_item_at(old(self).source(), old(self).steps() as int),
    {
        let ghost s = self.full@;
        let ghost k = self.taken@;
        let r = match &mut self.inner {
            None => None,
            Some(v) => {
                if v.len() > 0 {
                    let x = v.remove(0);
                    proof {
                        assert(s.skip(k as int).remove(0) =~= s.skip(k as int + 1));
                    }
                    Some(x)
                } else {
                    proof {
                        assert(s.skip(cursor_index(s.len(), k)).len() == 0);
                        assert(v@ =~= s.skip(s.len() as int));
                    }
                    None
                }
            },
        };
        self.taken = Ghost(self.taken@ + 1);
        r
    }

    /// Truncation combinator: produces every remaining item up to, and not
    /// including, the first `None`, still wrapped in `Some`. This is what
    /// turns the conceptually infinite step sequence back into a finite one
    /// matching the cardinality of the wrapped sequence; an adapter built
    /// from an absent wrapper yields an empty collection.
    #[verifier::loop_isolation(false)]
    pub fn take_while_some(self) -> (r: Vec<Option<T>>)
        requires
            self.wf(),
        ensures
            match self.source() {
                Some(s) => r@ == wrap_some(s.skip(cursor_index(s.len(), self.steps()))),
                None => r@ == Seq::<Option<T>>::empty(),
            },
    {
        match self.inner {
            None => Vec::new(),
            Some(mut v) => {
                let ghost g = v@;
                let mut out: Vec<Option<T>> = Vec::new();
                while v.len() > 0
                    invariant
                        out@.len() + v@.len() == g.len(),
                        v@ == g.skip(out@.len() as int),
                        out@ == wrap_some(g.take(out@.len() as int)),
                    decreases v@.len(),
                {
                    let ghost k = out@.len() as int;
                    let x = v.remove(0);
                    out.push(Some(x));
                    proof {
                        assert(v@ =~= g.skip(k + 1));
                        assert(out@ =~= wrap_some(g.take(k + 1)));
                    }
                }
                proof {
                    assert(g.take(g.len() as int) =~= g);
                }
                out
            },
        }
    }

    /// Unwrapping truncation combinator: like
    /// [`take_while_some`](Self::take_while_some), but strips the `Some`
    /// wrapper from every yielded item, which is safe because truncation
    /// guarantees that no `None` item is ever unwrapped.
    #[verifier::loop_isolation(false)]
    pub fn unwrap_while_some(self) -> (r: Vec<T>)
        requires
            self.wf(),
        ensures
            match self.source() {
                Some(s) => r@ == s.skip(cursor_index(s.len(), self.steps())),
                None => r@ == Seq::<T>::empty(),
            },
    {
        match self.inner {
            None => Vec::new(),
            Some(mut v) => {
                let ghost g = v@;
                let mut out: Vec<T> = Vec::new();
                while v.len() > 0
                    invariant
                        out@.len() + v@.len() == g.len(),
                        v@ == g.skip(out@.len() as int),
                        out@ == g.take(out@.len() as int),
                    decreases v@.len(),
                {
                    let ghost k = out@.len() as int;
                    let x = v.remove(0);
                    out.push(x);
                    proof {
                        assert(v@ =~= g.skip(k + 1));
                        assert(out@ =~= g.take(k + 1));
                    }
                }
                proof {
                    assert(g.take(g.len() as int) =~= g);
                }
                out
            },
        }
    }
}

impl<T> IterTranspose for Option<Vec<T>> {
    type Iter = OptionTransposedIter<T>;

    type Materialized = Vec<Option<T>>;

    open spec fn iter_ens(self, r: OptionTransposedIter<T>) -> bool {
        &&& r.wf()
        &&& r.steps() == 0
        &&& r.source() == match self {
            Some(v) => Some(v@),
            None => None::<Seq<T>>,
        }
    }

    open spec fn materialize_ens(self, r: Vec<Option<T>>) -> bool {
        r@ == match self {
            Some(v) => wrap_some(v@),
            None => Seq::<Option<T>>::empty(),
        }
    }

    fn transpose_into_iter(self) -> (r: OptionTransposedIter<T>) {
        match self {
            Some(v) => {
                let ghost f = v@;
                let it = OptionTransposedIter { inner: Some(v), full: Ghost(f), taken: Ghost(0) };
                proof {
                    assert(f.skip(0) =~= f);
                }
                it
            },
            None => OptionTransposedIter { inner: None, full: Ghost(Seq::empty()), taken: Ghost(0) },
        }
    }

    fn transpose_into_vec(self) -> (r: Vec<Option<T>>) {
        let ghost w = self;
        let it = self.transpose_into_iter();
        let out = it.take_while_some();
        proof {
            match w {
                Some(v) => {
                    assert(v@.skip(0) =~= v@);
                },
                None => {},
            }
        }
        out
    }
}

impl<'a, T> IterTranspose for Option<&'a Vec<T>> {
    type Iter = OptionTransposedIter<&'a T>;

    type Materialized = Vec<Option<&'a T>>;

    open spec fn iter_ens(self, r: OptionTransposedIter<&'a T>) -> bool {
        &&& r.wf()
        &&& r.steps() == 0
        &&& match self {
            Some(v) => r.source() matches Some(s) && s.len() == v@.len() && (forall|i: int|
                0 <= i < s.len() ==> *s[i] == v@[i]),
            None => r.source() is None,
        }
    }

    open spec fn materialize_ens(self, r: Vec<Option<&'a T>>) -> bool {
        match self {
            Some(v) => r@.len() == v@.len() && (forall|i: int|
                0 <= i < r@.len() ==> (#[trigger] r@[i] matches Some(p) && *p == v@[i])),
            None => r@ == Seq::<Option<&'a T>>::empty(),
        }
    }

    fn transpose_into_iter(self) -> (r: OptionTransposedIter<&'a T>) {
        match self {
            None => OptionTransposedIter { inner: None, full: Ghost(Seq::empty()), taken: Ghost(0) },
            Some(v) => {
                let mut items: Vec<&'a T> = Vec::new();
                let mut i: usize = 0;
                while i < v.len()
                    invariant
                        i <= v@.len(),
                        items@.len() == i,
                        forall|j: int| 0 <= j < i ==> *items@[j] == v@[j],
                    decreases v@.len() - i,
                {
                    items.push(&v[i]);
                    i = i + 1;
                }
                let ghost f = items@;
                let it = OptionTransposedIter { inner: Some(items), full: Ghost(f), taken: Ghost(0) };
                proof {
                    assert(f.skip(0) =~= f);
                }
                it
            },
        }
    }

    fn transpose_into_vec(self) -> (r: Vec<Option<&'a T>>) {
        let ghost w = self;
        let it = self.transpose_into_iter();
        let ghost src = it.source();
        let out = it.take_while_some();
        proof {
            match w {
                Some(v) => {
                    let s = src.unwrap();
                    assert(s.skip(0) =~= s);
                    assert forall|i: int| 0 <= i < out@.len() implies (#[trigger] out@[i]) matches Some(
                        p,
                    ) && *p == v@[i] by {
                        assert(out@[i] == Some(s[i]));
                    }
                },
                None => {},
            }
        }
        out
    }
}

} // verus!
