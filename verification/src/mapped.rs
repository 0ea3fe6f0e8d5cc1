//! A sequence whose elements are passed through a function as they are
//! pulled.
use vstd::prelude::*;
use crate::sequence::{back_of, front_of, DoubleEndedSequence, ExactSizeSequence, Sequence};

verus! {

/// `f` accepts every argument, and whatever it returns on `x` is `g(x)`.
pub open spec fn models<A, B, F: FnMut(A) -> B>(f: F, g: spec_fn(A) -> B) -> bool {
    &&& forall|x: A| call_requires(f, (x,))
    &&& forall|x: A, y: B| call_ensures(f, (x,), y) ==> y == g(x)
}

/// `f` accepts every argument, and its contract leaves one result for each.
pub open spec fn is_function<A, B, F: FnMut(A) -> B>(f: F) -> bool {
    &&& forall|x: A| call_requires(f, (x,))
    &&& forall|x: A, y1: B, y2: B|
        call_ensures(f, (x,), y1) && call_ensures(f, (x,), y2) ==> y1 == y2
}

/// The result of `f` on `x`, as far as the contract of `f` leaves one.
pub open spec fn applied<A, B, F: FnMut(A) -> B>(f: F, x: A) -> B {
    choose|y: B| call_ensures(f, (x,), y)
}

/// The function that takes each `x` to the result of `f` on it.
pub open spec fn applied_fn<A, B, F: FnMut(A) -> B>(f: F) -> spec_fn(A) -> B {
    |x: A| applied(f, x)
}

/// A function is modelled by its own results.
pub proof fn lemma_applied_models<A, B, F: FnMut(A) -> B>(f: F)
    requires
        is_function(f),
    ensures
        models(f, applied_fn(f)),
{
}

/// The elements of `iter`, each passed through `f` at the moment it is
/// pulled.
pub struct Mapped<I: Sequence, B, F> {
    /// The sequence whose elements are passed through.
    pub iter: I,
    /// The function.
    pub f: F,
    /// What `f` computes.
    pub model: Ghost<spec_fn(I::Item) -> B>,
}

impl<B, I: Sequence, F: FnMut(I::Item) -> B> Mapped<I, B, F> {
    /// The elements of `iter`, passed through `f`.
    pub fn new(iter: I, f: F) -> (r: Self)
        requires
            iter.wf(),
            is_function(f),
        ensures
            r == (Mapped { iter, f, model: Ghost(applied_fn(f)) }),
            r.wf(),
    {
        Mapped { iter, f, model: Ghost(applied_fn(f)) }
    }

    /// The elements of `iter`, passed through `f`, which computes `model`.
    pub fn with_model(iter: I, f: F, model: Ghost<spec_fn(I::Item) -> B>) -> (r: Self)
        requires
            iter.wf(),
            models(f, model@),
        ensures
            r == (Mapped { iter, f, model }),
            r.wf(),
    {
        Mapped { iter, f, model }
    }
}

impl<B, I: Sequence, F: FnMut(I::Item) -> B> Sequence for Mapped<I, B, F> {
    type Item = B;

    open spec fn wf(&self) -> bool {
        &&& self.iter.wf()
        &&& models(self.f, self.model@)
    }

    open spec fn remaining(&self) -> Seq<B> {
        self.iter.remaining().map_values(self.model@)
    }

    open spec fn bounds(&self) -> (usize, Option<usize>) {
        self.iter.bounds()
    }

    proof fn lemma_bounds(&self) {
        self.iter.lemma_bounds();
    }

    fn next(&mut self) -> (r: Option<B>)
        ensures
            final(self).wf(),
            r == front_of(old(self).remaining()),
            r is Some ==> final(self).remaining() == old(self).remaining().drop_first(),
            final(self).f == old(self).f,
            final(self).model == old(self).model,
    {
        match self.iter.next() {
            Some(x) => {
                let y = (self.f)(x);
                assert(self.remaining() =~= old(self).remaining().drop_first());
                Some(y)
            },
            None => None,
        }
    }

    fn size_hint(&self) -> (r: (usize, Option<usize>))
        ensures
            r == self.bounds(),
    {
        self.iter.size_hint()
    }
}

impl<B, I: DoubleEndedSequence, F: FnMut(I::Item) -> B> DoubleEndedSequence for Mapped<I, B, F> {
    fn next_back(&mut self) -> (r: Option<B>)
        ensures
            final(self).wf(),
            r == back_of(old(self).remaining()),
            r is Some ==> final(self).remaining() == old(self).remaining().drop_last(),
            final(self).f == old(self).f,
            final(self).model == old(self).model,
    {
        match self.iter.next_back() {
            Some(x) => {
                let y = (self.f)(x);
                assert(self.remaining() =~= old(self).remaining().drop_last());
                Some(y)
            },
            None => None,
        }
    }
}

impl<B, I: ExactSizeSequence, F: FnMut(I::Item) -> B> ExactSizeSequence for Mapped<I, B, F> {
    proof fn lemma_exact(&self) {
        self.iter.lemma_exact();
    }
}

impl<B, I: Sequence + Clone, F: Clone> Clone for Mapped<I, B, F> {
    /// Clones the sequence and the function; what the function computes
    /// stays as it is.
    fn clone(&self) -> (r: Self)
        ensures
            cloned(self.iter, r.iter),
            cloned(self.f, r.f),
            r.model == self.model,
    {
        Mapped { iter: self.iter.clone(), f: self.f.clone(), model: self.model }
    }
}

} // verus!
