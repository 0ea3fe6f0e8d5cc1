//! Flattening of the sequences that a function makes of the elements of an
//! outer sequence.
use vstd::prelude::*;
use crate::flatten_base::{
    flat_elements, fresh_bounds, lemma_flat_index, ConstSizeFlattenBase,
};
use crate::mapped::{applied_fn, is_function, models, Mapped};
use crate::pulls::{
    after_pull, after_pulls, back_pulls, front_pulls, lemma_pulls_exhaust,
    lemma_pulls_partition, pulled,
};
use crate::sequence::{
    after_back, after_front, back_of, exact_bounds, front_of, DoubleEndedSequence,
    ExactSizeSequence, IntoSequence, Sequence,
};
use crate::ConstSizeIntoIterator;

verus! {

/// The elements of the sequences that a function makes of the elements of an
/// outer sequence, one inner sequence after the other.
///
/// The function is applied to an outer element at the moment that element is
/// pulled, from either end. Every inner sequence has the same known
/// length, so the bounds that `size_hint` reports follow from the bounds of
/// the outer sequence, and are exact where those of the outer and inner
/// sequences are. No exact length is offered beyond that: the number of
/// remaining elements may exceed `usize::MAX`.
pub struct ConstSizeFlatMap<I: Sequence, U: IntoSequence, F> {
    /// The state of the flattening, over the outer sequence passed through
    /// the function.
    pub inner: ConstSizeFlattenBase<Mapped<I, U, F>, U::IntoSeq>,
}

/// The elements that `g` makes of `items`: for each item, the elements of the
/// sequence that the result of `g` on it converts into.
pub open spec fn flat_map_elements<A, U: IntoSequence>(items: Seq<A>, g: spec_fn(A) -> U) -> Seq<
    U::Item,
> {
    items.flat_map(|x: A| g(x).sequence().remaining())
}

/// Flattening the results of `g` on `items` gives what `g` makes of `items`.
pub proof fn lemma_flat_of_mapped<A, U: IntoSequence>(items: Seq<A>, g: spec_fn(A) -> U)
    ensures
        flat_elements(items.map_values(g)) == flat_map_elements(items, g),
{
    let h = |y: U| y.sequence().remaining();
    let gh = |x: A| g(x).sequence().remaining();
    assert(items.map_values(g).map_values(h) =~= items.map_values(gh));
}

/// What `g` makes of each item stands together and in the order of the
/// items: element `j` of what `g` makes of item `i` is element
/// `i * U::SIZE + j` of the whole.
pub proof fn lemma_flat_map_index<A, U: ConstSizeIntoIterator>(
    items: Seq<A>,
    g: spec_fn(A) -> U,
    i: int,
    j: int,
)
    requires
        0 <= i < items.len(),
        0 <= j < U::SIZE,
    ensures
        0 <= i * U::SIZE + j < flat_map_elements(items, g).len(),
        flat_map_elements(items, g)[i * U::SIZE + j] == g(items[i]).sequence().remaining()[j],
{
    lemma_flat_of_mapped(items, g);
    lemma_flat_index(items.map_values(g), i, j);
}

impl<I, U, F> ConstSizeFlatMap<I, U, F> where
    I: Sequence,
    U: ConstSizeIntoIterator,
    F: FnMut(I::Item) -> U,
 {
    /// The flattening of what `f` makes of `iter`, before anything was
    /// pulled, where `f` computes `model`.
    pub open spec fn fresh(iter: I, f: F, model: spec_fn(I::Item) -> U) -> Self {
        ConstSizeFlatMap {
            inner: ConstSizeFlattenBase::fresh(Mapped { iter, f, model: Ghost(model) }),
        }
    }

    /// Flattens what `f` makes of the elements of what `iter` converts into.
    pub fn new<J: IntoSequence<IntoSeq = I>>(iter: J, f: F) -> (r: Self)
        requires
            iter.convertible(),
            is_function(f),
        ensures
            r == Self::fresh(iter.sequence(), f, applied_fn(f)),
            r.wf(),
            r.remaining() == flat_map_elements(iter.sequence().remaining(), applied_fn(f)),
            r.bounds() == fresh_bounds(iter.sequence().bounds(), U::SIZE),
    {
        let r = ConstSizeFlatMap {
            inner: ConstSizeFlattenBase::new(Mapped::new(iter.into_sequence(), f)),
        };
        proof {
            lemma_flat_of_mapped(iter.sequence().remaining(), applied_fn(f));
        }
        r
    }

    /// Flattens what `f` makes of the elements of what `iter` converts into,
    /// for an `f` that is known to compute `model`.
    pub fn with_model<J: IntoSequence<IntoSeq = I>>(
        iter: J,
        f: F,
        model: Ghost<spec_fn(I::Item) -> U>,
    ) -> (r: Self)
        requires
            iter.convertible(),
            models(f, model@),
        ensures
            r == Self::fresh(iter.sequence(), f, model@),
            r.wf(),
            r.remaining() == flat_map_elements(iter.sequence().remaining(), model@),
            r.bounds() == fresh_bounds(iter.sequence().bounds(), U::SIZE),
    {
        let r = ConstSizeFlatMap {
            inner: ConstSizeFlattenBase::new(Mapped::with_model(iter.into_sequence(), f, model)),
        };
        proof {
            lemma_flat_of_mapped(iter.sequence().remaining(), model@);
        }
        r
    }

    /// Before anything was pulled, a flattening holds what the function
    /// makes of the elements of the outer sequence, element after element:
    /// `SIZE` elements for each.
    pub proof fn lemma_fresh(iter: I, f: F, model: spec_fn(I::Item) -> U)
        ensures
            Self::fresh(iter, f, model).wf() == (iter.wf() && models(f, model)),
            Self::fresh(iter, f, model).remaining() == flat_map_elements(iter.remaining(), model),
            Self::fresh(iter, f, model).remaining().len() == iter.remaining().len() * U::SIZE,
    {
        ConstSizeFlattenBase::<Mapped<I, U, F>, U::IntoSeq>::lemma_fresh(
            Mapped { iter, f, model: Ghost(model) },
        );
        lemma_flat_of_mapped(iter.remaining(), model);
    }

    /// An empty outer sequence, and inner sequences of length 0, flatten to
    /// nothing, whatever the other of the two lengths is: a pull from either
    /// end then produces no element.
    pub proof fn lemma_fresh_nothing(iter: I, f: F, model: spec_fn(I::Item) -> U)
        requires
            iter.remaining().len() == 0 || U::SIZE == 0,
        ensures
            Self::fresh(iter, f, model).remaining().len() == 0,
            front_of(Self::fresh(iter, f, model).remaining()) is None,
            back_of(Self::fresh(iter, f, model).remaining()) is None,
    {
        Self::lemma_fresh(iter, f, model);
        let n = iter.remaining().len();
        let m = U::SIZE;
        assert(n * m == 0) by (nonlinear_arith)
            requires
                n == 0 || m == 0,
        ;
    }

    /// Pulls from a flattening of what the function makes of `iter`, in any
    /// order of directions and at least as many as it has elements, produce
    /// `SIZE` elements for each element of `iter`: the elements of the
    /// flattening, each once.
    pub proof fn lemma_fresh_pulls(iter: I, f: F, model: spec_fn(I::Item) -> U, dirs: Seq<bool>)
        requires
            dirs.len() >= iter.remaining().len() * U::SIZE,
        ensures
            after_pulls(Self::fresh(iter, f, model).remaining(), dirs).len() == 0,
            front_pulls(Self::fresh(iter, f, model).remaining(), dirs).len() + back_pulls(
                Self::fresh(iter, f, model).remaining(),
                dirs,
            ).len() == iter.remaining().len() * U::SIZE,
            front_pulls(Self::fresh(iter, f, model).remaining(), dirs) + back_pulls(
                Self::fresh(iter, f, model).remaining(),
                dirs,
            ).reverse() == flat_map_elements(iter.remaining(), model),
    {
        Self::lemma_fresh(iter, f, model);
        lemma_pulls_exhaust(Self::fresh(iter, f, model).remaining(), dirs);
    }
}

impl<I, U, F> ConstSizeFlatMap<I, U, F> where
    I: ExactSizeSequence,
    U: ConstSizeIntoIterator,
    U::IntoSeq: ExactSizeSequence,
    F: FnMut(I::Item) -> U,
 {
    /// Where the outer and the inner sequences report their lengths exactly,
    /// the flattening reports the exact number of remaining elements, in
    /// every valid state; where that number does not fit in a `usize`, it
    /// reports `usize::MAX` as the lower bound and no upper bound.
    pub proof fn lemma_exact_bounds(&self)
        requires
            self.wf(),
        ensures
            self.bounds() == exact_bounds(self.remaining().len() as int),
    {
        self.inner.lemma_exact_bounds();
    }

    /// Before anything was pulled, the flattening of what the function makes
    /// of an outer sequence of `n` elements reports `n * SIZE` remaining
    /// elements.
    pub proof fn lemma_fresh_bounds(iter: I, f: F, model: spec_fn(I::Item) -> U)
        requires
            iter.wf(),
            models(f, model),
        ensures
            Self::fresh(iter, f, model).bounds() == exact_bounds(
                iter.remaining().len() * U::SIZE,
            ),
    {
        Self::lemma_fresh(iter, f, model);
        Self::fresh(iter, f, model).lemma_exact_bounds();
    }

    /// Pulls in any order of directions make the reported number of
    /// remaining elements one less each, down to 0, where it stays. This is
    /// stated of lengths that fit in a `usize`.
    pub proof fn lemma_report_after_pulls(pre: Self, post: Self, dirs: Seq<bool>)
        requires
            pre.wf(),
            post.wf(),
            post.remaining() == after_pulls(pre.remaining(), dirs),
            pre.remaining().len() <= usize::MAX,
        ensures
            pre.bounds() == exact_bounds(pre.remaining().len() as int),
            post.bounds() == exact_bounds(
                if dirs.len() <= pre.remaining().len() {
                    pre.remaining().len() - dirs.len()
                } else {
                    0
                },
            ),
    {
        lemma_pulls_partition(pre.remaining(), dirs);
        pre.lemma_exact_bounds();
        post.lemma_exact_bounds();
    }

    /// A pull from either end makes the reported number of remaining elements
    /// one less, as long as there is an element; after that, pulls from
    /// either end produce nothing and the reported number stays 0. This is
    /// stated of lengths that fit in a `usize`.
    pub proof fn lemma_report_after_pull(pre: Self, post: Self, back: bool)
        requires
            pre.wf(),
            post.wf(),
            post.remaining() == after_pull(pre.remaining(), back),
            pre.remaining().len() <= usize::MAX,
        ensures
            pre.bounds() == (pre.remaining().len() as usize, Some(pre.remaining().len() as usize)),
            pre.remaining().len() > 0 ==> {
                &&& pulled(pre.remaining(), back) is Some
                &&& post.bounds() == (
                    (pre.bounds().0 - 1) as usize,
                    Some((pre.bounds().0 - 1) as usize),
                )
            },
            pre.remaining().len() == 0 ==> {
                &&& pulled(pre.remaining(), back) is None
                &&& pulled(post.remaining(), true) is None
                &&& pulled(post.remaining(), false) is None
                &&& post.bounds() == (0usize, Some(0usize))
            },
    {
        pre.lemma_exact_bounds();
        post.lemma_exact_bounds();
    }
}

/// Flattens what `f` makes of the elements of what `iter` converts into: the
/// result produces the elements that `f` makes of the first outer element,
/// then those of the second, and so on.
pub fn const_size_flat_map<I, U, F>(iter: I, f: F) -> (r: ConstSizeFlatMap<I::IntoSeq, U, F>) where
    I: IntoSequence,
    U: ConstSizeIntoIterator,
    F: FnMut(I::Item) -> U,

    requires
        iter.convertible(),
        is_function(f),
    ensures
        r == ConstSizeFlatMap::fresh(iter.sequence(), f, applied_fn(f)),
        r.wf(),
        r.remaining() == flat_map_elements(iter.sequence().remaining(), applied_fn(f)),
        r.bounds() == fresh_bounds(iter.sequence().bounds(), U::SIZE),
{
    ConstSizeFlatMap::new(iter, f)
}

impl<I, U, F> Sequence for ConstSizeFlatMap<I, U, F> where
    I: Sequence,
    F: FnMut(I::Item) -> U,
    U: ConstSizeIntoIterator,
 {
    type Item = U::Item;

    open spec fn wf(&self) -> bool {
        self.inner.wf()
    }

    open spec fn remaining(&self) -> Seq<U::Item> {
        self.inner.remaining()
    }

    open spec fn bounds(&self) -> (usize, Option<usize>) {
        self.inner.bounds()
    }

    proof fn lemma_bounds(&self) {
        self.inner.lemma_bounds();
    }

    fn next(&mut self) -> (r: Option<U::Item>)
        ensures
            final(self).wf(),
            r == front_of(old(self).remaining()),
            final(self).remaining() == after_front(old(self).remaining()),
            r is None ==> final(self).inner.exhausted(),
    {
        self.inner.next()
    }

    fn size_hint(&self) -> (r: (usize, Option<usize>))
        ensures
            r == self.bounds(),
    {
        self.inner.size_hint()
    }
}

impl<I, U, F> DoubleEndedSequence for ConstSizeFlatMap<I, U, F> where
    I: DoubleEndedSequence,
    F: FnMut(I::Item) -> U,
    U: ConstSizeIntoIterator,
    U::IntoSeq: DoubleEndedSequence,
 {
    fn next_back(&mut self) -> (r: Option<U::Item>)
        ensures
            final(self).wf(),
            r == back_of(old(self).remaining()),
            final(self).remaining() == after_back(old(self).remaining()),
            r is None ==> final(self).inner.exhausted(),
    {
        self.inner.next_back()
    }
}

impl<I, U, F> Clone for ConstSizeFlatMap<I, U, F> where
    I: Sequence + Clone,
    F: Clone,
    U: IntoSequence,
    U::IntoSeq: Clone,
 {
    /// Clones the state of the flattening.
    fn clone(&self) -> (r: Self)
        ensures
            cloned(self.inner, r.inner),
    {
        ConstSizeFlatMap { inner: self.inner.clone() }
    }
}

} // verus!
