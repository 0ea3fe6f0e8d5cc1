//! Flattening of a sequence whose elements convert into sequences of one
//! fixed length.
use vstd::prelude::*;
use crate::flatten_base::{flat_elements, fresh_bounds, ConstSizeFlattenBase};
use crate::pulls::{
    after_pull, after_pulls, back_pulls, front_pulls, lemma_pulls_exhaust,
    lemma_pulls_partition, pulled,
};
use crate::sequence::{
    after_back, after_front, back_of, exact_bounds, front_of, DoubleEndedSequence,
    ExactSizeSequence, IntoSequence, Sequence,
};
use crate::ConstSizeIntoIterator;

verus! {

/// The elements of the sequences that the elements of an outer sequence
/// convert into, one inner sequence after the other.
///
/// Every inner sequence has the same known length, so the bounds that
/// `size_hint` reports follow from the bounds of the outer sequence, and are
/// exact where those of the outer and inner sequences are. No exact length is
/// offered beyond that: the number of remaining elements may exceed
/// `usize::MAX`.
pub struct ConstSizeFlatten<I> where I: Sequence, I::Item: IntoSequence {
    /// The state of the flattening.
    pub inner: ConstSizeFlattenBase<I, <I::Item as IntoSequence>::IntoSeq>,
}

impl<I> ConstSizeFlatten<I> where I: Sequence, I::Item: ConstSizeIntoIterator {
    /// The flattening of `iter` before anything was pulled.
    pub open spec fn fresh(iter: I) -> Self {
        ConstSizeFlatten { inner: ConstSizeFlattenBase::fresh(iter) }
    }

    /// Flattens what `iter` converts into.
    pub fn new<U: IntoSequence<IntoSeq = I>>(iter: U) -> (r: Self)
        requires
            iter.convertible(),
        ensures
            r == Self::fresh(iter.sequence()),
            r.wf(),
            r.remaining() == flat_elements(iter.sequence().remaining()),
            r.bounds() == fresh_bounds(
                iter.sequence().bounds(),
                <I::Item as ConstSizeIntoIterator>::SIZE,
            ),
    {
        ConstSizeFlatten { inner: ConstSizeFlattenBase::new(iter) }
    }

    /// Before anything was pulled, a flattening holds the elements of the
    /// items of the outer sequence, item after item: `SIZE` elements for
    /// each.
    pub proof fn lemma_fresh(iter: I)
        ensures
            Self::fresh(iter).wf() == iter.wf(),
            Self::fresh(iter).remaining() == flat_elements(iter.remaining()),
            Self::fresh(iter).remaining().len() == iter.remaining().len() * <
                I::Item as ConstSizeIntoIterator
            >::SIZE,
    {
        ConstSizeFlattenBase::<I, <I::Item as IntoSequence>::IntoSeq>::lemma_fresh(iter);
    }

    /// An empty outer sequence, and inner sequences of length 0, flatten to
    /// nothing, whatever the other of the two lengths is: a pull from either
    /// end then produces no element.
    pub proof fn lemma_fresh_nothing(iter: I)
        requires
            iter.remaining().len() == 0 || <I::Item as ConstSizeIntoIterator>::SIZE == 0,
        ensures
            Self::fresh(iter).remaining().len() == 0,
            front_of(Self::fresh(iter).remaining()) is None,
            back_of(Self::fresh(iter).remaining()) is None,
    {
        Self::lemma_fresh(iter);
        let n = iter.remaining().len();
        let m = <I::Item as ConstSizeIntoIterator>::SIZE;
        assert(n * m == 0) by (nonlinear_arith)
            requires
                n == 0 || m == 0,
        ;
    }

    /// Pulls from a flattening of `iter`, in any order of directions and at
    /// least as many as it has elements, produce `SIZE` elements for each
    /// element of `iter`: the elements of the flattening, each once.
    pub proof fn lemma_fresh_pulls(iter: I, dirs: Seq<bool>)
        requires
            dirs.len() >= iter.remaining().len() * <I::Item as ConstSizeIntoIterator>::SIZE,
        ensures
            after_pulls(Self::fresh(iter).remaining(), dirs).len() == 0,
            front_pulls(Self::fresh(iter).remaining(), dirs).len() + back_pulls(
                Self::fresh(iter).remaining(),
                dirs,
            ).len() == iter.remaining().len() * <I::Item as ConstSizeIntoIterator>::SIZE,
            front_pulls(Self::fresh(iter).remaining(), dirs) + back_pulls(
                Self::fresh(iter).remaining(),
                dirs,
            ).reverse() == flat_elements(iter.remaining()),
    {
        Self::lemma_fresh(iter);
        lemma_pulls_exhaust(Self::fresh(iter).remaining(), dirs);
    }
}

impl<I> ConstSizeFlatten<I> where
    I: ExactSizeSequence,
    I::Item: ConstSizeIntoIterator,
    <I::Item as IntoSequence>::IntoSeq: ExactSizeSequence,
 {
    /// Where the outer and the inner sequences report their lengths exactly,
    /// the flattening reports the exact number of remaining elements, in
    /// every valid state; where that number does not fit in a `usize`, it
    /// reports `usize::MAX` as the lower bound and no upper bound.
    pub proof fn lemma_exact_bounds(&self)
        requires
            self.wf(),
        ensures
            self.bounds() == exact_bounds(self.remaining().len() as int),
    {
        self.inner.lemma_exact_bounds();
    }

    /// Before anything was pulled, the flattening of an outer sequence of
    /// `n` elements reports `n * SIZE` remaining elements.
    pub proof fn lemma_fresh_bounds(iter: I)
        requires
            iter.wf(),
        ensures
            Self::fresh(iter).bounds() == exact_bounds(
                iter.remaining().len() * <I::Item as ConstSizeIntoIterator>::SIZE,
            ),
    {
        Self::lemma_fresh(iter);
        Self::fresh(iter).lemma_exact_bounds();
    }

    /// Pulls in any order of directions make the reported number of
    /// remaining elements one less each, down to 0, where it stays. This is
    /// stated of lengths that fit in a `usize`.
    pub proof fn lemma_report_after_pulls(pre: Self, post: Self, dirs: Seq<bool>)
        requires
            pre.wf(),
            post.wf(),
            post.remaining() == after_pulls(pre.remaining(), dirs),
            pre.remaining().len() <= usize::MAX,
        ensures
            pre.bounds() == exact_bounds(pre.remaining().len() as int),
            post.bounds() == exact_bounds(
                if dirs.len() <= pre.remaining().len() {
                    pre.remaining().len() - dirs.len()
                } else {
                    0
                },
            ),
    {
        lemma_pulls_partition(pre.remaining(), dirs);
        pre.lemma_exact_bounds();
        post.lemma_exact_bounds();
    }

    /// A pull from either end makes the reported number of remaining elements
    /// one less, as long as there is an element; after that, pulls from
    /// either end produce nothing and the reported number stays 0. This is
    /// stated of lengths that fit in a `usize`.
    pub proof fn lemma_report_after_pull(pre: Self, post: Self, back: bool)
        requires
            pre.wf(),
            post.wf(),
            post.remaining() == after_pull(pre.remaining(), back),
            pre.remaining().len() <= usize::MAX,
        ensures
            pre.bounds() == (pre.remaining().len() as usize, Some(pre.remaining().len() as usize)),
            pre.remaining().len() > 0 ==> {
                &&& pulled(pre.remaining(), back) is Some
                &&& post.bounds() == (
                    (pre.bounds().0 - 1) as usize,
                    Some((pre.bounds().0 - 1) as usize),
                )
            },
            pre.remaining().len() == 0 ==> {
                &&& pulled(pre.remaining(), back) is None
                &&& pulled(post.remaining(), true) is None
                &&& pulled(post.remaining(), false) is None
                &&& post.bounds() == (0usize, Some(0usize))
            },
    {
        pre.lemma_exact_bounds();
        post.lemma_exact_bounds();
    }
}

/// Flattens what `iter` converts into: the result produces the elements of
/// the first inner sequence, then those of the second, and so on.
pub fn const_size_flatten<I>(iter: I) -> (r: ConstSizeFlatten<I::IntoSeq>) where
    I: IntoSequence,
    I::Item: ConstSizeIntoIterator,

    requires
        iter.convertible(),
    ensures
        r == ConstSizeFlatten::fresh(iter.sequence()),
        r.wf(),
        r.remaining() == flat_elements(iter.sequence().remaining()),
        r.bounds() == fresh_bounds(
            iter.sequence().bounds(),
            <I::Item as ConstSizeIntoIterator>::SIZE,
        ),
{
    ConstSizeFlatten::new(iter)
}

impl<I> Sequence for ConstSizeFlatten<I> where I: Sequence, I::Item: ConstSizeIntoIterator {
    type Item = <I::Item as IntoSequence>::Item;

    open spec fn wf(&self) -> bool {
        self.inner.wf()
    }

    open spec fn remaining(&self) -> Seq<Self::Item> {
        self.inner.remaining()
    }

    open spec fn bounds(&self) -> (usize, Option<usize>) {
        self.inner.bounds()
    }

    proof fn lemma_bounds(&self) {
        self.inner.lemma_bounds();
    }

    fn next(&mut self) -> (r: Option<Self::Item>)
        ensures
            final(self).wf(),
            r == front_of(old(self).remaining()),
            final(self).remaining() == after_front(old(self).remaining()),
            r is None ==> final(self).inner.exhausted(),
    {
        self.inner.next()
    }

    fn size_hint(&self) -> (r: (usize, Option<usize>))
        ensures
            r == self.bounds(),
    {
        self.inner.size_hint()
    }
}

impl<I> DoubleEndedSequence for ConstSizeFlatten<I> where
    I: DoubleEndedSequence,
    I::Item: ConstSizeIntoIterator,
    <I::Item as IntoSequence>::IntoSeq: DoubleEndedSequence,
 {
    fn next_back(&mut self) -> (r: Option<Self::Item>)
        ensures
            final(self).wf(),
            r == back_of(old(self).remaining()),
            final(self).remaining() == after_back(old(self).remaining()),
            r is None ==> final(self).inner.exhausted(),
    {
        self.inner.next_back()
    }
}

impl<I> Clone for ConstSizeFlatten<I> where
    I: Sequence + Clone,
    I::Item: IntoSequence,
    <I::Item as IntoSequence>::IntoSeq: Clone,
 {
    /// Clones the state of the flattening.
    fn clone(&self) -> (r: Self)
        ensures
            cloned(self.inner, r.inner),
    {
        ConstSizeFlatten { inner: self.inner.clone() }
    }
}

} // verus!
