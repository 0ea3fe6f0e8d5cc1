//! The flattening engine: the state machine behind both adapters, and the
//! arithmetic of its bounds.
use vstd::prelude::*;
use crate::fuse::Fuse;
use crate::sequence::{
    after_back, after_front, back_of, checked, exact_bounds, front_of, saturated,
    DoubleEndedSequence, ExactSizeSequence, IntoSequence, Sequence,
};
use crate::ConstSizeIntoIterator;

verus! {

/// `usize::saturating_mul` of the standard library, taken on trust: it
/// returns the product of `x` and `y`, or `usize::MAX` where the product does
/// not fit in a `usize`.
pub assume_specification[ usize::saturating_mul ](x: usize, y: usize) -> (r: usize)
    ensures
        r == saturated(x * y),
;

/// The elements of all the sequences that `items` convert into, one
/// sequence after the other.
pub open spec fn flat_elements<T: IntoSequence>(items: Seq<T>) -> Seq<T::Item> {
    items.flat_map(|x: T| x.sequence().remaining())
}

/// The elements that an edge sequence still holds: none where there is no
/// edge sequence.
pub open spec fn edge_elements<U: Sequence>(edge: Option<U>) -> Seq<U::Item> {
    match edge {
        Some(it) => it.remaining(),
        None => Seq::empty(),
    }
}

/// The bounds of an edge sequence: zero where there is no edge sequence.
pub open spec fn edge_bounds<U: Sequence>(edge: Option<U>) -> (usize, Option<usize>) {
    match edge {
        Some(it) => it.bounds(),
        None => (0, Some(0)),
    }
}

/// The lower bound of a flattened sequence: `outer` inner sequences of `size`
/// elements each and the lower bounds of the two edge sequences, clamped to
/// the largest `usize`.
pub open spec fn min_total(outer: usize, size: usize, front: usize, back: usize) -> usize {
    saturated(outer * size + front + back)
}

/// The upper bound of a flattened sequence: known where the upper bounds of
/// the outer sequence and of both edge sequences are known and the total
/// fits in a `usize`.
pub open spec fn max_total(
    outer: Option<usize>,
    size: usize,
    front: Option<usize>,
    back: Option<usize>,
) -> Option<usize> {
    match (outer, front, back) {
        (Some(o), Some(f), Some(b)) => checked(o * size + f + b),
        _ => None,
    }
}

/// The bounds of a flattening before anything was pulled: those of the outer
/// sequence, `outer`, taken `size` times.
pub open spec fn fresh_bounds(outer: (usize, Option<usize>), size: usize) -> (
    usize,
    Option<usize>,
) {
    (min_total(outer.0, size, 0, 0), max_total(outer.1, size, Some(0), Some(0)))
}

/// A non-empty sequence of items flattens to the elements of its first item
/// followed by the rest, flattened.
pub proof fn lemma_flat_front<T: IntoSequence>(items: Seq<T>)
    requires
        items.len() > 0,
    ensures
        flat_elements(items) == items.first().sequence().remaining() + flat_elements(
            items.drop_first(),
        ),
{
    let f = |x: T| x.sequence().remaining();
    assert(items.map_values(f).drop_first() =~= items.drop_first().map_values(f));
}

/// A non-empty sequence of items flattens to all but the last item,
/// flattened, followed by the elements of the last item.
pub proof fn lemma_flat_back<T: IntoSequence>(items: Seq<T>)
    requires
        items.len() > 0,
    ensures
        flat_elements(items) == flat_elements(items.drop_last())
            + items.last().sequence().remaining(),
{
    let f = |x: T| x.sequence().remaining();
    let mapped = items.map_values(f);
    assert(mapped.drop_last() =~= items.drop_last().map_values(f));
    assert(mapped.drop_last().push(mapped.last()) =~= mapped);
    mapped.drop_last().lemma_flatten_push(mapped.last());
}

/// Items that convert into `T::SIZE` elements each flatten to `T::SIZE`
/// elements for every item.
pub proof fn lemma_flat_len<T: ConstSizeIntoIterator>(items: Seq<T>)
    ensures
        flat_elements(items).len() == items.len() * T::SIZE,
    decreases items.len(),
{
    if items.len() > 0 {
        lemma_flat_front(items);
        items.first().lemma_const_size();
        lemma_flat_len(items.drop_first());
        assert(T::SIZE + (items.len() - 1) * T::SIZE == items.len() * T::SIZE)
            by (nonlinear_arith);
    } else {
        assert(items.len() * T::SIZE == 0) by (nonlinear_arith)
            requires
                items.len() == 0,
        ;
    }
}

/// The elements of each item stand together and in the order of the items:
/// element `j` of item `i` is element `i * T::SIZE + j` of the flattening.
pub proof fn lemma_flat_index<T: ConstSizeIntoIterator>(items: Seq<T>, i: int, j: int)
    requires
        0 <= i < items.len(),
        0 <= j < T::SIZE,
    ensures
        0 <= i * T::SIZE + j < flat_elements(items).len(),
        flat_elements(items)[i * T::SIZE + j] == items[i].sequence().remaining()[j],
    decreases items.len(),
{
    lemma_flat_front(items);
    lemma_flat_len(items);
    lemma_flat_len(items.drop_first());
    items.first().lemma_const_size();
    if i == 0 {
        assert(i * T::SIZE == 0) by (nonlinear_arith)
            requires
                i == 0,
        ;
    } else {
        lemma_flat_index(items.drop_first(), i - 1, j);
        assert((i - 1) * T::SIZE + T::SIZE == i * T::SIZE) by (nonlinear_arith);
        assert((i - 1) * T::SIZE >= 0) by (nonlinear_arith)
            requires
                i >= 1,
        ;
    }
}

/// Applies `f` to the value that `opt` holds, if it holds one, and empties
/// `opt` if `f` returns `None`.
pub fn and_then_or_clear<T, U, F: FnOnce(&mut T) -> Option<U>>(opt: &mut Option<T>, f: F) -> (r:
    Option<U>)
    requires
        forall|t: &mut T| *old(opt) == Some(*t) ==> call_requires(f, (t,)),
    ensures
        *old(opt) is None ==> r is None && *final(opt) is None,
        *old(opt) matches Some(v) ==> exists|t: &mut T|
            {
                &&& *t == v
                &&& #[trigger] call_ensures(f, (t,), r)
                &&& *final(opt) == (if r is Some {
                    Some(*final(t))
                } else {
                    None
                })
            },
{
    match opt {
        None => None,
        Some(t) => {
            let x = f(t);
            if x.is_none() {
                *opt = None;
            }
            x
        },
    }
}

/// The state of a flattening: what is left of the outer sequence, and the
/// inner sequences that are being consumed at the front and at the back.
#[derive(Debug)]
pub struct ConstSizeFlattenBase<I, U> {
    /// The outer sequence, whose end is made permanent.
    pub base_iter: Fuse<I>,
    /// The inner sequence that pulls from the front are taken from.
    pub front_sub_iter: Option<U>,
    /// The inner sequence that pulls from the back are taken from.
    pub back_sub_iter: Option<U>,
}

impl<I, U> ConstSizeFlattenBase<I, U> {
    /// The final state: the outer sequence has signalled its end and was
    /// dropped, and no edge sequence is held.
    pub open spec fn exhausted(&self) -> bool {
        &&& self.base_iter.iter is None
        &&& self.front_sub_iter is None
        &&& self.back_sub_iter is None
    }
}

impl<I, U> ConstSizeFlattenBase<I, U> where
    I: Sequence,
    I::Item: ConstSizeIntoIterator<IntoSeq = U>,
    U: Sequence<Item = <I::Item as IntoSequence>::Item>,
 {
    /// The state before anything was pulled from `iter`.
    pub open spec fn fresh(iter: I) -> Self {
        ConstSizeFlattenBase {
            base_iter: Fuse { iter: Some(iter) },
            front_sub_iter: None,
            back_sub_iter: None,
        }
    }

    /// Starts a flattening of what `iter` converts into.
    pub fn new<J: IntoSequence<IntoSeq = I>>(iter: J) -> (r: Self)
        requires
            iter.convertible(),
        ensures
            r == Self::fresh(iter.sequence()),
            r.wf(),
            r.remaining() == flat_elements(iter.sequence().remaining()),
            r.bounds() == fresh_bounds(
                iter.sequence().bounds(),
                <I::Item as ConstSizeIntoIterator>::SIZE,
            ),
    {
        let r = ConstSizeFlattenBase {
            base_iter: Fuse::new(iter.into_sequence()),
            front_sub_iter: None,
            back_sub_iter: None,
        };
        assert(r.remaining() =~= flat_elements(iter.sequence().remaining()));
        r
    }

    /// The number of remaining elements: `SIZE` for every element left in
    /// the outer sequence, and what the two edge sequences hold.
    pub proof fn lemma_remaining_len(&self)
        ensures
            self.remaining().len() == self.base_iter.remaining().len() * <
                I::Item as ConstSizeIntoIterator
            >::SIZE + edge_elements(self.front_sub_iter).len() + edge_elements(
                self.back_sub_iter,
            ).len(),
    {
        lemma_flat_len(self.base_iter.remaining());
    }

    /// Before anything was pulled there are `SIZE` elements for every
    /// element of the outer sequence: those of its items, in order.
    pub proof fn lemma_fresh(iter: I)
        ensures
            Self::fresh(iter).wf() == iter.wf(),
            Self::fresh(iter).remaining() == flat_elements(iter.remaining()),
            Self::fresh(iter).remaining().len() == iter.remaining().len() * <
                I::Item as ConstSizeIntoIterator
            >::SIZE,
            Self::fresh(iter).bounds() == fresh_bounds(
                iter.bounds(),
                <I::Item as ConstSizeIntoIterator>::SIZE,
            ),
    {
        lemma_flat_len(iter.remaining());
        assert(Self::fresh(iter).remaining() =~= flat_elements(iter.remaining()));
    }

    /// The upper bound on the number of remaining elements, where one is
    /// known and fits in a `usize`.
    pub fn max_size(&self) -> (r: Option<usize>)
        requires
            self.wf(),
        ensures
            r == max_total(
                self.base_iter.bounds().1,
                <I::Item as ConstSizeIntoIterator>::SIZE,
                edge_bounds(self.front_sub_iter).1,
                edge_bounds(self.back_sub_iter).1,
            ),
            r == self.bounds().1,
    {
        let base_iter_max_size = self.base_iter.size_hint().1?;
        let inner_iter_len = <I::Item as ConstSizeIntoIterator>::SIZE;
        let front_sub_iter_max_size = match &self.front_sub_iter {
            Some(it) => it.size_hint().1,
            None => Some(0),
        }?;
        let back_sub_iter_max_size = match &self.back_sub_iter {
            Some(it) => it.size_hint().1,
            None => Some(0),
        }?;
        base_iter_max_size.checked_mul(inner_iter_len)?.checked_add(
            front_sub_iter_max_size,
        )?.checked_add(back_sub_iter_max_size)
    }

    /// The lower bound on the number of remaining elements, clamped to the
    /// largest `usize`.
    pub fn min_size(&self) -> (r: usize)
        requires
            self.wf(),
        ensures
            r == min_total(
                self.base_iter.bounds().0,
                <I::Item as ConstSizeIntoIterator>::SIZE,
                edge_bounds(self.front_sub_iter).0,
                edge_bounds(self.back_sub_iter).0,
            ),
            r == self.bounds().0,
    {
        let base_iter_min_size = self.base_iter.size_hint().0;
        let inner_iter_len = <I::Item as ConstSizeIntoIterator>::SIZE;
        let front_sub_iter_min_size = match &self.front_sub_iter {
            Some(it) => it.size_hint().0,
            None => 0,
        };
        let back_sub_iter_min_size = match &self.back_sub_iter {
            Some(it) => it.size_hint().0,
            None => 0,
        };
        base_iter_min_size.saturating_mul(inner_iter_len).saturating_add(
            front_sub_iter_min_size,
        ).saturating_add(back_sub_iter_min_size)
    }
}

impl<I, U> Sequence for ConstSizeFlattenBase<I, U> where
    I: Sequence,
    I::Item: ConstSizeIntoIterator<IntoSeq = U>,
    U: Sequence<Item = <I::Item as IntoSequence>::Item>,
 {
    type Item = U::Item;

    open spec fn wf(&self) -> bool {
        &&& self.base_iter.wf()
        &&& self.front_sub_iter matches Some(it) ==> it.wf()
        &&& self.back_sub_iter matches Some(it) ==> it.wf()
    }

    open spec fn remaining(&self) -> Seq<U::Item> {
        edge_elements(self.front_sub_iter) + flat_elements(self.base_iter.remaining())
            + edge_elements(self.back_sub_iter)
    }

    open spec fn bounds(&self) -> (usize, Option<usize>) {
        (
            min_total(
                self.base_iter.bounds().0,
                <I::Item as ConstSizeIntoIterator>::SIZE,
                edge_bounds(self.front_sub_iter).0,
                edge_bounds(self.back_sub_iter).0,
            ),
            max_total(
                self.base_iter.bounds().1,
                <I::Item as ConstSizeIntoIterator>::SIZE,
                edge_bounds(self.front_sub_iter).1,
                edge_bounds(self.back_sub_iter).1,
            ),
        )
    }

    proof fn lemma_bounds(&self) {
        let size = <I::Item as ConstSizeIntoIterator>::SIZE;
        let outer = self.base_iter.remaining().len();
        self.lemma_remaining_len();
        self.base_iter.lemma_bounds();
        if let Some(it) = self.front_sub_iter {
            it.lemma_bounds();
        }
        if let Some(it) = self.back_sub_iter {
            it.lemma_bounds();
        }
        let lo = self.base_iter.bounds().0;
        assert(lo * size <= outer * size) by (nonlinear_arith)
            requires
                lo <= outer,
        ;
        if let Some(hi) = self.base_iter.bounds().1 {
            assert(outer * size <= hi * size) by (nonlinear_arith)
                requires
                    outer <= hi,
            ;
        }
    }

    fn next(&mut self) -> (r: Option<U::Item>)
        ensures
            final(self).wf(),
            r == front_of(old(self).remaining()),
            final(self).remaining() == after_front(old(self).remaining()),
            r is None ==> final(self).exhausted(),
            final(self).base_iter.iter is Some ==> final(self).back_sub_iter == old(
                self,
            ).back_sub_iter,
    {
        loop
            invariant
                self.wf(),
                self.remaining() == old(self).remaining(),
                self.back_sub_iter == old(self).back_sub_iter,
            decreases self.base_iter.remaining().len(),
        {
            let next = and_then_or_clear(&mut self.front_sub_iter, U::next);
            if next.is_some() {
                assert(self.remaining() =~= old(self).remaining().drop_first());
                return next;
            }
            assert(self.remaining() =~= old(self).remaining());
            let ghost outer = self.base_iter.remaining();
            match self.base_iter.next() {
                None => {
                    let last = and_then_or_clear(&mut self.back_sub_iter, U::next);
                    assert(self.remaining() =~= after_front(old(self).remaining()));
                    return last;
                },
                Some(next) => {
                    proof {
                        next.lemma_convertible();
                        lemma_flat_front(outer);
                    }
                    self.front_sub_iter = Some(next.into_sequence());
                    assert(self.remaining() =~= old(self).remaining());
                },
            }
        }
    }

    fn size_hint(&self) -> (r: (usize, Option<usize>))
        ensures
            r == self.bounds(),
    {
        (self.min_size(), self.max_size())
    }
}

impl<I, U> DoubleEndedSequence for ConstSizeFlattenBase<I, U> where
    I: DoubleEndedSequence,
    I::Item: ConstSizeIntoIterator<IntoSeq = U>,
    U: DoubleEndedSequence<Item = <I::Item as IntoSequence>::Item>,
 {
    fn next_back(&mut self) -> (r: Option<U::Item>)
        ensures
            final(self).wf(),
            r == back_of(old(self).remaining()),
            final(self).remaining() == after_back(old(self).remaining()),
            r is None ==> final(self).exhausted(),
            final(self).base_iter.iter is Some ==> final(self).front_sub_iter == old(
                self,
            ).front_sub_iter,
    {
        loop
            invariant
                self.wf(),
                self.remaining() == old(self).remaining(),
                self.front_sub_iter == old(self).front_sub_iter,
            decreases self.base_iter.remaining().len(),
        {
            let next = and_then_or_clear(&mut self.back_sub_iter, U::next_back);
            if next.is_some() {
                assert(self.remaining() =~= old(self).remaining().drop_last());
                return next;
            }
            assert(self.remaining() =~= old(self).remaining());
            let ghost outer = self.base_iter.remaining();
            match self.base_iter.next_back() {
                None => {
                    let first = and_then_or_clear(&mut self.front_sub_iter, U::next_back);
                    assert(self.remaining() =~= after_back(old(self).remaining()));
                    return first;
                },
                Some(next) => {
                    proof {
                        next.lemma_convertible();
                        lemma_flat_back(outer);
                    }
                    self.back_sub_iter = Some(next.into_sequence());
                    assert(self.remaining() =~= old(self).remaining());
                },
            }
        }
    }
}

impl<I, U> ConstSizeFlattenBase<I, U> where
    I: ExactSizeSequence,
    I::Item: ConstSizeIntoIterator<IntoSeq = U>,
    U: ExactSizeSequence<Item = <I::Item as IntoSequence>::Item>,
 {
    /// Where the outer and the inner sequences report their lengths exactly,
    /// the flattening reports the exact number of remaining elements, in
    /// every valid state; where that number does not fit in a `usize`, it
    /// reports `usize::MAX` as the lower bound and no upper bound.
    pub proof fn lemma_exact_bounds(&self)
        requires
            self.wf(),
        ensures
            self.bounds() == exact_bounds(self.remaining().len() as int),
    {
        self.lemma_remaining_len();
        self.base_iter.lemma_exact();
        if let Some(it) = self.front_sub_iter {
            it.lemma_exact();
        }
        if let Some(it) = self.back_sub_iter {
            it.lemma_exact();
        }
    }
}

impl<I: Clone, U: Clone> Clone for ConstSizeFlattenBase<I, U> {
    /// Clones the outer sequence and both edge sequences.
    fn clone(&self) -> (r: Self)
        ensures
            cloned(self.base_iter, r.base_iter),
            cloned(self.front_sub_iter, r.front_sub_iter),
            cloned(self.back_sub_iter, r.back_sub_iter),
    {
        ConstSizeFlattenBase {
            base_iter: self.base_iter.clone(),
            front_sub_iter: self.front_sub_iter.clone(),
            back_sub_iter: self.back_sub_iter.clone(),
        }
    }
}

} // verus!
