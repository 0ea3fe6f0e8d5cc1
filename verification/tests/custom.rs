// Sequences written outside the library. The members of the library's traits
// that exist for proofs only (`wf`, `remaining`, `bounds`, `convertible`,
// `sequence` and the lemmas) are never run.
use const_size_flatten::array::ArrayIter;
use const_size_flatten::flatten_base::ConstSizeFlattenBase;
use const_size_flatten::fuse::Fuse;
use const_size_flatten::sequence::{DoubleEndedSequence, IntoSequence, Sequence};
use const_size_flatten::{const_size_flatten, ConstSizeIntoIterator};
use std::collections::VecDeque;

/// Produces its items, signals the end, and then starts over.
#[derive(Clone)]
struct Restarting<T> {
    items: Vec<T>,
    left: VecDeque<T>,
}

impl<T: Clone> Restarting<T> {
    fn new(items: Vec<T>) -> Self {
        Restarting { left: items.clone().into(), items }
    }
}

impl<T: Clone> Sequence for Restarting<T> {
    type Item = T;

    fn wf(&self) -> bool {
        unreachable!()
    }

    fn remaining(&self) -> vstd::seq::Seq<T> {
        unreachable!()
    }

    fn bounds(&self) -> (usize, Option<usize>) {
        unreachable!()
    }

    fn lemma_bounds(&self) {
        unreachable!()
    }

    fn next(&mut self) -> Option<T> {
        let x = self.left.pop_front();
        if x.is_none() {
            self.left = self.items.clone().into();
        }
        x
    }

    fn size_hint(&self) -> (usize, Option<usize>) {
        (self.left.len(), Some(self.left.len()))
    }
}

impl<T: Clone> DoubleEndedSequence for Restarting<T> {
    fn next_back(&mut self) -> Option<T> {
        let x = self.left.pop_back();
        if x.is_none() {
            self.left = self.items.clone().into();
        }
        x
    }
}

/// Converts into a restarting sequence of `n` and `n + 10`.
#[derive(Clone, Copy)]
struct Again(u8);

impl IntoSequence for Again {
    type Item = u8;

    type IntoSeq = Restarting<u8>;

    fn convertible(&self) -> bool {
        unreachable!()
    }

    fn sequence(self) -> Restarting<u8> {
        unreachable!()
    }

    fn into_sequence(self) -> Restarting<u8> {
        Restarting::new(vec![self.0, self.0 + 10])
    }
}

impl ConstSizeIntoIterator for Again {
    const SIZE: usize = 2;

    fn lemma_convertible(self) {
        unreachable!()
    }

    fn lemma_const_size(self) {
        unreachable!()
    }
}

/// Produces `count` copies of `value` and reports the bounds `lo`, as far as
/// that many are left, and `hi`.
struct Loose<T> {
    value: T,
    count: usize,
    lo: usize,
    hi: Option<usize>,
}

impl<T: Clone> Loose<T> {
    /// A sequence with the given bounds, which holds as many elements as its
    /// upper bound says or, without one, as its lower bound says.
    fn new(value: T, bounds: (usize, Option<usize>)) -> Self {
        Loose { value, count: bounds.1.unwrap_or(bounds.0), lo: bounds.0, hi: bounds.1 }
    }
}

impl<T: Clone> Sequence for Loose<T> {
    type Item = T;

    fn wf(&self) -> bool {
        unreachable!()
    }

    fn remaining(&self) -> vstd::seq::Seq<T> {
        unreachable!()
    }

    fn bounds(&self) -> (usize, Option<usize>) {
        unreachable!()
    }

    fn lemma_bounds(&self) {
        unreachable!()
    }

    fn next(&mut self) -> Option<T> {
        if self.count == 0 {
            None
        } else {
            self.count -= 1;
            self.lo = self.lo.min(self.count);
            Some(self.value.clone())
        }
    }

    fn size_hint(&self) -> (usize, Option<usize>) {
        (self.lo, self.hi)
    }
}

/// Converts into a sequence of three copies of its number, which reports no
/// more than that it has at least one element.
#[derive(Clone)]
struct Triple(u8);

impl IntoSequence for Triple {
    type Item = u8;

    type IntoSeq = Loose<u8>;

    fn convertible(&self) -> bool {
        unreachable!()
    }

    fn sequence(self) -> Loose<u8> {
        unreachable!()
    }

    fn into_sequence(self) -> Loose<u8> {
        Loose { value: self.0, count: 3, lo: 1, hi: None }
    }
}

impl ConstSizeIntoIterator for Triple {
    const SIZE: usize = 3;

    fn lemma_convertible(self) {
        unreachable!()
    }

    fn lemma_const_size(self) {
        unreachable!()
    }
}

/// The state of a flattening of `Triple`s whose parts report the given
/// bounds.
fn state(
    outer: (usize, Option<usize>),
    front: Option<(usize, Option<usize>)>,
    back: Option<(usize, Option<usize>)>,
) -> ConstSizeFlattenBase<Loose<Triple>, Loose<u8>> {
    ConstSizeFlattenBase {
        base_iter: Fuse { iter: Some(Loose::new(Triple(0), outer)) },
        front_sub_iter: front.map(|bounds| Loose::new(0, bounds)),
        back_sub_iter: back.map(|bounds| Loose::new(0, bounds)),
    }
}

#[test]
fn fuse_makes_the_end_permanent() {
    let mut plain = Restarting::new(vec![1u8]);
    assert_eq!(plain.next(), Some(1));
    assert_eq!(plain.next(), None);
    assert_eq!(plain.next(), Some(1));
    let mut fused = Fuse::new(Restarting::new(vec![1u8]));
    assert_eq!(fused.size_hint(), (1, Some(1)));
    assert_eq!(fused.next(), Some(1));
    assert_eq!(fused.next(), None);
    assert_eq!(fused.next(), None);
    assert_eq!(fused.next_back(), None);
    assert_eq!(fused.size_hint(), (0, Some(0)));
}

#[test]
fn flattening_stays_ended_over_an_outer_sequence_that_starts_over() {
    let mut flat = const_size_flatten(Restarting::new(vec![[1u8, 2], [3, 4]]));
    assert_eq!(flat.next(), Some(1));
    assert_eq!(flat.next_back(), Some(4));
    assert_eq!(flat.next(), Some(2));
    assert_eq!(flat.next(), Some(3));
    for _ in 0..3 {
        assert_eq!(flat.next(), None);
        assert_eq!(flat.next_back(), None);
        assert_eq!(flat.size_hint(), (0, Some(0)));
    }
}

#[test]
fn an_inner_sequence_that_has_ended_is_not_asked_again() {
    let mut flat = const_size_flatten(ArrayIter::new([Again(1), Again(2)]));
    assert_eq!(flat.next(), Some(1));
    assert_eq!(flat.next(), Some(11));
    assert_eq!(flat.next(), Some(2));
    assert_eq!(flat.next(), Some(12));
    for _ in 0..3 {
        assert_eq!(flat.next(), None);
        assert_eq!(flat.next_back(), None);
    }
    let mut flat = const_size_flatten(ArrayIter::new([Again(1), Again(2)]));
    assert_eq!(flat.next_back(), Some(12));
    assert_eq!(flat.next(), Some(1));
    assert_eq!(flat.next(), Some(11));
    // The front has ended and the outer sequence is empty: the back is next.
    assert_eq!(flat.next(), Some(2));
    for _ in 0..3 {
        assert_eq!(flat.next(), None);
        assert_eq!(flat.next_back(), None);
    }
    let mut flat = const_size_flatten(ArrayIter::new([Again(1), Again(2)]));
    assert_eq!(flat.next(), Some(1));
    assert_eq!(flat.next_back(), Some(12));
    assert_eq!(flat.next_back(), Some(2));
    // The back has ended and the outer sequence is empty: the front is next.
    assert_eq!(flat.next_back(), Some(11));
    for _ in 0..3 {
        assert_eq!(flat.next_back(), None);
        assert_eq!(flat.next(), None);
    }
}

#[test]
fn lower_bound_is_the_saturating_sum_of_the_lower_bounds() {
    assert_eq!(state((0, None), None, None).min_size(), 0);
    assert_eq!(state((4, None), None, None).min_size(), 12);
    assert_eq!(state((2, Some(5)), Some((1, Some(2))), None).min_size(), 2 * 3 + 1);
    assert_eq!(state((2, None), Some((1, None)), Some((4, None))).min_size(), 2 * 3 + 1 + 4);
    assert_eq!(state((0, None), None, Some((9, None))).min_size(), 9);
    let max = usize::MAX;
    assert_eq!(state((max, None), None, None).min_size(), max);
    assert_eq!(state((max / 3 + 1, None), None, None).min_size(), max);
    assert_eq!(state((max / 3, None), None, None).min_size(), max);
    assert_eq!(state((max / 3 - 1, None), Some((2, None)), Some((1, None))).min_size(), max);
    assert_eq!(state((max / 3 - 1, None), Some((2, None)), Some((2, None))).min_size(), max);
    assert_eq!(state((1, None), Some((max - 3, None)), Some((1, None))).min_size(), max);
    assert_eq!(state((1, None), Some((1, None)), Some((max - 3, None))).min_size(), max);
    assert_eq!(state((1, None), Some((1, None)), Some((max - 5, None))).min_size(), max - 1);
}

#[test]
fn upper_bound_is_the_checked_sum_of_the_upper_bounds() {
    assert_eq!(state((0, Some(0)), None, None).max_size(), Some(0));
    assert_eq!(state((0, Some(4)), None, None).max_size(), Some(12));
    assert_eq!(state((2, Some(5)), Some((1, Some(2))), None).max_size(), Some(5 * 3 + 2));
    assert_eq!(
        state((0, Some(5)), Some((0, Some(2))), Some((0, Some(7)))).max_size(),
        Some(5 * 3 + 2 + 7)
    );
    let max = usize::MAX;
    assert_eq!(state((0, Some(max / 3)), None, None).max_size(), Some(max));
    assert_eq!(
        state((0, Some(1)), Some((0, Some(1))), Some((0, Some(max - 4)))).max_size(),
        Some(max)
    );
}

#[test]
fn upper_bound_is_unknown_where_one_of_the_parts_has_none() {
    assert_eq!(state((2, None), None, None).max_size(), None);
    assert_eq!(state((2, Some(5)), Some((1, None)), None).max_size(), None);
    assert_eq!(state((2, Some(5)), None, Some((1, None))).max_size(), None);
    assert_eq!(state((2, Some(5)), Some((1, Some(1))), Some((1, None))).max_size(), None);
    // The lower bound is still reported.
    assert_eq!(state((2, None), Some((1, None)), Some((1, None))).size_hint(), (8, None));
}

#[test]
fn upper_bound_is_unknown_where_the_sum_does_not_fit() {
    let max = usize::MAX;
    assert_eq!(state((0, Some(max / 3 + 1)), None, None).max_size(), None);
    assert_eq!(state((0, Some(max)), None, None).max_size(), None);
    assert_eq!(state((0, Some(max / 3)), Some((0, Some(1))), None).max_size(), None);
    assert_eq!(state((0, Some(max / 3)), None, Some((0, Some(1)))).max_size(), None);
    assert_eq!(
        state((0, Some(1)), Some((0, Some(1))), Some((0, Some(max - 3)))).max_size(),
        None
    );
    assert_eq!(state((0, Some(0)), Some((0, Some(max))), Some((0, Some(1)))).max_size(), None);
    assert_eq!(state((7, Some(max)), None, None).size_hint(), (21, None));
}

#[test]
fn bounds_of_a_flattening_of_loosely_bounded_parts() {
    let outer = Loose { value: Triple(7), count: 2, lo: 1, hi: Some(4) };
    let mut flat = const_size_flatten(outer);
    assert_eq!(flat.size_hint(), (3, Some(12)));
    assert_eq!(flat.next(), Some(7));
    // One outer element was taken, and the inner sequence at the front
    // reports at least one element and no upper bound.
    assert_eq!(flat.size_hint(), (3 + 1, None));
    for _ in 0..5 {
        assert_eq!(flat.next(), Some(7));
    }
    // Nothing is left, but the inner sequence at the front has not said so.
    assert_eq!(flat.size_hint(), (0, None));
    assert_eq!(flat.next(), None);
    assert_eq!(flat.size_hint(), (0, Some(0)));
}
