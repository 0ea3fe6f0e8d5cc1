//! Fixed-length arrays as lazy sequences: an array of length `N`, owned or
//! borrowed, converts into a sequence of exactly `N` elements.
use vstd::array::{array_len_matches_n, axiom_spec_array_as_slice, spec_array_as_slice};
use vstd::prelude::*;
use crate::sequence::{
    after_back, after_front, back_of, front_of, DoubleEndedSequence, ExactSizeSequence,
    IntoSequence, Sequence,
};
use crate::slice::SliceIter;
use crate::ConstSizeIntoIterator;

verus! {

/// The elements of an owned array, handed out by value.
#[derive(Debug)]
pub struct ArrayIter<T, const N: usize> {
    /// The array.
    pub data: [T; N],
    /// Index of the first element not yet handed out.
    pub front: usize,
    /// One more than the index of the last element not yet handed out.
    pub back: usize,
}

impl<T: Copy, const N: usize> ArrayIter<T, N> {
    /// The sequence of all elements of `data`.
    pub fn new(data: [T; N]) -> (r: Self)
        ensures
            r == data.sequence(),
            r.wf(),
            r.remaining() == data@,
    {
        let r = ArrayIter { data, front: 0, back: N };
        assert(r.remaining() =~= data@);
        r
    }
}

impl<T: Copy, const N: usize> Sequence for ArrayIter<T, N> {
    type Item = T;

    open spec fn wf(&self) -> bool {
        self.front <= self.back <= N
    }

    open spec fn remaining(&self) -> Seq<T> {
        self.data@.subrange(self.front as int, self.back as int)
    }

    open spec fn bounds(&self) -> (usize, Option<usize>) {
        ((self.back - self.front) as usize, Some((self.back - self.front) as usize))
    }

    proof fn lemma_bounds(&self) {
    }

    fn next(&mut self) -> (r: Option<T>)
        ensures
            final(self).wf(),
            r == front_of(old(self).remaining()),
            final(self).remaining() == after_front(old(self).remaining()),
    {
        if self.front < self.back {
            let x = self.data[self.front];
            self.front = self.front + 1;
            assert(self.remaining() =~= old(self).remaining().drop_first());
            Some(x)
        } else {
            None
        }
    }

    fn size_hint(&self) -> (r: (usize, Option<usize>))
        ensures
            r == self.bounds(),
            r == (self.remaining().len() as usize, Some(self.remaining().len() as usize)),
    {
        let n = self.back - self.front;
        (n, Some(n))
    }
}

impl<T: Copy, const N: usize> DoubleEndedSequence for ArrayIter<T, N> {
    fn next_back(&mut self) -> (r: Option<T>)
        ensures
            final(self).wf(),
            r == back_of(old(self).remaining()),
            final(self).remaining() == after_back(old(self).remaining()),
    {
        if self.front < self.back {
            self.back = self.back - 1;
            let x = self.data[self.back];
            assert(self.remaining() =~= old(self).remaining().drop_last());
            Some(x)
        } else {
            None
        }
    }
}

impl<T: Copy, const N: usize> ExactSizeSequence for ArrayIter<T, N> {
    proof fn lemma_exact(&self) {
    }
}

impl<T: Copy, const N: usize> IntoSequence for [T; N] {
    type Item = T;

    type IntoSeq = ArrayIter<T, N>;

    open spec fn convertible(&self) -> bool {
        true
    }

    open spec fn sequence(self) -> ArrayIter<T, N> {
        ArrayIter { data: self, front: 0, back: N }
    }

    fn into_sequence(self) -> (s: ArrayIter<T, N>)
        ensures
            s.remaining() == self@,
    {
        ArrayIter::new(self)
    }
}

impl<T: Copy, const N: usize> ConstSizeIntoIterator for [T; N] {
    const SIZE: usize = N;

    proof fn lemma_convertible(self) {
    }

    proof fn lemma_const_size(self)
        ensures
            Self::SIZE == N,
    {
    }
}

/// A borrowed array converts as the slice of its elements does.
impl<'a, T, const N: usize> IntoSequence for &'a [T; N] {
    type Item = &'a T;

    type IntoSeq = SliceIter<'a, T>;

    open spec fn convertible(&self) -> bool {
        true
    }

    open spec fn sequence(self) -> SliceIter<'a, T> {
        SliceIter { data: spec_array_as_slice(self), front: 0, back: N }
    }

    fn into_sequence(self) -> (s: SliceIter<'a, T>)
        ensures
            s.remaining() == self@.map_values(|x: T| &x),
    {
        broadcast use {axiom_spec_array_as_slice, array_len_matches_n};

        let data: &'a [T] = self;
        SliceIter::new(data)
    }
}

impl<'a, T, const N: usize> ConstSizeIntoIterator for &'a [T; N] {
    const SIZE: usize = N;

    proof fn lemma_convertible(self) {
    }

    proof fn lemma_const_size(self)
        ensures
            Self::SIZE == N,
    {
        broadcast use {axiom_spec_array_as_slice, array_len_matches_n};

    }
}

impl<T: Copy, const N: usize> Clone for ArrayIter<T, N> {
    /// Copies the array and the two indices.
    fn clone(&self) -> (r: Self)
        ensures
            r == *self,
    {
        ArrayIter { data: self.data, front: self.front, back: self.back }
    }
}

} // verus!
