//! Slices as lazy sequences of references to their elements.
use vstd::prelude::*;
use crate::sequence::{
    after_back, after_front, back_of, front_of, DoubleEndedSequence, ExactSizeSequence,
    IntoSequence, Sequence,
};

verus! {

/// The elements of a slice, handed out by reference.
#[derive(Debug)]
pub struct SliceIter<'a, T> {
    /// The slice.
    pub data: &'a [T],
    /// Index of the first element not yet handed out.
    pub front: usize,
    /// One more than the index of the last element not yet handed out.
    pub back: usize,
}

impl<'a, T> SliceIter<'a, T> {
    /// The sequence of references to all elements of `data`.
    pub fn new(data: &'a [T]) -> (r: Self)
        ensures
            r == data.sequence(),
            r.wf(),
            r.remaining() == data@.map_values(|x: T| &x),
    {
        let r = SliceIter { data, front: 0, back: data.len() };
        assert(r.remaining() =~= data@.map_values(|x: T| &x));
        r
    }
}

impl<'a, T> Sequence for SliceIter<'a, T> {
    type Item = &'a T;

    open spec fn wf(&self) -> bool {
        self.front <= self.back <= self.data@.len()
    }

    open spec fn remaining(&self) -> Seq<&'a T> {
        self.data@.subrange(self.front as int, self.back as int).map_values(|x: T| &x)
    }

    open spec fn bounds(&self) -> (usize, Option<usize>) {
        ((self.back - self.front) as usize, Some((self.back - self.front) as usize))
    }

    proof fn lemma_bounds(&self) {
    }

    fn next(&mut self) -> (r: Option<&'a T>)
        ensures
            final(self).wf(),
            r == front_of(old(self).remaining()),
            final(self).remaining() == after_front(old(self).remaining()),
    {
        if self.front < self.back {
            let x = &self.data[self.front];
            self.front = self.front + 1;
            assert(self.remaining() =~= old(self).remaining().drop_first());
            Some(x)
        } else {
            None
        }
    }

    fn size_hint(&self) -> (r: (usize, Option<usize>))
        ensures
            r == self.bounds(),
            r == (self.remaining().len() as usize, Some(self.remaining().len() as usize)),
    {
        let n = self.back - self.front;
        (n, Some(n))
    }
}

impl<'a, T> DoubleEndedSequence for SliceIter<'a, T> {
    fn next_back(&mut self) -> (r: Option<&'a T>)
        ensures
            final(self).wf(),
            r == back_of(old(self).remaining()),
            final(self).remaining() == after_back(old(self).remaining()),
    {
        if self.front < self.back {
            self.back = self.back - 1;
            let x = &self.data[self.back];
            assert(self.remaining() =~= old(self).remaining().drop_last());
            Some(x)
        } else {
            None
        }
    }
}

impl<'a, T> ExactSizeSequence for SliceIter<'a, T> {
    proof fn lemma_exact(&self) {
    }
}

impl<'a, T> IntoSequence for &'a [T] {
    type Item = &'a T;

    type IntoSeq = SliceIter<'a, T>;

    open spec fn convertible(&self) -> bool {
        true
    }

    open spec fn sequence(self) -> SliceIter<'a, T> {
        SliceIter { data: self, front: 0, back: self@.len() as usize }
    }

    fn into_sequence(self) -> (s: SliceIter<'a, T>) {
        SliceIter::new(self)
    }
}

impl<'a, T> Clone for SliceIter<'a, T> {
    /// Copies the reference and the two indices.
    fn clone(&self) -> (r: Self)
        ensures
            r == *self,
    {
        SliceIter { data: self.data, front: self.front, back: self.back }
    }
}

} // verus!
