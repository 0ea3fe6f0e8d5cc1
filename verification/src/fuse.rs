//! A wrapper that makes the end of a sequence permanent.
use vstd::prelude::*;
use crate::flatten_base::and_then_or_clear;
use crate::sequence::{
    after_back, after_front, back_of, front_of, DoubleEndedSequence, ExactSizeSequence, Sequence,
};

verus! {

/// A sequence that, once `iter` has signalled that it has no more elements,
/// drops it and produces nothing from then on.
#[derive(Debug)]
pub struct Fuse<I> {
    /// The wrapped sequence, until it has signalled its end.
    pub iter: Option<I>,
}

impl<I: Sequence> Fuse<I> {
    /// Wraps `iter`, which has not signalled its end.
    pub fn new(iter: I) -> (r: Self)
        requires
            iter.wf(),
        ensures
            r == (Fuse { iter: Some(iter) }),
            r.wf(),
    {
        Fuse { iter: Some(iter) }
    }
}

impl<I: Sequence> Sequence for Fuse<I> {
    type Item = I::Item;

    open spec fn wf(&self) -> bool {
        self.iter matches Some(i) ==> i.wf()
    }

    open spec fn remaining(&self) -> Seq<I::Item> {
        match self.iter {
            Some(i) => i.remaining(),
            None => Seq::empty(),
        }
    }

    open spec fn bounds(&self) -> (usize, Option<usize>) {
        match self.iter {
            Some(i) => i.bounds(),
            None => (0, Some(0)),
        }
    }

    proof fn lemma_bounds(&self) {
        if let Some(i) = self.iter {
            i.lemma_bounds();
        }
    }

    fn next(&mut self) -> (r: Option<I::Item>)
        ensures
            final(self).wf(),
            r == front_of(old(self).remaining()),
            final(self).remaining() == after_front(old(self).remaining()),
            r is None ==> final(self).iter is None,
    {
        and_then_or_clear(&mut self.iter, I::next)
    }

    fn size_hint(&self) -> (r: (usize, Option<usize>))
        ensures
            r == self.bounds(),
    {
        match &self.iter {
            Some(i) => i.size_hint(),
            None => (0, Some(0)),
        }
    }
}

impl<I: DoubleEndedSequence> DoubleEndedSequence for Fuse<I> {
    fn next_back(&mut self) -> (r: Option<I::Item>)
        ensures
            final(self).wf(),
            r == back_of(old(self).remaining()),
            final(self).remaining() == after_back(old(self).remaining()),
            r is None ==> final(self).iter is None,
    {
        and_then_or_clear(&mut self.iter, I::next_back)
    }
}

impl<I: ExactSizeSequence> ExactSizeSequence for Fuse<I> {
    proof fn lemma_exact(&self) {
        if let Some(i) = self.iter {
            i.lemma_exact();
        }
    }
}

impl<I: Clone> Clone for Fuse<I> {
    /// Clones the wrapped sequence, if it is still held.
    fn clone(&self) -> (r: Self)
        ensures
            cloned(self.iter, r.iter),
    {
        Fuse { iter: self.iter.clone() }
    }
}

} // verus!
