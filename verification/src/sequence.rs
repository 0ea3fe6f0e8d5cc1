//! Lazy sequences: values that hand out their elements one at a time, from
//! the front or from the back, and that bound the number of elements left.
use vstd::prelude::*;

verus! {

/// What a pull from the front of `s` produces.
pub open spec fn front_of<T>(s: Seq<T>) -> Option<T> {
    if s.len() > 0 {
        Some(s.first())
    } else {
        None
    }
}

/// What a pull from the back of `s` produces.
pub open spec fn back_of<T>(s: Seq<T>) -> Option<T> {
    if s.len() > 0 {
        Some(s.last())
    } else {
        None
    }
}

/// What is left of `s` after a pull from the front.
pub open spec fn after_front<T>(s: Seq<T>) -> Seq<T> {
    if s.len() > 0 {
        s.drop_first()
    } else {
        s
    }
}

/// What is left of `s` after a pull from the back.
pub open spec fn after_back<T>(s: Seq<T>) -> Seq<T> {
    if s.len() > 0 {
        s.drop_last()
    } else {
        s
    }
}

/// `n`, clamped to the largest `usize`.
pub open spec fn saturated(n: int) -> usize {
    if n > usize::MAX {
        usize::MAX
    } else if n < 0 {
        0
    } else {
        n as usize
    }
}

/// `n` as a `usize`, or `None` where it does not fit.
pub open spec fn checked(n: int) -> Option<usize> {
    if 0 <= n <= usize::MAX {
        Some(n as usize)
    } else {
        None
    }
}

/// The pair `b` of a lower bound and an optional upper bound holds of `n`.
pub open spec fn bounds_hold(b: (usize, Option<usize>), n: nat) -> bool {
    &&& b.0 <= n
    &&& b.1 matches Some(hi) ==> n <= hi
}

/// The bounds that report `n` exactly: `n` on both sides where it fits in a
/// `usize`, and otherwise the largest `usize` below and nothing above.
pub open spec fn exact_bounds(n: int) -> (usize, Option<usize>) {
    (saturated(n), checked(n))
}

/// A lazy sequence that is consumed from the front.
///
/// `remaining` is what successive pulls produce until the sequence next
/// signals that it has no more elements. A sequence need not be fused: after
/// that signal it may start to produce elements again.
pub trait Sequence: Sized {
    /// The type of the elements.
    type Item;

    /// The state is valid.
    spec fn wf(&self) -> bool;

    /// The elements still to be produced, front to back.
    spec fn remaining(&self) -> Seq<Self::Item>;

    /// The bounds that `size_hint` reports in this state.
    spec fn bounds(&self) -> (usize, Option<usize>);

    /// The reported bounds hold of the number of remaining elements.
    proof fn lemma_bounds(&self)
        requires
            self.wf(),
        ensures
            bounds_hold(self.bounds(), self.remaining().len()),
    ;

    /// Takes the first remaining element, if there is one.
    fn next(&mut self) -> (r: Option<Self::Item>)
        requires
            old(self).wf(),
        ensures
            final(self).wf(),
            r == front_of(old(self).remaining()),
            r is Some ==> final(self).remaining() == old(self).remaining().drop_first(),
    ;

    /// A lower bound and, where one is known, an upper bound on the number of
    /// remaining elements.
    fn size_hint(&self) -> (r: (usize, Option<usize>))
        requires
            self.wf(),
        ensures
            r == self.bounds(),
    ;
}

/// A lazy sequence that can also be consumed from the back.
pub trait DoubleEndedSequence: Sequence {
    /// Takes the last remaining element, if there is one.
    fn next_back(&mut self) -> (r: Option<Self::Item>)
        requires
            old(self).wf(),
        ensures
            final(self).wf(),
            r == back_of(old(self).remaining()),
            r is Some ==> final(self).remaining() == old(self).remaining().drop_last(),
    ;
}

/// A lazy sequence whose reported bounds are the exact number of remaining
/// elements, in every valid state.
pub trait ExactSizeSequence: Sequence {
    /// The number of remaining elements fits in a `usize`, and both reported
    /// bounds are that number.
    proof fn lemma_exact(&self)
        requires
            self.wf(),
        ensures
            self.remaining().len() <= usize::MAX,
            self.bounds() == exact_bounds(self.remaining().len() as int),
    ;
}

/// A value that converts into a lazy sequence.
pub trait IntoSequence: Sized {
    /// The type of the elements of the sequence.
    type Item;

    /// The type of the sequence.
    type IntoSeq: Sequence<Item = Self::Item>;

    /// The value can be converted.
    spec fn convertible(&self) -> bool;

    /// The sequence that the value converts into.
    spec fn sequence(self) -> Self::IntoSeq;

    /// Converts the value into a sequence in a valid state.
    fn into_sequence(self) -> (s: Self::IntoSeq)
        requires
            self.convertible(),
        ensures
            s == self.sequence(),
            s.wf(),
    ;
}

/// Every lazy sequence converts into itself.
impl<S: Sequence> IntoSequence for S {
    type Item = S::Item;

    type IntoSeq = S;

    open spec fn convertible(&self) -> bool {
        self.wf()
    }

    open spec fn sequence(self) -> S {
        self
    }

    fn into_sequence(self) -> (s: S) {
        self
    }
}

} // verus!
