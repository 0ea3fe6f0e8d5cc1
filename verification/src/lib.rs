//! Flattening of lazy sequences whose inner sequences all have the same,
//! statically known number of elements.
//!
//! Because every inner sequence has exactly [`ConstSizeIntoIterator::SIZE`]
//! elements, a flattened sequence can bound the number of elements it still
//! has to produce from the bounds of its outer sequence alone, at every step
//! and after pulls from either end.
use vstd::prelude::*;

pub mod array;
pub mod flatmap;
pub mod flatten;
pub mod flatten_base;
pub mod fuse;
mod iterator_extension;
pub mod mapped;
pub mod pulls;
pub mod sequence;
pub mod slice;

pub use flatmap::{const_size_flat_map, flat_map_elements, ConstSizeFlatMap};
pub use flatten::{const_size_flatten, ConstSizeFlatten};
pub use flatten_base::{flat_elements, fresh_bounds};
pub use mapped::{applied, applied_fn, is_function, models};
pub use sequence::{
    after_back, after_front, back_of, bounds_hold, checked, exact_bounds, front_of, saturated,
    DoubleEndedSequence, ExactSizeSequence, IntoSequence, Sequence,
};

verus! {

/// A value that converts into a sequence of exactly [`SIZE`] elements,
/// whatever the value is.
///
/// [`SIZE`]: ConstSizeIntoIterator::SIZE
pub trait ConstSizeIntoIterator: IntoSequence {
    /// The number of elements of every sequence that a value of this type
    /// converts into.
    const SIZE: usize;

    /// Every value can be converted.
    proof fn lemma_convertible(self)
        ensures
            self.convertible(),
    ;

    /// What a value converts into has `SIZE` elements.
    proof fn lemma_const_size(self)
        ensures
            self.sequence().remaining().len() == Self::SIZE,
    ;
}

/// Method forms of [`const_size_flatten`] and [`const_size_flat_map`], for
/// everything that converts into a sequence. The trait cannot be implemented
/// outside this crate.
pub trait IteratorExtension: IntoSequence + iterator_extension::Sealed {
    /// Flattens what `self` converts into: the method form of
    /// [`const_size_flatten`].
    fn const_size_flatten(self) -> (r: ConstSizeFlatten<Self::IntoSeq>) where
        Self: Sized,
        Self::Item: ConstSizeIntoIterator,

        requires
            self.convertible(),
        ensures
            r == ConstSizeFlatten::fresh(self.sequence()),
            r.wf(),
            r.remaining() == flat_elements(self.sequence().remaining()),
            r.bounds() == fresh_bounds(
                self.sequence().bounds(),
                <Self::Item as ConstSizeIntoIterator>::SIZE,
            ),
    {
        const_size_flatten(self)
    }

    /// Flattens what `f` makes of the elements of what `self` converts into:
    /// the method form of [`const_size_flat_map`].
    fn const_size_flat_map<U, F>(self, f: F) -> (r: ConstSizeFlatMap<Self::IntoSeq, U, F>) where
        Self: Sized,
        U: ConstSizeIntoIterator,
        F: FnMut(Self::Item) -> U,

        requires
            self.convertible(),
            is_function(f),
        ensures
            r == ConstSizeFlatMap::fresh(self.sequence(), f, applied_fn(f)),
            r.wf(),
            r.remaining() == flat_map_elements(self.sequence().remaining(), applied_fn(f)),
            r.bounds() == fresh_bounds(self.sequence().bounds(), U::SIZE),
    {
        const_size_flat_map(self, f)
    }
}

impl<T: IntoSequence> IteratorExtension for T {}

} // verus!
