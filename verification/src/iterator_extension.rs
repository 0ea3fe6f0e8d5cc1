//! The marker that keeps `IteratorExtension` closed to other crates.
use vstd::prelude::*;
use crate::sequence::IntoSequence;

verus! {

/// Implemented for everything that converts into a sequence, and nameable
/// only inside this crate.
pub trait Sealed: IntoSequence {}

impl<T: IntoSequence> Sealed for T {}

} // verus!
