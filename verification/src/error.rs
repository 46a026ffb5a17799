//! What the model refuses, and why.

use vstd::prelude::*;

verus! {

/// A dimension that no physical part can have.
#[derive(Clone, Copy, Debug, PartialEq, Eq, Structural)]
pub enum GeometryError {
    /// A diameter, pitch, length or thickness that is zero or negative.
    NonPositive,
    /// A dimension beyond [`crate::quantity::MAX_DIMENSION`].
    TooLarge,
    /// The pitch is so coarse for the major diameter that the thread
    /// would have no root left.
    NoRootDiameter,
}

/// A material property that cannot be a measurement.
#[derive(Clone, Copy, Debug, PartialEq, Eq, Structural)]
pub enum PropertyError {
    /// A density or modulus that is zero or negative.
    NonPositive,
    /// A density beyond [`crate::quantity::MAX_DENSITY`].
    TooLarge,
    /// A temperature at or below absolute zero.
    BelowAbsoluteZero,
}

/// The five collections of a library that a joint can point into.
#[derive(Clone, Copy, Debug, PartialEq, Eq, Structural)]
pub enum ElementKind {
    Bolt,
    Stud,
    Nut,
    Threaded,
    Clamped,
}

/// A joint names a position that its collection does not have.
#[derive(Clone, Copy, Debug, PartialEq, Eq, Structural)]
pub struct DanglingReference {
    /// The collection that was indexed.
    pub kind: ElementKind,
    /// The position that was asked for.
    pub index: usize,
}

} // verus!
