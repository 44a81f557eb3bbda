use vstd::prelude::*;

verus! {

/// Marker for an `Id` that is the only reference to its object: it may be
/// mutated through, but not cloned.
pub struct Owned;

/// Marker for an `Id` that may share its object with other references: it
/// may be cloned, but only read through.
pub struct Shared;

/// The ownership kinds an `Id` can have: `Owned` or `Shared`.
pub trait Ownership {
}

impl Ownership for Owned {
}

impl Ownership for Shared {
}

} // verus!
