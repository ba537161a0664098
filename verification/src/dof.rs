//! A degree of freedom of the mechanical system: either free, referencing a
//! slot of the global state vectors by index, or fixed to a constant value
//! that never appears in the global vectors.

use vstd::prelude::*;

verus! {

/// One scalar generalized coordinate of the system.
///
/// A `Free` dof is defined by the index of the corresponding entry of the
/// global displacement/velocity vectors; a `Fixed` dof carries a constant
/// position/angle value. Dofs are immutable once created.
#[derive(Copy, Clone, Debug, PartialEq, Eq, Structural)]
pub enum Dof {
    Free(usize),
    Fixed(i64),
}

impl Dof {
    /// True iff the dof carries a prescribed constant value.
    pub fn is_fixed(&self) -> (r: bool)
        ensures
            r == self is Fixed,
    {
        matches!(self, Dof::Fixed(_))
    }

    /// True iff the dof references a slot of the global state vectors.
    pub fn is_free(&self) -> (r: bool)
        ensures
            r == self is Free,
    {
        matches!(self, Dof::Free(_))
    }
}

} // verus!
