//! Named groups of dofs: a point node with two translational dofs and an
//! oriented node with an additional rotation, plus the constraint choices
//! used when creating nodes. Nodes own no storage of their own; they only
//! duplicate `Dof` values for convenient access.

use vstd::prelude::*;

use crate::dof::Dof;

verus! {

/// A planar node with dofs for the x and y position.
#[derive(Copy, Clone, Debug, PartialEq, Eq)]
pub struct PointNode {
    pub dofs: [Dof; 2],
}

impl PointNode {
    /// Groups two dofs into a point node.
    pub fn new(x: Dof, y: Dof) -> (r: PointNode)
        ensures
            r.dofs[0] == x,
            r.dofs[1] == y,
    {
        PointNode { dofs: [x, y] }
    }

    /// The same node with a rotation dof fixed at zero.
    pub fn oriented(&self) -> (r: OrientedNode)
        ensures
            r.dofs[0] == self.dofs[0],
            r.dofs[1] == self.dofs[1],
            r.dofs[2] == Dof::Fixed(0i64),
    {
        OrientedNode::new(self.dofs[0], self.dofs[1], Dof::Fixed(0))
    }

    /// The dof of the x position.
    pub fn x(&self) -> (r: Dof)
        ensures
            r == self.dofs[0],
    {
        self.dofs[0]
    }

    /// The dof of the y position.
    pub fn y(&self) -> (r: Dof)
        ensures
            r == self.dofs[1],
    {
        self.dofs[1]
    }
}

/// A planar node with dofs for the x and y position and a rotation.
#[derive(Copy, Clone, Debug, PartialEq, Eq)]
pub struct OrientedNode {
    pub dofs: [Dof; 3],
}

impl OrientedNode {
    /// Groups three dofs into an oriented node.
    pub fn new(x: Dof, y: Dof, phi: Dof) -> (r: OrientedNode)
        ensures
            r.dofs[0] == x,
            r.dofs[1] == y,
            r.dofs[2] == phi,
    {
        OrientedNode { dofs: [x, y, phi] }
    }

    /// The same node without its rotation dof.
    pub fn point(&self) -> (r: PointNode)
        ensures
            r.dofs[0] == self.dofs[0],
            r.dofs[1] == self.dofs[1],
    {
        PointNode::new(self.dofs[0], self.dofs[1])
    }

    /// The dof of the x position.
    pub fn x(&self) -> (r: Dof)
        ensures
            r == self.dofs[0],
    {
        self.dofs[0]
    }

    /// The dof of the y position.
    pub fn y(&self) -> (r: Dof)
        ensures
            r == self.dofs[1],
    {
        self.dofs[1]
    }

    /// The dof of the rotation.
    pub fn phi(&self) -> (r: Dof)
        ensures
            r == self.dofs[2],
    {
        self.dofs[2]
    }
}

/// Which dofs of a newly created node are fixed.
#[derive(Copy, Clone, Debug, PartialEq, Eq, Structural)]
pub struct Constraints {
    pub x_pos_fixed: bool,
    pub y_pos_fixed: bool,
    pub z_rot_fixed: bool,
}

impl Constraints {
    /// Constraints with each dof fixed as given.
    pub fn new(x_pos_fixed: bool, y_pos_fixed: bool, z_rot_fixed: bool) -> (r: Constraints)
        ensures
            r == (Constraints { x_pos_fixed, y_pos_fixed, z_rot_fixed }),
    {
        Constraints { x_pos_fixed, y_pos_fixed, z_rot_fixed }
    }

    /// No dof is fixed.
    pub fn all_free() -> (r: Constraints)
        ensures
            r == (Constraints { x_pos_fixed: false, y_pos_fixed: false, z_rot_fixed: false }),
    {
        Constraints { x_pos_fixed: false, y_pos_fixed: false, z_rot_fixed: false }
    }

    /// Only the x position is free.
    pub fn x_pos_free() -> (r: Constraints)
        ensures
            r == (Constraints { x_pos_fixed: false, y_pos_fixed: true, z_rot_fixed: true }),
    {
        Constraints { x_pos_fixed: false, y_pos_fixed: true, z_rot_fixed: true }
    }

    /// Only the y position is free.
    pub fn y_pos_free() -> (r: Constraints)
        ensures
            r == (Constraints { x_pos_fixed: true, y_pos_fixed: false, z_rot_fixed: true }),
    {
        Constraints { x_pos_fixed: true, y_pos_fixed: false, z_rot_fixed: true }
    }

    /// Only the rotation is free.
    pub fn z_rot_free() -> (r: Constraints)
        ensures
            r == (Constraints { x_pos_fixed: true, y_pos_fixed: true, z_rot_fixed: false }),
    {
        Constraints { x_pos_fixed: true, y_pos_fixed: true, z_rot_fixed: false }
    }

    /// Every dof is fixed.
    pub fn all_fixed() -> (r: Constraints)
        ensures
            r == (Constraints { x_pos_fixed: true, y_pos_fixed: true, z_rot_fixed: true }),
    {
        Constraints { x_pos_fixed: true, y_pos_fixed: true, z_rot_fixed: true }
    }

    /// Both positions are fixed, the rotation is free.
    pub fn pos_fixed() -> (r: Constraints)
        ensures
            r == (Constraints { x_pos_fixed: true, y_pos_fixed: true, z_rot_fixed: false }),
    {
        Constraints { x_pos_fixed: true, y_pos_fixed: true, z_rot_fixed: false }
    }

    /// Both positions are free, the rotation is fixed.
    pub fn rot_fixed() -> (r: Constraints)
        ensures
            r == (Constraints { x_pos_fixed: false, y_pos_fixed: false, z_rot_fixed: true }),
    {
        Constraints { x_pos_fixed: false, y_pos_fixed: false, z_rot_fixed: true }
    }
}

} // verus!
