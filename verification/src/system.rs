//! The system state holder: the current time and the global displacement
//! and velocity vectors, together with the helpers that allocate degrees of
//! freedom and nodes during system construction. The two state vectors
//! always have one entry per free dof created so far; fixed dofs never
//! appear in them.

use vstd::prelude::*;

use crate::dof::Dof;
use crate::nodes::{Constraints, OrientedNode, PointNode};
use crate::views::{dof_in_range, position_transform, rate_transform};

verus! {

/// The owner of the system state. Dofs are added only during a
/// construction phase; thereafter only the time, displacements and
/// velocities change, driven by the solvers.
pub struct System {
    pub t: i64,
    pub u: Vec<i64>,
    pub v: Vec<i64>,
}

impl System {
    /// Invariant: the displacement and velocity vectors have one entry per
    /// free dof.
    pub open spec fn wf(&self) -> bool {
        self.u@.len() == self.v@.len()
    }

    /// Creates a new empty system with zero degrees of freedom.
    pub fn new() -> (r: System)
        ensures
            r.wf(),
            r.t == 0,
            r.u@.len() == 0,
            r.v@.len() == 0,
    {
        System { t: 0, u: Vec::new(), v: Vec::new() }
    }

    /// Creates a single unconstrained dof whose global entry starts at the
    /// given position and with zero velocity.
    pub fn create_free_dof(&mut self, value: i64) -> (r: Dof)
        requires
            old(self).wf(),
            old(self).u@.len() < usize::MAX,
        ensures
            final(self).wf(),
            r == Dof::Free(old(self).u@.len() as usize),
            final(self).u@ == old(self).u@.push(value),
            final(self).v@ == old(self).v@.push(0i64),
            final(self).t == old(self).t,
            dof_in_range(r, final(self).u@.len() as int),
    {
        self.u.push(value);
        self.v.push(0);
        Dof::Free(self.u.len() - 1)
    }

    /// Creates a single fixed dof carrying the given constant value. No
    /// global entry is allocated.
    pub fn create_fixed_dof(&mut self, value: i64) -> (r: Dof)
        ensures
            *final(self) == *old(self),
            r == Dof::Fixed(value),
    {
        Dof::Fixed(value)
    }

    /// Creates a planar node with dofs for the x and y position, each free
    /// or fixed at its initial value as the constraints direct.
    pub fn create_xy_node(&mut self, x0: i64, y0: i64, constraints: Constraints) -> (r: PointNode)
        requires
            old(self).wf(),
            old(self).u@.len() + 2 <= usize::MAX,
        ensures
            final(self).wf(),
            final(self).t == old(self).t,
            final(self).u@.len() == old(self).u@.len() + (if constraints.x_pos_fixed {
                0int
            } else {
                1int
            }) + (if constraints.y_pos_fixed {
                0int
            } else {
                1int
            }),
            r.dofs[0] == if constraints.x_pos_fixed {
                Dof::Fixed(x0)
            } else {
                Dof::Free(old(self).u@.len() as usize)
            },
            r.dofs[1] == if constraints.y_pos_fixed {
                Dof::Fixed(y0)
            } else if constraints.x_pos_fixed {
                Dof::Free(old(self).u@.len() as usize)
            } else {
                Dof::Free((old(self).u@.len() + 1) as usize)
            },
            dof_in_range(r.dofs[0], final(self).u@.len() as int),
            dof_in_range(r.dofs[1], final(self).u@.len() as int),
            position_transform(final(self).u@, r.dofs[0]) == x0,
            position_transform(final(self).u@, r.dofs[1]) == y0,
            rate_transform(final(self).v@, r.dofs[0]) == 0,
            rate_transform(final(self).v@, r.dofs[1]) == 0,
            forall|k: int| 0 <= k < old(self).u@.len() ==> final(self).u@[k] == old(self).u@[k],
            forall|k: int| 0 <= k < old(self).v@.len() ==> final(self).v@[k] == old(self).v@[k],
    {
        let dof_x = if constraints.x_pos_fixed {
            self.create_fixed_dof(x0)
        } else {
            self.create_free_dof(x0)
        };
        let dof_y = if constraints.y_pos_fixed {
            self.create_fixed_dof(y0)
        } else {
            self.create_free_dof(y0)
        };
        PointNode::new(dof_x, dof_y)
    }

    /// Creates a planar node with dofs for the x and y position and the
    /// rotation, each free or fixed at its initial value as the constraints
    /// direct.
    pub fn create_beam_node(
        &mut self,
        x0: i64,
        y0: i64,
        phi0: i64,
        constraints: Constraints,
    ) -> (r: OrientedNode)
        requires
            old(self).wf(),
            old(self).u@.len() + 3 <= usize::MAX,
        ensures
            final(self).wf(),
            final(self).t == old(self).t,
            r.dofs[0] is Free <==> !constraints.x_pos_fixed,
            r.dofs[1] is Free <==> !constraints.y_pos_fixed,
            r.dofs[2] is Free <==> !constraints.z_rot_fixed,
            dof_in_range(r.dofs[0], final(self).u@.len() as int),
            dof_in_range(r.dofs[1], final(self).u@.len() as int),
            dof_in_range(r.dofs[2], final(self).u@.len() as int),
            position_transform(final(self).u@, r.dofs[0]) == x0,
            position_transform(final(self).u@, r.dofs[1]) == y0,
            position_transform(final(self).u@, r.dofs[2]) == phi0,
            rate_transform(final(self).v@, r.dofs[0]) == 0,
            rate_transform(final(self).v@, r.dofs[1]) == 0,
            rate_transform(final(self).v@, r.dofs[2]) == 0,
            forall|k: int| 0 <= k < old(self).u@.len() ==> final(self).u@[k] == old(self).u@[k],
            forall|k: int| 0 <= k < old(self).v@.len() ==> final(self).v@[k] == old(self).v@[k],
    {
        let dof_x = if constraints.x_pos_fixed {
            self.create_fixed_dof(x0)
        } else {
            self.create_free_dof(x0)
        };
        let dof_y = if constraints.y_pos_fixed {
            self.create_fixed_dof(y0)
        } else {
            self.create_free_dof(y0)
        };
        let dof_phi = if constraints.z_rot_fixed {
            self.create_fixed_dof(phi0)
        } else {
            self.create_free_dof(phi0)
        };
        OrientedNode::new(dof_x, dof_y, dof_phi)
    }

    /// The number of degrees of freedom of the system.
    pub fn n_dofs(&self) -> (r: usize)
        ensures
            r == self.u@.len(),
    {
        self.u.len()
    }

    /// The current time.
    pub fn get_time(&self) -> (r: i64)
        ensures
            r == self.t,
    {
        self.t
    }

    /// Sets the current time.
    pub fn set_time(&mut self, t: i64)
        ensures
            final(self).t == t,
            final(self).u@ == old(self).u@,
            final(self).v@ == old(self).v@,
    {
        self.t = t;
    }

    /// The global displacement vector.
    pub fn get_displacements(&self) -> (r: &Vec<i64>)
        ensures
            r@ == self.u@,
    {
        &self.u
    }

    /// The displacement of a single dof: its constant for a fixed dof, the
    /// global entry for a free dof.
    pub fn get_displacement(&self, dof: Dof) -> (r: i64)
        requires
            dof_in_range(dof, self.u@.len() as int),
        ensures
            r == position_transform(self.u@, dof),
    {
        crate::views::AffineView::transform(&self.u, dof)
    }

    /// Overwrites the global displacement vector.
    pub fn set_displacements(&mut self, value: &Vec<i64>)
        requires
            value@.len() == old(self).u@.len(),
        ensures
            final(self).u@ == value@,
            final(self).v@ == old(self).v@,
            final(self).t == old(self).t,
    {
        let mut copied: Vec<i64> = Vec::new();
        let mut k: usize = 0;
        while k < value.len()
            invariant
                k <= value@.len(),
                copied@ == value@.take(k as int),
            decreases value@.len() - k,
        {
            copied.push(value[k]);
            k += 1;
        }
        proof {
            assert(copied@ =~= value@);
        }
        self.u = copied;
    }

    /// The global velocity vector.
    pub fn get_velocities(&self) -> (r: &Vec<i64>)
        ensures
            r@ == self.v@,
    {
        &self.v
    }

    /// The velocity of a single dof: zero for a fixed dof, the global entry
    /// for a free dof.
    pub fn get_velocity(&self, dof: Dof) -> (r: i64)
        requires
            dof_in_range(dof, self.v@.len() as int),
        ensures
            r == rate_transform(self.v@, dof),
    {
        crate::views::LinearView::transform(&self.v, dof)
    }

    /// Overwrites the global velocity vector.
    pub fn set_velocities(&mut self, value: &Vec<i64>)
        requires
            value@.len() == old(self).v@.len(),
        ensures
            final(self).v@ == value@,
            final(self).u@ == old(self).u@,
            final(self).t == old(self).t,
    {
        let mut copied: Vec<i64> = Vec::new();
        let mut k: usize = 0;
        while k < value.len()
            invariant
                k <= value@.len(),
                copied@ == value@.take(k as int),
            decreases value@.len() - k,
        {
            copied.push(value[k]);
            k += 1;
        }
        proof {
            assert(copied@ =~= value@);
        }
        self.v = copied;
    }
}

} // verus!
