//! Core data structures and discrete algorithms of a planar finite-element
//! solver for bow mechanics: degrees of freedom and the view layer that maps
//! element-local quantities into global vectors and matrices, the contact
//! envelope used for string wrap detection, bisection, linear-spline
//! interpolation, angle normalization and interval coverage over fixed-point
//! coordinates, and the convergence control shared by the static and dynamic
//! solvers.
//!
//! All quantities are carried as `i64` fixed-point values; the caller picks
//! the unit. The floating-point element formulations and the dense linear
//! algebra they drive live outside this crate.

pub mod bisection;
pub mod bow;
pub mod dof;
pub mod functions;
pub mod geometry;
pub mod intervals;
pub mod linear_spline;
pub mod nodes;
pub mod solvers;
pub mod system;
pub mod views;
