//! An algebra of affine and quadratic forms over a fixed number of decision
//! variables, and a builder that accumulates them into the dense matrices of
//! a quadratic program: minimise `x' H x / 2 + f' x` subject to `l <= A x <= u`.
//!
//! The number of variables `N` and the number of constraint rows `M` are type
//! parameters; nothing is allocated. The arithmetic is that of a [`Scalar`]:
//! every contract names the exact operations, in the order in which they are
//! applied. Of a scalar only a few laws on finite values are asked; what
//! rests on more says of which values it asks it.
#![allow(non_snake_case)]

pub mod scalar;
pub mod row;
pub mod var;
pub mod lin;
pub mod quad;
pub mod constraint;
pub mod problem;
pub mod laws;

pub use scalar::Scalar;
pub use var::Var;
pub use lin::{LinExpr, LinModel};
pub use quad::{QuadExpr, QuadModel};
pub use constraint::{ConstraintModel, LinearConstraint};
pub use problem::{CapacityExceeded, ProblemBuilder, ProblemModel};
