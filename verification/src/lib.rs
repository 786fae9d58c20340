//! Equilibrium composition of a polymerizing mixture, solved through the
//! unconstrained dual of a free-energy minimization: a trust-region Newton
//! method whose inner subproblem is handled by a truncated conjugate-gradient
//! (Steihaug) procedure.
//!
//! This crate holds the verified core: input validation, the accept/reject
//! and radius-adaptation policy of the outer Newton loop, the branch policy
//! of the inner Steihaug iteration, input-file token analysis, and the
//! progress-message construction. The dense floating-point linear algebra
//! that the policies steer is carried out by the surrounding binary.

pub mod extras;
pub mod fileparse;
pub mod format;
pub mod optimize;
pub mod steihaug;

pub use extras::OptimizerError;
