//! Benchmark optimization problems: the contract that a test landscape
//! offers to minimization algorithms, and the feasibility test on positions.

pub mod coord;
pub mod problem;

pub use coord::Coord;
pub use problem::{is_legal_in_domain, Problem};
