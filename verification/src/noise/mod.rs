//! Gradient noise.

pub mod simplex;

pub use simplex::grad3;
