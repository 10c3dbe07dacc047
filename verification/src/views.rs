//! The node variants.

pub mod clip;
pub mod empty;
