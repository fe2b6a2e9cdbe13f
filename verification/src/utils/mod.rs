//! Helpers shared by the stages of an analysis.

pub mod transform;
