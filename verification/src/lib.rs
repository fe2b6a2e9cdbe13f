//! Direct stiffness method for three-dimensional frame structures.
//!
//! The library holds the part of the method that is about structure rather
//! than about numbers: where the stiffness coefficients of a member stand in
//! its 12 by 12 matrix, which of them the end releases of the member clear,
//! how the rotation between world and member axes fills the transform of the
//! twelve degrees of freedom, and to which pair of world degrees of freedom
//! each coefficient of a member goes when the global stiffness is assembled.
//!
//! It never computes with a coefficient. The number type `S` is the caller's:
//! the caller evaluates the beam formulas, multiplies matrices, decides which
//! coefficients are small enough to count as zero, sums the contributions
//! that the assembly collects for each pair of degrees of freedom, and solves
//! the linear system.
//!
//! An analysis works on two stores that the caller owns and passes in:
//! [`ElementData`] with the nodes and members of the model, and
//! [`AnalysisData`] with what has been derived from them.

pub mod analysis;
pub mod data;
pub mod elements;
pub mod error;
pub mod matrix;
pub mod models;
pub mod registry;
pub mod utils;

pub use crate::data::{
    add_frame_element, add_node, get_frame_element_by_id, get_node_by_id,
    update_frame_element_stiffness, AnalysisData, ElementData,
};
