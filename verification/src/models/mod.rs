//! The structural model: nodes, materials, cross-sections, frame members and
//! their end releases.

pub mod frame;
pub mod material;
pub mod node;

use vstd::prelude::*;

verus! {

/// One of the three coordinate axes.
#[derive(Clone, Copy, Debug, PartialEq, Eq, Structural)]
pub enum Axis {
    X,
    Y,
    Z,
}

} // verus!
