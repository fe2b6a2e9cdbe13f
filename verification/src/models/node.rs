use vstd::prelude::*;

verus! {

/// A joint of the structure.
///
/// `degrees_of_freedom` holds the indices of the node's six degrees of
/// freedom in the global system: the translations along x, y and z, then the
/// rotations about x, y and z.
#[derive(Clone, Debug)]
pub struct Node<S> {
    pub id: String,
    pub coordinate: [S; 3],
    pub degrees_of_freedom: [usize; 6],
}

} // verus!
