use vstd::prelude::*;

verus! {

/// An isotropic elastic material: Young's modulus `E`, Poisson's ratio `nu`
/// and the shear modulus `G` that belongs to them.
///
/// The library carries the three values and never computes with them; whoever
/// builds a material derives `G` from `E` and `nu`.
#[allow(non_snake_case)]
#[derive(Clone, Copy, Debug)]
pub struct IsotropicMaterial<S> {
    pub E: S,
    pub G: S,
    pub nu: S,
}

} // verus!
