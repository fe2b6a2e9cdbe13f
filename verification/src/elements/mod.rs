//! Member stiffness: single-action blocks, end releases and the 12 by 12
//! member matrix.

pub mod actions;
pub mod frame;
pub mod releases;

use crate::elements::frame::{member_stiffness, FrameCoefficients};
use crate::matrix::{filled12, grid, Matrix12};
use vstd::prelude::*;

verus! {

/// The stiffness matrix of a member without releases, entry by entry.
pub fn euler_bernoulli_element_stiffness_matrix<S: Copy>(coefficients: &FrameCoefficients<S>) -> (m:
    Matrix12<S>)
    ensures
        grid(m) == member_stiffness(*coefficients),
{
    let axial = &coefficients.axial;
    let torsion = &coefficients.torsion;
    let z = &coefficients.bending_z;
    let y = &coefficients.bending_y;

    let mut m = filled12(coefficients.zero);

    // Axial
    m[0][0] = axial.same_end;
    m[0][6] = axial.opposite_end;
    m[6][0] = axial.opposite_end;
    m[6][6] = axial.same_end;

    // Torsion
    m[3][3] = torsion.same_end;
    m[3][9] = torsion.opposite_end;
    m[9][3] = torsion.opposite_end;
    m[9][9] = torsion.same_end;

    // Bending about z
    m[1][1] = z.shear;
    m[1][7] = z.shear_reversed;
    m[7][1] = z.shear_reversed;
    m[7][7] = z.shear;

    m[1][5] = z.coupling;
    m[1][11] = z.coupling;
    m[7][5] = z.coupling_reversed;
    m[7][11] = z.coupling_reversed;

    m[5][1] = z.coupling;
    m[5][7] = z.coupling_reversed;
    m[11][1] = z.coupling;
    m[11][7] = z.coupling_reversed;

    m[5][5] = z.moment_near;
    m[5][11] = z.moment_far;
    m[11][5] = z.moment_far;
    m[11][11] = z.moment_near;

    // Bending about y
    m[2][2] = y.shear;
    m[2][8] = y.shear_reversed;
    m[8][2] = y.shear_reversed;
    m[8][8] = y.shear;

    m[2][4] = y.coupling_reversed;
    m[2][10] = y.coupling_reversed;
    m[8][4] = y.coupling;
    m[8][10] = y.coupling;

    m[4][2] = y.coupling_reversed;
    m[4][8] = y.coupling;
    m[10][2] = y.coupling_reversed;
    m[10][8] = y.coupling;

    m[4][4] = y.moment_near;
    m[4][10] = y.moment_far;
    m[10][4] = y.moment_far;
    m[10][10] = y.moment_near;

    proof {
        let table = member_stiffness(*coefficients);
        assert(m[0]@ =~= table[0]);
        assert(m[1]@ =~= table[1]);
        assert(m[2]@ =~= table[2]);
        assert(m[3]@ =~= table[3]);
        assert(m[4]@ =~= table[4]);
        assert(m[5]@ =~= table[5]);
        assert(m[6]@ =~= table[6]);
        assert(m[7]@ =~= table[7]);
        assert(m[8]@ =~= table[8]);
        assert(m[9]@ =~= table[9]);
        assert(m[10]@ =~= table[10]);
        assert(m[11]@ =~= table[11]);
    }
    m
}

} // verus!
