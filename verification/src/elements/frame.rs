//! The 12 by 12 stiffness matrix of a frame member.
//!
//! The rows and columns of the member matrix follow the degrees of freedom of
//! the two ends: translations along the local x, y and z axes and rotations
//! about them at the start (0 to 5), then the same at the end (6 to 11).
//!
//! Beam theory gives each internal action a handful of stiffness
//! coefficients. The library takes the coefficients as they are and decides
//! where each of them stands in the member matrix; the same layout serves
//! bending with and without shear deformation, which differ only in the
//! values of the coefficients.

use crate::elements::actions::{
    lemma_slot_of_four, lemma_slot_of_two, merge_single_action_into_complete_2by2,
    merge_single_action_into_complete_4by4, merged, place_of_four, place_of_two, slot, within,
    SingleActionStiffnessMatrix2by2, SingleActionStiffnessMatrix4by4,
};
use crate::elements::releases::{
    apply_end_releases, axial_rows, bending_y_rows, bending_z_rows, lemma_released_symmetric,
    released, releases_supported, torsion_rows,
};
use crate::error::AnalysisError;
use crate::matrix::{
    filled12, grid, is_square, is_symmetric, lemma_grid_determines, uniform, Matrix12, Matrix2,
    Matrix4,
};
use crate::models::frame::{FrameElement, FrameEndReleases};
use vstd::prelude::*;

verus! {

/// The stiffness of a member against an action along its axis (stretching or
/// twisting): the force at an end for a unit movement of that same end, and
/// for a unit movement of the opposite end.
#[derive(Clone, Copy, Debug)]
pub struct BarCoefficients<S> {
    pub same_end: S,
    pub opposite_end: S,
}

/// The stiffness of a member against bending in one plane.
///
/// `shear` is the transverse force at an end for a unit deflection of that
/// end, `coupling` the force for a unit rotation (and the moment for a unit
/// deflection), `moment_near` the moment at an end for a unit rotation of that
/// end and `moment_far` for a unit rotation of the other end. The two
/// `reversed` values are `shear` and `coupling` with the opposite sign.
#[derive(Clone, Copy, Debug)]
pub struct BeamCoefficients<S> {
    pub shear: S,
    pub shear_reversed: S,
    pub coupling: S,
    pub coupling_reversed: S,
    pub moment_near: S,
    pub moment_far: S,
}

/// The stiffness coefficients of a member for all four actions, and the value
/// that stands for zero.
#[derive(Clone, Copy, Debug)]
pub struct FrameCoefficients<S> {
    pub zero: S,
    pub axial: BarCoefficients<S>,
    pub torsion: BarCoefficients<S>,
    pub bending_z: BeamCoefficients<S>,
    pub bending_y: BeamCoefficients<S>,
}

impl<S> BarCoefficients<S> {
    /// The 2 by 2 stiffness of the action, start before end.
    pub open spec fn block(self) -> Seq<Seq<S>> {
        seq![seq![self.same_end, self.opposite_end], seq![self.opposite_end, self.same_end]]
    }
}

impl<S: Copy> BarCoefficients<S> {
    /// The 2 by 2 stiffness of the action, start before end.
    pub fn block_matrix(&self) -> (m: Matrix2<S>)
        ensures
            grid(m) == self.block(),
    {
        let m = [[self.same_end, self.opposite_end], [self.opposite_end, self.same_end]];
        m
    }
}

impl<S> BeamCoefficients<S> {
    /// The 4 by 4 bending stiffness for deflection and rotation at one end,
    /// then at the other, where a positive rotation at the first end raises
    /// the second.
    pub open spec fn block(self) -> Seq<Seq<S>> {
        seq![
            seq![self.shear, self.coupling, self.shear_reversed, self.coupling],
            seq![self.coupling, self.moment_near, self.coupling_reversed, self.moment_far],
            seq![self.shear_reversed, self.coupling_reversed, self.shear, self.coupling_reversed],
            seq![self.coupling, self.moment_far, self.coupling_reversed, self.moment_near],
        ]
    }

    /// The 4 by 4 bending stiffness for deflection and rotation at one end,
    /// then at the other, where a positive rotation at the first end lowers
    /// the second.
    pub open spec fn mirrored_block(self) -> Seq<Seq<S>> {
        seq![
            seq![self.shear, self.coupling_reversed, self.shear_reversed, self.coupling_reversed],
            seq![self.coupling_reversed, self.moment_near, self.coupling, self.moment_far],
            seq![self.shear_reversed, self.coupling, self.shear, self.coupling],
            seq![self.coupling_reversed, self.moment_far, self.coupling, self.moment_near],
        ]
    }
}

impl<S: Copy> BeamCoefficients<S> {
    /// The bending stiffness as `block` lays it out.
    pub fn block_matrix(&self) -> (m: Matrix4<S>)
        ensures
            grid(m) == self.block(),
    {
        let m = [
            [self.shear, self.coupling, self.shear_reversed, self.coupling],
            [self.coupling, self.moment_near, self.coupling_reversed, self.moment_far],
            [self.shear_reversed, self.coupling_reversed, self.shear, self.coupling_reversed],
            [self.coupling, self.moment_far, self.coupling_reversed, self.moment_near],
        ];
        m
    }

    /// The bending stiffness as `mirrored_block` lays it out.
    pub fn mirrored_block_matrix(&self) -> (m: Matrix4<S>)
        ensures
            grid(m) == self.mirrored_block(),
    {
        let m = [
            [self.shear, self.coupling_reversed, self.shear_reversed, self.coupling_reversed],
            [self.coupling_reversed, self.moment_near, self.coupling, self.moment_far],
            [self.shear_reversed, self.coupling, self.shear, self.coupling],
            [self.coupling_reversed, self.moment_far, self.coupling, self.moment_near],
        ];
        m
    }
}

/// The stiffness matrix of a member without releases, written out.
pub open spec fn member_stiffness<S>(k: FrameCoefficients<S>) -> Seq<Seq<S>> {
    let o = k.zero;
    let a = k.axial;
    let t = k.torsion;
    let z = k.bending_z;
    let y = k.bending_y;
    // Short names for the coefficients keep the twelve rows readable: `f` and
    // `c` are the shear and the coupling, `n` and `m` the moments for a
    // rotation of the near and of the far end, and `r` marks the reversed
    // sign; the second letter names the axis of bending.
    let (fz, rfz, cz, rcz, nz, mz) = (
        z.shear,
        z.shear_reversed,
        z.coupling,
        z.coupling_reversed,
        z.moment_near,
        z.moment_far,
    );
    let (fy, rfy, cy, rcy, ny, my) = (
        y.shear,
        y.shear_reversed,
        y.coupling,
        y.coupling_reversed,
        y.moment_near,
        y.moment_far,
    );
    seq![
        seq![a.same_end, o, o, o, o, o, a.opposite_end, o, o, o, o, o],
        seq![o, fz, o, o, o, cz, o, rfz, o, o, o, cz],
        seq![o, o, fy, o, rcy, o, o, o, rfy, o, rcy, o],
        seq![o, o, o, t.same_end, o, o, o, o, o, t.opposite_end, o, o],
        seq![o, o, rcy, o, ny, o, o, o, cy, o, my, o],
        seq![o, cz, o, o, o, nz, o, rcz, o, o, o, mz],
        seq![a.opposite_end, o, o, o, o, o, a.same_end, o, o, o, o, o],
        seq![o, rfz, o, o, o, rcz, o, fz, o, o, o, rcz],
        seq![o, o, rfy, o, cy, o, o, o, fy, o, cy, o],
        seq![o, o, o, t.opposite_end, o, o, o, o, o, t.same_end, o, o],
        seq![o, o, rcy, o, my, o, o, o, cy, o, ny, o],
        seq![o, cz, o, o, o, mz, o, rcz, o, o, o, nz],
    ]
}

/// The member matrix as the four blocks build it, each written over the last
/// through its index map; `z_rows` and `y_rows` name the rows of the two
/// bending blocks in the order of the blocks' own rows.
pub open spec fn assembled_from_blocks<S>(
    k: FrameCoefficients<S>,
    z_rows: Seq<usize>,
    z_block: Seq<Seq<S>>,
    y_rows: Seq<usize>,
    y_block: Seq<Seq<S>>,
) -> Seq<Seq<S>> {
    let axial = merged(uniform(12, k.zero), axial_rows(), k.axial.block());
    let torsion = merged(axial, torsion_rows(), k.torsion.block());
    let bending_z = merged(torsion, z_rows, z_block);
    merged(bending_z, y_rows, y_block)
}

/// The rows of bending about z, end before start.
pub open spec fn bending_z_rows_end_first() -> Seq<usize> {
    seq![7usize, 11usize, 1usize, 5usize]
}

/// The rows of bending about y, end before start.
pub open spec fn bending_y_rows_end_first() -> Seq<usize> {
    seq![8usize, 10usize, 2usize, 4usize]
}

/// The place of each row in the index maps of the four actions.
proof fn lemma_places()
    ensures
        forall|r: int| #[trigger] slot(axial_rows(), r) == place_of_two(0, 6, r),
        forall|r: int| #[trigger] slot(torsion_rows(), r) == place_of_two(3, 9, r),
        forall|r: int| #[trigger] slot(bending_z_rows(), r) == place_of_four(1, 5, 7, 11, r),
        forall|r: int| #[trigger] slot(bending_y_rows(), r) == place_of_four(2, 4, 8, 10, r),
        forall|r: int| #[trigger]
            slot(bending_z_rows_end_first(), r) == place_of_four(7, 11, 1, 5, r),
        forall|r: int| #[trigger]
            slot(bending_y_rows_end_first(), r) == place_of_four(8, 10, 2, 4, r),
{
    assert forall|r: int| #[trigger] slot(axial_rows(), r) == place_of_two(0, 6, r) by {
        lemma_slot_of_two(0, 6, r);
    }
    assert forall|r: int| #[trigger] slot(torsion_rows(), r) == place_of_two(3, 9, r) by {
        lemma_slot_of_two(3, 9, r);
    }
    assert forall|r: int| #[trigger]
        slot(bending_z_rows(), r) == place_of_four(1, 5, 7, 11, r) by {
        lemma_slot_of_four(1, 5, 7, 11, r);
    }
    assert forall|r: int| #[trigger]
        slot(bending_y_rows(), r) == place_of_four(2, 4, 8, 10, r) by {
        lemma_slot_of_four(2, 4, 8, 10, r);
    }
    assert forall|r: int| #[trigger]
        slot(bending_z_rows_end_first(), r) == place_of_four(7, 11, 1, 5, r) by {
        lemma_slot_of_four(7, 11, 1, 5, r);
    }
    assert forall|r: int| #[trigger]
        slot(bending_y_rows_end_first(), r) == place_of_four(8, 10, 2, 4, r) by {
        lemma_slot_of_four(8, 10, 2, 4, r);
    }
}

/// The four blocks, the bending blocks start before end, build the member
/// matrix.
pub proof fn lemma_layout_start_first<S>(k: FrameCoefficients<S>)
    ensures
        assembled_from_blocks(
            k,
            bending_z_rows(),
            k.bending_z.block(),
            bending_y_rows(),
            k.bending_y.mirrored_block(),
        ) == member_stiffness(k),
{
    lemma_places();
    assert(assembled_from_blocks(
        k,
        bending_z_rows(),
        k.bending_z.block(),
        bending_y_rows(),
        k.bending_y.mirrored_block(),
    ) =~~= member_stiffness(k));
}

/// The four blocks, the bending blocks end before start, build the same
/// member matrix.
pub proof fn lemma_layout_end_first<S>(k: FrameCoefficients<S>)
    ensures
        assembled_from_blocks(
            k,
            bending_z_rows_end_first(),
            k.bending_z.mirrored_block(),
            bending_y_rows_end_first(),
            k.bending_y.block(),
        ) == member_stiffness(k),
{
    lemma_places();
    assert(assembled_from_blocks(
        k,
        bending_z_rows_end_first(),
        k.bending_z.mirrored_block(),
        bending_y_rows_end_first(),
        k.bending_y.block(),
    ) =~~= member_stiffness(k));
}

/// The stiffness matrix of a member with end releases `start` and `end`.
pub open spec fn local_stiffness<S>(
    k: FrameCoefficients<S>,
    start: FrameEndReleases,
    end: FrameEndReleases,
) -> Seq<Seq<S>> {
    released(member_stiffness(k), start, end, k.zero)
}

/// Builds the member matrix from its four blocks and applies the releases.
fn member_matrix_from_blocks<S: Copy>(
    element: &FrameElement<S>,
    coefficients: &FrameCoefficients<S>,
    bending_z: &SingleActionStiffnessMatrix4by4<S>,
    bending_y: &SingleActionStiffnessMatrix4by4<S>,
) -> (r: Result<Matrix12<S>, AnalysisError>)
    requires
        within(bending_z.index_map@, 12),
        within(bending_y.index_map@, 12),
        assembled_from_blocks(
            *coefficients,
            bending_z.index_map@,
            grid(bending_z.stiffness_matrix),
            bending_y.index_map@,
            grid(bending_y.stiffness_matrix),
        ) == member_stiffness(*coefficients),
    ensures
        match r {
            Ok(m) => releases_supported(element.start_releases, element.end_releases) && grid(m)
                == local_stiffness(*coefficients, element.start_releases, element.end_releases),
            Err(e) => !releases_supported(element.start_releases, element.end_releases) && e
                == AnalysisError::UnsupportedEndReleases,
        },
{
    let mut m = filled12(coefficients.zero);

    let index_map: [usize; 2] = [0, 6];
    let stiffness_matrix = coefficients.axial.block_matrix();
    let axial_action = SingleActionStiffnessMatrix2by2 { index_map, stiffness_matrix };
    merge_single_action_into_complete_2by2(&axial_action, &mut m);

    let index_map: [usize; 2] = [3, 9];
    let stiffness_matrix = coefficients.torsion.block_matrix();
    let torsion_action = SingleActionStiffnessMatrix2by2 { index_map, stiffness_matrix };
    merge_single_action_into_complete_2by2(&torsion_action, &mut m);

    merge_single_action_into_complete_4by4(bending_z, &mut m);
    merge_single_action_into_complete_4by4(bending_y, &mut m);

    match apply_end_releases(&mut m, element, coefficients.zero) {
        Ok(()) => Ok(m),
        Err(e) => Err(e),
    }
}

/// The stiffness matrix of `element` in its own axes, from the coefficients
/// of a beam without shear deformation.
///
/// The bending blocks are laid out start before end. A partial release of
/// bending and shear is refused.
pub fn frame_element_stiffness_matrix<S: Copy>(
    element: &FrameElement<S>,
    coefficients: &FrameCoefficients<S>,
) -> (r: Result<Matrix12<S>, AnalysisError>)
    ensures
        match r {
            Ok(m) => releases_supported(element.start_releases, element.end_releases) && grid(m)
                == local_stiffness(*coefficients, element.start_releases, element.end_releases),
            Err(e) => !releases_supported(element.start_releases, element.end_releases) && e
                == AnalysisError::UnsupportedEndReleases,
        },
{
    let index_map: [usize; 4] = [1, 5, 7, 11];
    let stiffness_matrix = coefficients.bending_z.block_matrix();
    let bending_z = SingleActionStiffnessMatrix4by4 { index_map, stiffness_matrix };

    let index_map: [usize; 4] = [2, 4, 8, 10];
    let stiffness_matrix = coefficients.bending_y.mirrored_block_matrix();
    let bending_y = SingleActionStiffnessMatrix4by4 { index_map, stiffness_matrix };

    proof {
        lemma_layout_start_first(*coefficients);
    }
    member_matrix_from_blocks(element, coefficients, &bending_z, &bending_y)
}

/// The stiffness matrix of `element` in its own axes, from the coefficients
/// of a beam with shear deformation.
///
/// The bending blocks are laid out end before start. A partial release of
/// bending and shear is refused.
pub fn frame_element_with_shear_deformation_stiffness_matrix<S: Copy>(
    element: &FrameElement<S>,
    coefficients: &FrameCoefficients<S>,
) -> (r: Result<Matrix12<S>, AnalysisError>)
    ensures
        match r {
            Ok(m) => releases_supported(element.start_releases, element.end_releases) && grid(m)
                == local_stiffness(*coefficients, element.start_releases, element.end_releases),
            Err(e) => !releases_supported(element.start_releases, element.end_releases) && e
                == AnalysisError::UnsupportedEndReleases,
        },
{
    let index_map: [usize; 4] = [7, 11, 1, 5];
    let stiffness_matrix = coefficients.bending_z.mirrored_block_matrix();
    let bending_z = SingleActionStiffnessMatrix4by4 { index_map, stiffness_matrix };

    let index_map: [usize; 4] = [8, 10, 2, 4];
    let stiffness_matrix = coefficients.bending_y.block_matrix();
    let bending_y = SingleActionStiffnessMatrix4by4 { index_map, stiffness_matrix };

    proof {
        lemma_layout_end_first(*coefficients);
    }
    member_matrix_from_blocks(element, coefficients, &bending_z, &bending_y)
}

/// The stiffness matrix of a member is a function of the coefficients and the
/// end releases alone: two matrices that both are the stiffness of a member
/// with the same coefficients and releases are equal, entry by entry.
pub proof fn lemma_local_stiffness_is_determined<S>(
    first: Matrix12<S>,
    second: Matrix12<S>,
    k: FrameCoefficients<S>,
    start: FrameEndReleases,
    end: FrameEndReleases,
)
    requires
        grid(first) == local_stiffness(k, start, end),
        grid(second) == local_stiffness(k, start, end),
    ensures
        first == second,
{
    lemma_grid_determines(first, second);
}

/// The stiffness matrix of a member without releases is symmetric.
pub proof fn lemma_member_stiffness_symmetric<S>(k: FrameCoefficients<S>)
    ensures
        is_square(member_stiffness(k), 12),
        is_symmetric(member_stiffness(k)),
{
}

/// The stiffness matrix of a member in its own axes is symmetric, whatever
/// the coefficients and the end releases.
pub proof fn lemma_local_stiffness_symmetric<S>(
    k: FrameCoefficients<S>,
    start: FrameEndReleases,
    end: FrameEndReleases,
)
    ensures
        is_square(local_stiffness(k, start, end), 12),
        is_symmetric(local_stiffness(k, start, end)),
{
    lemma_member_stiffness_symmetric(k);
    lemma_released_symmetric(member_stiffness(k), start, end, k.zero);
}

} // verus!
