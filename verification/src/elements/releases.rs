//! End releases: which parts of a member's stiffness vanish when its ends do
//! not transmit an internal action.
//!
//! Bending in a plane and the shear that goes with it are treated together. A
//! member keeps its bending stiffness in a plane when neither end releases
//! the moment or the shear of that plane, and loses all of it when both ends
//! release the moment, or one end releases both the moment and the shear. A
//! release of only one of them at one end would call for a condensed
//! stiffness that the library does not have: it is refused.

use crate::elements::actions::{
    lemma_slot_names, lemma_slot_of_four, lemma_slot_of_two,
    merge_single_action_into_complete_2by2, merge_single_action_into_complete_4by4, slot,
    SingleActionStiffnessMatrix2by2, SingleActionStiffnessMatrix4by4,
};
use crate::error::AnalysisError;
use crate::matrix::{grid, is_square, is_symmetric, uniform, Matrix12};
use crate::models::frame::{FrameElement, FrameEndRelease, FrameEndReleases};
use vstd::prelude::*;

verus! {

/// The rows of the member matrix that axial force couples.
pub open spec fn axial_rows() -> Seq<usize> {
    seq![0usize, 6usize]
}

/// The rows of the member matrix that torsion couples.
pub open spec fn torsion_rows() -> Seq<usize> {
    seq![3usize, 9usize]
}

/// The rows of the member matrix that bending about the local z axis couples:
/// deflection along y and rotation about z, at the start and at the end.
pub open spec fn bending_z_rows() -> Seq<usize> {
    seq![1usize, 5usize, 7usize, 11usize]
}

/// The rows of the member matrix that bending about the local y axis couples:
/// deflection along z and rotation about y, at the start and at the end.
pub open spec fn bending_y_rows() -> Seq<usize> {
    seq![2usize, 4usize, 8usize, 10usize]
}

/// Either end releases the axial force.
pub open spec fn axial_released(start: FrameEndReleases, end: FrameEndReleases) -> bool {
    start.A == FrameEndRelease::Free || end.A == FrameEndRelease::Free
}

/// Either end releases the torsion.
pub open spec fn torsion_released(start: FrameEndReleases, end: FrameEndReleases) -> bool {
    start.T == FrameEndRelease::Free || end.T == FrameEndRelease::Free
}

/// Two ends with moment releases `start_moment` and `end_moment` and shear
/// releases `start_shear` and `end_shear` in one plane leave the member no
/// bending stiffness in that plane.
pub open spec fn plane_released(
    start_moment: FrameEndRelease,
    start_shear: FrameEndRelease,
    end_moment: FrameEndRelease,
    end_shear: FrameEndRelease,
) -> bool {
    ||| (start_moment == FrameEndRelease::Free && end_moment == FrameEndRelease::Free)
    ||| (start_moment == FrameEndRelease::Free && start_shear == FrameEndRelease::Free)
    ||| (end_moment == FrameEndRelease::Free && end_shear == FrameEndRelease::Free)
}

/// The releases in one plane are neither absent nor a full release.
pub open spec fn plane_unsupported(
    start_moment: FrameEndRelease,
    start_shear: FrameEndRelease,
    end_moment: FrameEndRelease,
    end_shear: FrameEndRelease,
) -> bool {
    &&& !plane_released(start_moment, start_shear, end_moment, end_shear)
    &&& (start_moment == FrameEndRelease::Free || end_moment == FrameEndRelease::Free
        || start_shear == FrameEndRelease::Free || end_shear == FrameEndRelease::Free)
}

/// The member has no stiffness in bending about z.
pub open spec fn bending_z_released(start: FrameEndReleases, end: FrameEndReleases) -> bool {
    plane_released(start.Mz, start.Vy, end.Mz, end.Vy)
}

/// The member has no stiffness in bending about y.
pub open spec fn bending_y_released(start: FrameEndReleases, end: FrameEndReleases) -> bool {
    plane_released(start.My, start.Vz, end.My, end.Vz)
}

/// The library has a stiffness for a member with these end releases.
pub open spec fn releases_supported(start: FrameEndReleases, end: FrameEndReleases) -> bool {
    &&& !plane_unsupported(start.Mz, start.Vy, end.Mz, end.Vy)
    &&& !plane_unsupported(start.My, start.Vz, end.My, end.Vz)
}

/// Row `r` of the member matrix is coupled by axial force.
pub open spec fn is_axial_row(r: int) -> bool {
    r == 0 || r == 6
}

/// Row `r` of the member matrix is coupled by torsion.
pub open spec fn is_torsion_row(r: int) -> bool {
    r == 3 || r == 9
}

/// Row `r` of the member matrix is coupled by bending about z.
pub open spec fn is_bending_z_row(r: int) -> bool {
    r == 1 || r == 5 || r == 7 || r == 11
}

/// Row `r` of the member matrix is coupled by bending about y.
pub open spec fn is_bending_y_row(r: int) -> bool {
    r == 2 || r == 4 || r == 8 || r == 10
}

/// The releases clear entry `(r, c)` of the member matrix.
pub open spec fn cleared(start: FrameEndReleases, end: FrameEndReleases, r: int, c: int) -> bool {
    ||| axial_released(start, end) && is_axial_row(r) && is_axial_row(c)
    ||| torsion_released(start, end) && is_torsion_row(r) && is_torsion_row(c)
    ||| bending_z_released(start, end) && is_bending_z_row(r) && is_bending_z_row(c)
    ||| bending_y_released(start, end) && is_bending_y_row(r) && is_bending_y_row(c)
}

/// `m` with `zero` in every entry that the releases clear.
pub open spec fn released<S>(
    m: Seq<Seq<S>>,
    start: FrameEndReleases,
    end: FrameEndReleases,
    zero: S,
) -> Seq<Seq<S>> {
    Seq::new(
        m.len(),
        |r: int|
            Seq::new(
                m[r].len(),
                |c: int|
                    if cleared(start, end, r, c) {
                        zero
                    } else {
                        m[r][c]
                    },
            ),
    )
}

/// Releases keep a symmetric matrix symmetric.
pub proof fn lemma_released_symmetric<S>(
    m: Seq<Seq<S>>,
    start: FrameEndReleases,
    end: FrameEndReleases,
    zero: S,
)
    requires
        is_square(m, 12),
        is_symmetric(m),
    ensures
        is_square(released(m, start, end, zero), 12),
        is_symmetric(released(m, start, end, zero)),
{
}

/// Ends that transmit every action leave the stiffness as it is.
pub proof fn lemma_fully_fixed_clears_nothing<S>(m: Seq<Seq<S>>, zero: S)
    requires
        is_square(m, 12),
    ensures
        releases_supported(FrameEndReleases::fully_fixed(), FrameEndReleases::fully_fixed()),
        released(m, FrameEndReleases::fully_fixed(), FrameEndReleases::fully_fixed(), zero) == m,
{
    let fixed = FrameEndReleases::fully_fixed();
    assert(released(m, fixed, fixed, zero) =~~= m);
}

/// Where the releases leave a member no stiffness against an action, every
/// entry that couples two degrees of freedom of that action is zero.
pub proof fn lemma_released_blocks_are_zero<S>(
    m: Seq<Seq<S>>,
    start: FrameEndReleases,
    end: FrameEndReleases,
    zero: S,
    r: int,
    c: int,
)
    requires
        is_square(m, 12),
        0 <= r < 12,
        0 <= c < 12,
    ensures
        ({
            let after = released(m, start, end, zero);
            &&& axial_released(start, end) && is_axial_row(r) && is_axial_row(c)
                ==> after[r][c] == zero
            &&& torsion_released(start, end) && is_torsion_row(r) && is_torsion_row(c)
                ==> after[r][c] == zero
            &&& bending_z_released(start, end) && is_bending_z_row(r) && is_bending_z_row(c)
                ==> after[r][c] == zero
            &&& bending_y_released(start, end) && is_bending_y_row(r) && is_bending_y_row(c)
                ==> after[r][c] == zero
            &&& !cleared(start, end, r, c) ==> after[r][c] == m[r][c]
        }),
{
}

/// Two pinned ends are supported and leave the member no bending stiffness
/// in either plane.
pub proof fn lemma_pinned_ends<S>(m: Seq<Seq<S>>, zero: S, r: int, c: int)
    requires
        is_square(m, 12),
        0 <= r < 12,
        0 <= c < 12,
    ensures
        releases_supported(FrameEndReleases::pinned(), FrameEndReleases::pinned()),
        ({
            let pinned = FrameEndReleases::pinned();
            let after = released(m, pinned, pinned, zero);
            &&& is_bending_z_row(r) && is_bending_z_row(c) ==> after[r][c] == zero
            &&& is_bending_y_row(r) && is_bending_y_row(c) ==> after[r][c] == zero
            &&& is_axial_row(r) || is_torsion_row(r) ==> after[r][c] == m[r][c]
        }),
{
}

/// A moment that is released at one end only, where that end transmits the
/// shear, is refused, whatever the other releases are. So is a shear that is
/// released while both ends transmit the moment.
pub proof fn lemma_partial_release_refused(start: FrameEndReleases, end: FrameEndReleases)
    ensures
        ({
            let free = FrameEndRelease::Free;
            let fixed = FrameEndRelease::Fixed;
            let refused = !releases_supported(start, end);
            &&& start.Mz == free && end.Mz == fixed && start.Vy == fixed ==> refused
            &&& end.Mz == free && start.Mz == fixed && end.Vy == fixed ==> refused
            &&& start.My == free && end.My == fixed && start.Vz == fixed ==> refused
            &&& end.My == free && start.My == fixed && end.Vz == fixed ==> refused
            &&& start.Mz == fixed && end.Mz == fixed && (start.Vy == free || end.Vy == free)
                ==> refused
            &&& start.My == fixed && end.My == fixed && (start.Vz == free || end.Vz == free)
                ==> refused
        }),
{
}

/// The rows that each index map names.
proof fn lemma_rows()
    ensures
        forall|r: int| #[trigger] slot(axial_rows(), r).is_some() == is_axial_row(r),
        forall|r: int| #[trigger] slot(torsion_rows(), r).is_some() == is_torsion_row(r),
        forall|r: int| #[trigger] slot(bending_z_rows(), r).is_some() == is_bending_z_row(r),
        forall|r: int| #[trigger] slot(bending_y_rows(), r).is_some() == is_bending_y_row(r),
{
    assert forall|r: int| #[trigger] slot(axial_rows(), r).is_some() == is_axial_row(r) by {
        lemma_slot_of_two(0, 6, r);
    }
    assert forall|r: int| #[trigger] slot(torsion_rows(), r).is_some() == is_torsion_row(r) by {
        lemma_slot_of_two(3, 9, r);
    }
    assert forall|r: int| #[trigger]
        slot(bending_z_rows(), r).is_some() == is_bending_z_row(r) by {
        lemma_slot_of_four(1, 5, 7, 11, r);
    }
    assert forall|r: int| #[trigger]
        slot(bending_y_rows(), r).is_some() == is_bending_y_row(r) by {
        lemma_slot_of_four(2, 4, 8, 10, r);
    }
}

/// Whether the releases of one plane leave the member no bending stiffness in it.
fn plane_is_released(
    start_moment: FrameEndRelease,
    start_shear: FrameEndRelease,
    end_moment: FrameEndRelease,
    end_shear: FrameEndRelease,
) -> (b: bool)
    ensures
        b == plane_released(start_moment, start_shear, end_moment, end_shear),
{
    let free = FrameEndRelease::Free;
    (start_moment == free && end_moment == free) || (start_moment == free && start_shear == free)
        || (end_moment == free && end_shear == free)
}

/// Whether the releases of one plane are a partial release.
fn plane_is_unsupported(
    start_moment: FrameEndRelease,
    start_shear: FrameEndRelease,
    end_moment: FrameEndRelease,
    end_shear: FrameEndRelease,
) -> (b: bool)
    ensures
        b == plane_unsupported(start_moment, start_shear, end_moment, end_shear),
{
    let free = FrameEndRelease::Free;
    !plane_is_released(start_moment, start_shear, end_moment, end_shear) && (start_moment == free
        || end_moment == free || start_shear == free || end_shear == free)
}

/// Whether the library has a stiffness for a member with these end releases.
pub fn end_releases_supported(start: &FrameEndReleases, end: &FrameEndReleases) -> (b: bool)
    ensures
        b == releases_supported(*start, *end),
{
    let z = plane_is_unsupported(start.Mz, start.Vy, end.Mz, end.Vy);
    let y = plane_is_unsupported(start.My, start.Vz, end.My, end.Vz);
    !z && !y
}

/// `m` with `zero` wherever two of `rows` meet.
spec fn wiped<S>(m: Seq<Seq<S>>, rows: Seq<usize>, zero: S) -> Seq<Seq<S>> {
    Seq::new(
        m.len(),
        |r: int|
            Seq::new(
                m[r].len(),
                |c: int|
                    if slot(rows, r).is_some() && slot(rows, c).is_some() {
                        zero
                    } else {
                        m[r][c]
                    },
            ),
    )
}

/// `m` with the blocks wiped one after the other that the releases clear.
spec fn released_in_steps<S>(
    m: Seq<Seq<S>>,
    start: FrameEndReleases,
    end: FrameEndReleases,
    zero: S,
) -> Seq<Seq<S>> {
    let a = if axial_released(start, end) {
        wiped(m, axial_rows(), zero)
    } else {
        m
    };
    let t = if torsion_released(start, end) {
        wiped(a, torsion_rows(), zero)
    } else {
        a
    };
    let z = if bending_z_released(start, end) {
        wiped(t, bending_z_rows(), zero)
    } else {
        t
    };
    if bending_y_released(start, end) {
        wiped(z, bending_y_rows(), zero)
    } else {
        z
    }
}

/// Wiping the released blocks one after the other clears exactly the entries
/// that the releases clear.
proof fn lemma_released_in_steps<S>(
    m: Seq<Seq<S>>,
    start: FrameEndReleases,
    end: FrameEndReleases,
    zero: S,
)
    requires
        is_square(m, 12),
    ensures
        released_in_steps(m, start, end, zero) == released(m, start, end, zero),
{
    lemma_rows();
    assert(released_in_steps(m, start, end, zero) =~~= released(m, start, end, zero));
}

/// Puts `zero` wherever two of `rows` meet.
fn clear_two<S: Copy>(m: &mut Matrix12<S>, rows: [usize; 2], zero: S)
    requires
        rows[0] < 12,
        rows[1] < 12,
    ensures
        grid(*final(m)) == wiped(grid(*old(m)), rows@, zero),
{
    let stiffness_matrix = [[zero; 2]; 2];
    let block = SingleActionStiffnessMatrix2by2 { index_map: rows, stiffness_matrix };
    merge_single_action_into_complete_2by2(&block, m);
    proof {
        assert forall|r: int| true implies match #[trigger] slot(rows@, r) {
            Some(i) => 0 <= i < 2,
            None => true,
        } by {
            lemma_slot_names(rows@, r);
        }
        assert(grid(*m) =~~= wiped(grid(*old(m)), rows@, zero));
    }
}

/// Puts `zero` wherever two of `rows` meet.
fn clear_four<S: Copy>(m: &mut Matrix12<S>, rows: [usize; 4], zero: S)
    requires
        rows[0] < 12,
        rows[1] < 12,
        rows[2] < 12,
        rows[3] < 12,
    ensures
        grid(*final(m)) == wiped(grid(*old(m)), rows@, zero),
{
    let stiffness_matrix = [[zero; 4]; 4];
    let block = SingleActionStiffnessMatrix4by4 { index_map: rows, stiffness_matrix };
    merge_single_action_into_complete_4by4(&block, m);
    proof {
        assert forall|r: int| true implies match #[trigger] slot(rows@, r) {
            Some(i) => 0 <= i < 4,
            None => true,
        } by {
            lemma_slot_names(rows@, r);
        }
        assert(grid(*m) =~~= wiped(grid(*old(m)), rows@, zero));
    }
}

/// Applies the end releases of `frame` to its stiffness `m`: every entry that
/// couples two degrees of freedom of a released action becomes `zero`.
///
/// A partial release of bending and shear in a plane is refused, and `m` is
/// then left as it was.
pub fn apply_end_releases<S: Copy>(
    m: &mut Matrix12<S>,
    frame: &FrameElement<S>,
    zero: S,
) -> (r: Result<(), AnalysisError>)
    ensures
        match r {
            Ok(_) => {
                &&& releases_supported(frame.start_releases, frame.end_releases)
                &&& grid(*final(m)) == released(
                    grid(*old(m)),
                    frame.start_releases,
                    frame.end_releases,
                    zero,
                )
            },
            Err(e) => {
                &&& !releases_supported(frame.start_releases, frame.end_releases)
                &&& e == AnalysisError::UnsupportedEndReleases
                &&& *final(m) == *old(m)
            },
        },
{
    let start = &frame.start_releases;
    let end = &frame.end_releases;
    if !end_releases_supported(start, end) {
        return Err(AnalysisError::UnsupportedEndReleases);
    }
    proof {
        lemma_released_in_steps(grid(*m), *start, *end, zero);
    }
    if start.A == FrameEndRelease::Free || end.A == FrameEndRelease::Free {
        let rows: [usize; 2] = [0, 6];
        clear_two(m, rows, zero);
    }
    if start.T == FrameEndRelease::Free || end.T == FrameEndRelease::Free {
        let rows: [usize; 2] = [3, 9];
        clear_two(m, rows, zero);
    }
    if plane_is_released(start.Mz, start.Vy, end.Mz, end.Vy) {
        let rows: [usize; 4] = [1, 5, 7, 11];
        clear_four(m, rows, zero);
    }
    if plane_is_released(start.My, start.Vz, end.My, end.Vz) {
        let rows: [usize; 4] = [2, 4, 8, 10];
        clear_four(m, rows, zero);
    }
    Ok(())
}

} // verus!
