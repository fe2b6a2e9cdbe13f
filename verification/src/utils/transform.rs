//! The transform between world axes and the local axes of a member.

use crate::matrix::{filled12, grid, identity, Matrix12, Matrix3};
use vstd::prelude::*;

verus! {

/// Entry `(i, j)` of the 12 by 12 matrix that carries `rotation` four times
/// on its diagonal and `zero` everywhere else.
pub open spec fn block_entry<S>(rotation: Seq<Seq<S>>, zero: S, i: int, j: int) -> S {
    if i / 3 == j / 3 {
        rotation[i % 3][j % 3]
    } else {
        zero
    }
}

/// The 12 by 12 matrix that carries `rotation` four times on its diagonal,
/// once for the translations and once for the rotations of each end, and
/// `zero` everywhere else.
pub open spec fn block_diagonal<S>(rotation: Seq<Seq<S>>, zero: S) -> Seq<Seq<S>> {
    Seq::new(12, |i: int| Seq::new(12, |j: int| block_entry(rotation, zero, i, j)))
}

/// The transform from world to local coordinates of the twelve degrees of
/// freedom of a member, from the 3 by 3 rotation from world to local axes.
pub fn world_to_local_transform<S: Copy>(rotation: &Matrix3<S>, zero: S) -> (transform: Matrix12<S>)
    ensures
        grid(transform) == block_diagonal(grid(*rotation), zero),
{
    let ghost cosines = grid(*rotation);
    let mut transform = filled12(zero);
    let mut i: usize = 0;
    while i < 12
        invariant
            i <= 12,
            cosines == grid(*rotation),
            forall|r: int, c: int|
                0 <= r < 12 && 0 <= c < 12 ==> #[trigger] transform[r][c] == if r < i {
                    block_entry(cosines, zero, r, c)
                } else {
                    zero
                },
        decreases 12 - i,
    {
        // The block of row `i` begins at column `first`.
        let first = i / 3 * 3;
        let mut j: usize = 0;
        while j < 3
            invariant
                i < 12,
                j <= 3,
                first == i / 3 * 3,
                cosines == grid(*rotation),
                forall|r: int, c: int|
                    0 <= r < 12 && 0 <= c < 12 ==> #[trigger] transform[r][c] == if r < i || (r
                        == i && c < first + j) {
                        block_entry(cosines, zero, r, c)
                    } else {
                        zero
                    },
            decreases 3 - j,
        {
            transform[i][first + j] = rotation[i - first][j];
            j += 1;
        }
        i += 1;
    }
    assert(grid(transform) =~~= block_diagonal(cosines, zero));
    transform
}

/// Where the local axes are the world axes, the transform is the identity.
pub proof fn lemma_identity_rotation_gives_identity_transform<S>(one: S, zero: S)
    ensures
        block_diagonal(identity(3, one, zero), zero) == identity(12, one, zero),
{
    assert(block_diagonal(identity(3, one, zero), zero) =~~= identity(12, one, zero));
}

} // verus!
