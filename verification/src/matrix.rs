//! Small dense square matrices held as arrays of rows, and the sequence model
//! that the contracts of this crate use for them.
//!
//! The library never computes with the entries of a matrix: it places, moves
//! and clears them. The entry type `S` is therefore left open; a caller picks
//! the number type and supplies the value that stands for zero where one is
//! needed.

use vstd::prelude::*;

verus! {

/// A 2 by 2 matrix, row by row.
pub type Matrix2<S> = [[S; 2]; 2];

/// A 3 by 3 matrix, row by row.
pub type Matrix3<S> = [[S; 3]; 3];

/// A 4 by 4 matrix, row by row.
pub type Matrix4<S> = [[S; 4]; 4];

/// A 12 by 12 matrix, row by row: six degrees of freedom at each end of a member.
pub type Matrix12<S> = [[S; 12]; 12];

/// The rows of a square array, each as the sequence of its entries.
pub open spec fn grid<S, const N: usize>(m: [[S; N]; N]) -> Seq<Seq<S>> {
    Seq::new(N as nat, |i: int| m[i]@)
}

/// `m` has `n` rows of `n` entries each.
pub open spec fn is_square<S>(m: Seq<Seq<S>>, n: nat) -> bool {
    &&& m.len() == n
    &&& forall|i: int| 0 <= i < n ==> (#[trigger] m[i]).len() == n
}

/// Every entry equals its mirror image across the diagonal.
pub open spec fn is_symmetric<S>(m: Seq<Seq<S>>) -> bool {
    forall|i: int, j: int|
        0 <= i < m.len() && 0 <= j < m.len() ==> #[trigger] m[i][j] == m[j][i]
}

/// The `n` by `n` matrix whose entries all equal `value`.
pub open spec fn uniform<S>(n: nat, value: S) -> Seq<Seq<S>> {
    Seq::new(n, |i: int| Seq::new(n, |j: int| value))
}

/// The `n` by `n` matrix with `one` on the diagonal and `zero` elsewhere.
pub open spec fn identity<S>(n: nat, one: S, zero: S) -> Seq<Seq<S>> {
    Seq::new(n, |i: int| Seq::new(n, |j: int| if i == j { one } else { zero }))
}

/// Arrays with the same model are the same array.
pub proof fn lemma_grid_determines<S, const N: usize>(a: [[S; N]; N], b: [[S; N]; N])
    requires
        grid(a) == grid(b),
    ensures
        a == b,
{
    assert forall|i: int| 0 <= i < N implies a[i] == b[i] by {
        assert(grid(a)[i] == grid(b)[i]);
    }
}

/// A 12 by 12 matrix with every entry equal to `value`.
pub fn filled12<S: Copy>(value: S) -> (m: Matrix12<S>)
    ensures
        grid(m) == uniform(12, value),
        forall|i: int, j: int| 0 <= i < 12 && 0 <= j < 12 ==> #[trigger] m[i][j] == value,
{
    let m = [[value; 12]; 12];
    assert(grid(m) =~~= uniform(12, value));
    m
}

} // verus!
