//! Single-action stiffness blocks and their placement in the 12 by 12 member
//! matrix.
//!
//! A block couples the degrees of freedom that one internal action involves:
//! two for axial force and for torsion, four for bending in a plane. Its index
//! map names, for each of its rows and columns, the row and column of the
//! member matrix that it stands for.

use crate::matrix::{grid, is_square, Matrix12, Matrix2, Matrix4};
use vstd::prelude::*;

verus! {

/// A 2 by 2 stiffness block with the rows of the member matrix it belongs to.
#[derive(Clone, Copy, Debug)]
pub struct SingleActionStiffnessMatrix2by2<S> {
    pub index_map: [usize; 2],
    pub stiffness_matrix: Matrix2<S>,
}

/// A 4 by 4 stiffness block with the rows of the member matrix it belongs to.
#[derive(Clone, Copy, Debug)]
pub struct SingleActionStiffnessMatrix4by4<S> {
    pub index_map: [usize; 4],
    pub stiffness_matrix: Matrix4<S>,
}

/// The last place at which `map` names `target`, if it names it at all.
pub open spec fn slot(map: Seq<usize>, target: int) -> Option<int>
    decreases map.len(),
{
    if map.len() == 0 {
        None
    } else if map.last() == target {
        Some(map.len() - 1)
    } else {
        slot(map.drop_last(), target)
    }
}

/// Every entry of `map` is a row of an `n` by `n` matrix.
pub open spec fn within(map: Seq<usize>, n: nat) -> bool {
    forall|k: int| 0 <= k < map.len() ==> #[trigger] map[k] < n
}

/// `complete` after `block` has been written over it through `map`: entry
/// `(r, c)` is the block's entry `(i, j)` where `map` names `r` at `i` and `c`
/// at `j`, and is untouched where `map` does not name both. Where `map` names
/// a row more than once, the last place counts.
pub open spec fn merged<S>(complete: Seq<Seq<S>>, map: Seq<usize>, block: Seq<Seq<S>>) -> Seq<
    Seq<S>,
> {
    Seq::new(
        complete.len(),
        |r: int|
            Seq::new(
                complete[r].len(),
                |c: int|
                    match (slot(map, r), slot(map, c)) {
                        (Some(i), Some(j)) => block[i][j],
                        _ => complete[r][c],
                    },
            ),
    )
}

/// `complete` after the first `rows` rows of `block` have been written.
spec fn merged_rows<S>(
    complete: Seq<Seq<S>>,
    map: Seq<usize>,
    block: Seq<Seq<S>>,
    rows: int,
) -> Seq<Seq<S>> {
    Seq::new(
        complete.len(),
        |r: int|
            Seq::new(
                complete[r].len(),
                |c: int|
                    match (slot(map.take(rows), r), slot(map, c)) {
                        (Some(i), Some(j)) => block[i][j],
                        _ => complete[r][c],
                    },
            ),
    )
}

/// `complete` after the first `rows` rows of `block` and the first `columns`
/// entries of the next row have been written.
spec fn merged_entries<S>(
    complete: Seq<Seq<S>>,
    map: Seq<usize>,
    block: Seq<Seq<S>>,
    rows: int,
    columns: int,
) -> Seq<Seq<S>> {
    Seq::new(
        complete.len(),
        |r: int|
            Seq::new(
                complete[r].len(),
                |c: int|
                    if map[rows] == r && slot(map.take(columns), c).is_some() {
                        block[rows][slot(map.take(columns), c).unwrap()]
                    } else {
                        merged_rows(complete, map, block, rows)[r][c]
                    },
            ),
    )
}

/// One more entry of `map` either is the last place of `target` or leaves the
/// last place where it was.
pub proof fn lemma_slot_step(map: Seq<usize>, k: int, target: int)
    requires
        0 <= k < map.len(),
    ensures
        slot(map.take(k + 1), target) == if map[k] == target {
            Some(k)
        } else {
            slot(map.take(k), target)
        },
{
    assert(map.take(k + 1).drop_last() =~= map.take(k));
}

/// A place that `slot` gives lies within `map` and names `target`.
pub proof fn lemma_slot_names(map: Seq<usize>, target: int)
    ensures
        match slot(map, target) {
            Some(i) => 0 <= i < map.len() && map[i] == target,
            None => forall|k: int| 0 <= k < map.len() ==> map[k] != target,
        },
    decreases map.len(),
{
    if map.len() > 0 && map.last() != target {
        lemma_slot_names(map.drop_last(), target);
        if slot(map, target).is_none() {
            assert forall|k: int| 0 <= k < map.len() implies map[k] != target by {
                if k < map.len() - 1 {
                    assert(map.drop_last()[k] == map[k]);
                }
            }
        }
    }
}

/// The last place of `target` among the two entries `a` and `b`.
pub open spec fn place_of_two(a: usize, b: usize, target: int) -> Option<int> {
    if b == target {
        Some(1)
    } else if a == target {
        Some(0)
    } else {
        None
    }
}

/// The last place of `target` among the four entries `a` to `d`.
pub open spec fn place_of_four(a: usize, b: usize, c: usize, d: usize, target: int) -> Option<int> {
    if d == target {
        Some(3)
    } else if c == target {
        Some(2)
    } else {
        place_of_two(a, b, target)
    }
}

/// The last place of `target` in a map of two entries.
pub proof fn lemma_slot_of_two(a: usize, b: usize, target: int)
    ensures
        slot(seq![a, b], target) == place_of_two(a, b, target),
{
    let map = seq![a, b];
    lemma_slot_step(map, 0, target);
    lemma_slot_step(map, 1, target);
}

/// The last place of `target` in a map of four entries.
pub proof fn lemma_slot_of_four(a: usize, b: usize, c: usize, d: usize, target: int)
    ensures
        slot(seq![a, b, c, d], target) == place_of_four(a, b, c, d, target),
{
    let map = seq![a, b, c, d];
    lemma_slot_step(map, 0, target);
    lemma_slot_step(map, 1, target);
    lemma_slot_step(map, 2, target);
    lemma_slot_step(map, 3, target);
}

/// Writes `block` over `complete` through `map`, row by row.
fn merge_block<S: Copy, const N: usize>(
    map: &[usize; N],
    block: &[[S; N]; N],
    complete: &mut Matrix12<S>,
)
    requires
        within(map@, 12),
    ensures
        grid(*final(complete)) == merged(grid(*old(complete)), map@, grid(*block)),
{
    let ghost before = grid(*complete);
    proof {
        assert(grid(*complete) =~~= merged_rows(before, map@, grid(*block), 0));
    }
    let mut i: usize = 0;
    while i < N
        invariant
            i <= N,
            within(map@, 12),
            is_square(before, 12),
            grid(*complete) == merged_rows(before, map@, grid(*block), i as int),
        decreases N - i,
    {
        let target_i = map[i];
        let mut j: usize = 0;
        proof {
            assert(grid(*complete) =~~= merged_entries(before, map@, grid(*block), i as int, 0));
        }
        while j < N
            invariant
                i < N,
                j <= N,
                target_i == map[i as int],
                within(map@, 12),
                is_square(before, 12),
                grid(*complete) == merged_entries(
                    before,
                    map@,
                    grid(*block),
                    i as int,
                    j as int,
                ),
            decreases N - j,
        {
            let target_j = map[j];
            let ghost previous = grid(*complete);
            complete[target_i][target_j] = block[i][j];
            proof {
                assert forall|c: int|
                    slot(map@.take(j + 1), c) == if map[j as int] == c {
                        Some(j as int)
                    } else {
                        slot(map@.take(j as int), c)
                    } by {
                    lemma_slot_step(map@, j as int, c);
                }
                let next = merged_entries(before, map@, grid(*block), i as int, j + 1);
                let now = grid(*complete);
                assert forall|r: int, c: int| 0 <= r < 12 && 0 <= c < 12 implies now[r][c]
                    == next[r][c] by {
                    if r != target_i || c != target_j {
                        assert(now[r][c] == previous[r][c]);
                    }
                }
                assert(now =~~= next);
            }
            j += 1;
        }
        proof {
            assert forall|r: int|
                slot(map@.take(i + 1), r) == if map[i as int] == r {
                    Some(i as int)
                } else {
                    slot(map@.take(i as int), r)
                } by {
                lemma_slot_step(map@, i as int, r);
            }
            assert(map@.take(N as int) =~= map@);
            assert(grid(*complete) =~~= merged_rows(before, map@, grid(*block), i + 1));
        }
        i += 1;
    }
    proof {
        assert(map@.take(N as int) =~= map@);
    }
}

/// Writes a 2 by 2 block over `complete` at the rows and columns that its
/// index map names. The index map must name rows of `complete`.
pub fn merge_single_action_into_complete_2by2<S: Copy>(
    single: &SingleActionStiffnessMatrix2by2<S>,
    complete: &mut Matrix12<S>,
)
    requires
        within(single.index_map@, 12),
    ensures
        grid(*final(complete)) == merged(
            grid(*old(complete)),
            single.index_map@,
            grid(single.stiffness_matrix),
        ),
{
    merge_block(&single.index_map, &single.stiffness_matrix, complete);
}

/// Writes a 4 by 4 block over `complete` at the rows and columns that its
/// index map names. The index map must name rows of `complete`.
pub fn merge_single_action_into_complete_4by4<S: Copy>(
    single: &SingleActionStiffnessMatrix4by4<S>,
    complete: &mut Matrix12<S>,
)
    requires
        within(single.index_map@, 12),
    ensures
        grid(*final(complete)) == merged(
            grid(*old(complete)),
            single.index_map@,
            grid(single.stiffness_matrix),
        ),
{
    merge_block(&single.index_map, &single.stiffness_matrix, complete);
}

} // verus!
