//! Assembly of the global stiffness from the stiffness of the members.
//!
//! Row `i` of a member's world stiffness belongs to a degree of freedom of the
//! member's start node where `i` is below 6, and of its end node otherwise.
//! Assembly sends every significant entry of every member to the pair of
//! world degrees of freedom that its row and column belong to.

pub mod global;

use crate::analysis::global::{
    accumulated, gathered, lemma_pairs_after_concat, lemma_scattered_gathers,
    lemma_values_at_concat, merge_stiffness_matrix_at_dof, pairs_after, scattered, values_at,
    Contribution, GlobalStiffness,
};
use crate::data::{AnalysisData, ElementData};
use crate::error::AnalysisError;
use crate::models::frame::{FrameElement, FrameStiffness};
use vstd::prelude::*;

verus! {

/// The world degree of freedom behind row `i` of a member's matrix, for a
/// member between nodes with degrees of freedom `start` and `end`.
pub open spec fn world_dof(start: Seq<usize>, end: Seq<usize>, i: int) -> usize {
    if i < 6 {
        start[i]
    } else {
        end[i - 6]
    }
}

/// The contributions of a member from the first `count` entries of its world
/// stiffness, taken row by row: one for each entry that is significant.
pub open spec fn member_contributions_among<S>(
    stiffness: FrameStiffness<S>,
    start: Seq<usize>,
    end: Seq<usize>,
    count: nat,
) -> Seq<Contribution<S>>
    decreases count,
{
    if count == 0 {
        Seq::empty()
    } else {
        let k = count - 1;
        let before = member_contributions_among(stiffness, start, end, k as nat);
        if stiffness.significant[k / 12][k % 12] {
            before.push(
                Contribution {
                    row: world_dof(start, end, k / 12),
                    column: world_dof(start, end, k % 12),
                    value: stiffness.world[k / 12][k % 12],
                },
            )
        } else {
            before
        }
    }
}

/// The contributions of a member to the global stiffness.
pub open spec fn member_contributions<S>(
    stiffness: FrameStiffness<S>,
    start: Seq<usize>,
    end: Seq<usize>,
) -> Seq<Contribution<S>> {
    member_contributions_among(stiffness, start, end, 144)
}

/// What `frame` contributes to the global stiffness, or why it cannot: its
/// stiffness has not been stored, or one of its nodes is not in the model.
pub open spec fn frame_contributions<S>(
    frame: FrameElement<S>,
    elements: ElementData<S>,
    analysis: AnalysisData<S>,
) -> Result<Seq<Contribution<S>>, AnalysisError> {
    if !analysis.frame_stiffnesses.contains(frame.id@) {
        Err(AnalysisError::ElementStiffnessNotFound(frame.id))
    } else if !elements.nodes.contains(frame.start_node_id@) {
        Err(AnalysisError::NodeNotFound(frame.start_node_id))
    } else if !elements.nodes.contains(frame.end_node_id@) {
        Err(AnalysisError::NodeNotFound(frame.end_node_id))
    } else {
        Ok(
            member_contributions(
                analysis.frame_stiffnesses@[frame.id@],
                elements.nodes@[frame.start_node_id@].degrees_of_freedom@,
                elements.nodes@[frame.end_node_id@].degrees_of_freedom@,
            ),
        )
    }
}

/// What the first `count` members of the model contribute, one member after
/// the other in the order of the model, or the failure of the first member
/// that cannot contribute.
pub open spec fn contributions_among<S>(
    elements: ElementData<S>,
    analysis: AnalysisData<S>,
    count: nat,
) -> Result<Seq<Contribution<S>>, AnalysisError>
    decreases count,
{
    if count == 0 {
        Ok(Seq::empty())
    } else {
        match contributions_among(elements, analysis, (count - 1) as nat) {
            Err(e) => Err(e),
            Ok(before) => match frame_contributions(
                elements.frames.values()[count - 1],
                elements,
                analysis,
            ) {
                Err(e) => Err(e),
                Ok(own) => Ok(before + own),
            },
        }
    }
}

/// What all members of the model contribute, or the failure of the first
/// member that cannot contribute.
pub open spec fn model_contributions<S>(
    elements: ElementData<S>,
    analysis: AnalysisData<S>,
) -> Result<Seq<Contribution<S>>, AnalysisError> {
    contributions_among(elements, analysis, elements.frames.values().len())
}

/// One more contribution after `contributions` is accumulated on what they
/// gave.
proof fn lemma_scattered_push<S>(
    map: Map<(usize, usize), Seq<S>>,
    contributions: Seq<Contribution<S>>,
    next: Contribution<S>,
)
    ensures
        scattered(map, contributions.push(next)) == accumulated(
            scattered(map, contributions),
            next.row,
            next.column,
            next.value,
        ),
        contributions.push(next).drop_last() == contributions,
{
}

/// The world degree of freedom behind row `i` of a member's matrix.
fn world_dof_of(start: &[usize; 6], end: &[usize; 6], i: usize) -> (dof: usize)
    requires
        i < 12,
    ensures
        dof == world_dof(start@, end@, i as int),
{
    if i < 6 {
        start[i]
    } else {
        end[i - 6]
    }
}

/// Sends the significant entries of the world stiffness of `frame` to the
/// pairs of world degrees of freedom that they belong to.
///
/// Fails, in this order, where no stiffness is stored for the member, where
/// the model lacks its start node, and where it lacks its end node.
pub fn merge_stiffness_matrix_at_frame_dofs<S: Copy>(
    assembled: GlobalStiffness<S>,
    frame: &FrameElement<S>,
    elements: &ElementData<S>,
    analysis: &AnalysisData<S>,
) -> (r: Result<GlobalStiffness<S>, AnalysisError>)
    requires
        assembled.wf(),
        elements.wf(),
        analysis.wf(),
    ensures
        match frame_contributions(*frame, *elements, *analysis) {
            Ok(own) => r matches Ok(g) && g.wf() && g@ == scattered(assembled@, own) && g.keys()
                == pairs_after(assembled.keys(), own),
            Err(e) => r matches Err(failure) && failure == e,
        },
{
    let stiffness = match analysis.frame_stiffnesses.get(frame.id.as_str()) {
        Some(x) => x,
        None => {
            return Err(AnalysisError::ElementStiffnessNotFound(frame.id.clone()));
        },
    };
    let start_dofs = match frame.start_node(elements) {
        Some(x) => &x.degrees_of_freedom,
        None => {
            return Err(AnalysisError::NodeNotFound(frame.start_node_id.clone()));
        },
    };
    let end_dofs = match frame.end_node(elements) {
        Some(x) => &x.degrees_of_freedom,
        None => {
            return Err(AnalysisError::NodeNotFound(frame.end_node_id.clone()));
        },
    };

    let ghost initial = assembled@;
    let ghost initial_keys = assembled.keys();
    let mut assembled = assembled;
    let mut i: usize = 0;
    while i < 12
        invariant
            i <= 12,
            assembled.wf(),
            assembled@ == scattered(
                initial,
                member_contributions_among(*stiffness, start_dofs@, end_dofs@, (12 * i) as nat),
            ),
            assembled.keys() == pairs_after(
                initial_keys,
                member_contributions_among(*stiffness, start_dofs@, end_dofs@, (12 * i) as nat),
            ),
        decreases 12 - i,
    {
        let mut j: usize = 0;
        while j < 12
            invariant
                i < 12,
                j <= 12,
                assembled.wf(),
                assembled@ == scattered(
                    initial,
                    member_contributions_among(
                        *stiffness,
                        start_dofs@,
                        end_dofs@,
                        (12 * i + j) as nat,
                    ),
                ),
                assembled.keys() == pairs_after(
                    initial_keys,
                    member_contributions_among(
                        *stiffness,
                        start_dofs@,
                        end_dofs@,
                        (12 * i + j) as nat,
                    ),
                ),
            decreases 12 - j,
        {
            let ghost before = member_contributions_among(
                *stiffness,
                start_dofs@,
                end_dofs@,
                (12 * i + j) as nat,
            );
            // Entries that are not significant count as zero.
            if stiffness.significant[i][j] {
                let row = world_dof_of(start_dofs, end_dofs, i);
                let column = world_dof_of(start_dofs, end_dofs, j);
                let value = stiffness.world[i][j];
                proof {
                    lemma_scattered_push(initial, before, Contribution { row, column, value });
                }
                assembled = merge_stiffness_matrix_at_dof(assembled, row, column, value);
            }
            j += 1;
        }
        i += 1;
    }
    Ok(assembled)
}

/// The global stiffness of the model: for each pair of world degrees of
/// freedom, the significant coefficients that the members contribute to it,
/// member after member in the order of the model.
///
/// Fails with the failure of the first member that cannot contribute.
pub fn assemble_world_stiffness_matrix<S: Copy>(
    elements: &ElementData<S>,
    analysis: &AnalysisData<S>,
) -> (r: Result<GlobalStiffness<S>, AnalysisError>)
    requires
        elements.wf(),
        analysis.wf(),
    ensures
        match model_contributions(*elements, *analysis) {
            Ok(all) => r matches Ok(g) && g.wf() && g@ == gathered(all) && g.keys() == pairs_after(
                Seq::empty(),
                all,
            ),
            Err(e) => r matches Err(failure) && failure == e,
        },
{
    let mut assembled = GlobalStiffness::new();
    let count = elements.frames.len();
    let mut n: usize = 0;
    proof {
        let nothing = Map::<(usize, usize), Seq<S>>::empty();
    }
    while n < count
        invariant
            n <= count,
            count == elements.frames.values().len(),
            elements.wf(),
            analysis.wf(),
            assembled.wf(),
            contributions_among(*elements, *analysis, n as nat) is Ok,
            assembled@ == gathered(contributions_among(*elements, *analysis, n as nat).unwrap()),
            assembled.keys() == pairs_after(
                Seq::empty(),
                contributions_among(*elements, *analysis, n as nat).unwrap(),
            ),
        decreases count - n,
    {
        let frame = elements.frames.value_at(n);
        let ghost before = contributions_among(*elements, *analysis, n as nat).unwrap();
        proof {
            match frame_contributions(*frame, *elements, *analysis) {
                Ok(own) => {
                    lemma_scattered_gathers(before, own);
                    lemma_pairs_after_concat(Seq::empty(), before, own);
                },
                Err(e) => {
                    lemma_first_failure(*elements, *analysis, n as nat + 1, count as nat);
                },
            }
        }
        let merged = merge_stiffness_matrix_at_frame_dofs(assembled, frame, elements, analysis);
        assembled = match merged {
            Ok(next) => next,
            Err(e) => {
                return Err(e);
            },
        };
        n += 1;
    }
    Ok(assembled)
}

/// Once the first `count` members fail, so do the first `more`, and with the
/// same failure.
proof fn lemma_first_failure<S>(
    elements: ElementData<S>,
    analysis: AnalysisData<S>,
    count: nat,
    more: nat,
)
    requires
        count <= more,
        contributions_among(elements, analysis, count) is Err,
    ensures
        contributions_among(elements, analysis, more) == contributions_among(
            elements,
            analysis,
            count,
        ),
    decreases more - count,
{
    if count < more {
        lemma_first_failure(elements, analysis, count, (more - 1) as nat);
    }
}

/// Each member adds its own contributions to those of the members before it:
/// the values that a pair of degrees of freedom receives from the first
/// `count + 1` members are those from the first `count`, followed by those
/// of the next member alone.
pub proof fn lemma_member_superposes<S>(
    elements: ElementData<S>,
    analysis: AnalysisData<S>,
    count: nat,
    row: usize,
    column: usize,
)
    requires
        count < elements.frames.values().len(),
        contributions_among(elements, analysis, count + 1) is Ok,
    ensures
        contributions_among(elements, analysis, count) is Ok,
        frame_contributions(elements.frames.values()[count as int], elements, analysis) is Ok,
        ({
            let before = contributions_among(elements, analysis, count).unwrap();
            let own = frame_contributions(
                elements.frames.values()[count as int],
                elements,
                analysis,
            ).unwrap();
            let after = contributions_among(elements, analysis, count + 1).unwrap();
            values_at(after, row, column) == values_at(before, row, column) + values_at(
                own,
                row,
                column,
            )
        }),
{
    let before = contributions_among(elements, analysis, count).unwrap();
    let own = frame_contributions(
        elements.frames.values()[count as int],
        elements,
        analysis,
    ).unwrap();
    lemma_values_at_concat(before, own, row, column);
}

/// In a model of two members, what a pair of degrees of freedom receives is
/// what the first member alone gives it followed by what the second member
/// alone gives it; the pair is part of the global stiffness where either
/// member gives it something.
pub proof fn lemma_two_members_superpose<S>(
    elements: ElementData<S>,
    analysis: AnalysisData<S>,
    row: usize,
    column: usize,
)
    requires
        elements.frames.values().len() == 2,
        model_contributions(elements, analysis) is Ok,
    ensures
        frame_contributions(elements.frames.values()[0], elements, analysis) is Ok,
        frame_contributions(elements.frames.values()[1], elements, analysis) is Ok,
        ({
            let first = gathered(
                frame_contributions(elements.frames.values()[0], elements, analysis).unwrap(),
            );
            let second = gathered(
                frame_contributions(elements.frames.values()[1], elements, analysis).unwrap(),
            );
            let both = gathered(model_contributions(elements, analysis).unwrap());
            let key = (row, column);
            &&& both.contains_key(key) == (first.contains_key(key) || second.contains_key(key))
            &&& first.contains_key(key) && second.contains_key(key) ==> both[key] == first[key]
                + second[key]
            &&& first.contains_key(key) && !second.contains_key(key) ==> both[key] == first[key]
            &&& !first.contains_key(key) && second.contains_key(key) ==> both[key] == second[key]
        }),
{
    let none = Seq::<Contribution<S>>::empty();
    let a = frame_contributions(elements.frames.values()[0], elements, analysis).unwrap();
    let b = frame_contributions(elements.frames.values()[1], elements, analysis).unwrap();
    assert(contributions_among(elements, analysis, 0) matches Ok(s) && s == none);
    assert(contributions_among(elements, analysis, 1) is Ok);
    lemma_values_at_concat(a, b, row, column);
}

} // verus!
