//! The model store and the failures of assembly.

use quick_fea::analysis::global::{merge_stiffness_matrix_at_dof, GlobalStiffness};
use quick_fea::analysis::{assemble_world_stiffness_matrix, merge_stiffness_matrix_at_frame_dofs};
use quick_fea::error::AnalysisError;
use quick_fea::models::frame::{
    CrossSection, FrameElement, FrameEndReleases, FrameGeometry,
};
use quick_fea::models::material::IsotropicMaterial;
use quick_fea::models::node::Node;
use quick_fea::registry::Registry;
use quick_fea::{
    add_frame_element, add_node, get_frame_element_by_id, get_node_by_id,
    update_frame_element_stiffness, AnalysisData, ElementData,
};

fn node(id: &str, first_dof: usize, x: f64) -> Node<f64> {
    Node {
        id: id.to_string(),
        coordinate: [x, 0., 0.],
        degrees_of_freedom: [
            first_dof,
            first_dof + 1,
            first_dof + 2,
            first_dof + 3,
            first_dof + 4,
            first_dof + 5,
        ],
    }
}

fn member(id: &str, start: &str, end: &str) -> FrameElement<f64> {
    FrameElement {
        id: id.to_string(),
        start_node_id: start.to_string(),
        end_node_id: end.to_string(),
        start_releases: FrameEndReleases::fully_fixed(),
        end_releases: FrameEndReleases::fully_fixed(),
        geometry: FrameGeometry::new(
            [[1., 0., 0.], [0., 1., 0.], [0., 0., 1.]],
            CrossSection { A: 1., Avy: 1., Avz: 1., J: 1., Iy: 1., Iz: 1. },
        ),
        material: IsotropicMaterial { E: 1., G: 0.5, nu: 0. },
    }
}

const ALL: [[bool; 12]; 12] = [[true; 12]; 12];
const NONE: [[bool; 12]; 12] = [[false; 12]; 12];

/// A world stiffness whose entry `(i, j)` is `100 i + j + 1`.
fn numbered(offset: f64) -> [[f64; 12]; 12] {
    let mut m = [[0.; 12]; 12];
    for i in 0..12 {
        for j in 0..12 {
            m[i][j] = offset + (100 * i + j + 1) as f64;
        }
    }
    m
}

#[test]
fn a_registry_keeps_the_order_of_first_registration() {
    let mut registry = Registry::new();
    assert_eq!(registry.len(), 0);
    registry.insert("b".to_string(), 1);
    registry.insert("a".to_string(), 2);
    registry.insert("b".to_string(), 3);
    assert_eq!(registry.len(), 2);
    assert_eq!(registry.id_at(0), "b");
    assert_eq!(registry.id_at(1), "a");
    assert_eq!(*registry.value_at(0), 3);
    assert_eq!(*registry.value_at(1), 2);
    assert_eq!(registry.get("a"), Some(&2));
    assert_eq!(registry.get("b"), Some(&3));
    assert_eq!(registry.get("c"), None);
    assert_eq!(registry.get(""), None);
    assert_eq!(registry.position("a"), Some(1));
    assert_eq!(registry.position("ab"), None);
}

#[test]
fn nodes_are_found_by_their_identifier() {
    let mut data = ElementData::new();
    assert!(get_node_by_id(&data, "a").is_none());
    add_node(&mut data, node("a", 0, 0.));
    add_node(&mut data, node("b", 6, 5.));
    assert_eq!(get_node_by_id(&data, "a").unwrap().degrees_of_freedom, [0, 1, 2, 3, 4, 5]);
    assert_eq!(get_node_by_id(&data, "b").unwrap().coordinate, [5., 0., 0.]);
    assert!(get_node_by_id(&data, "c").is_none());

    // A node registered again replaces the first.
    add_node(&mut data, node("a", 12, 9.));
    assert_eq!(data.nodes.len(), 2);
    assert_eq!(get_node_by_id(&data, "a").unwrap().degrees_of_freedom, [12, 13, 14, 15, 16, 17]);
    assert_eq!(get_node_by_id(&data, "a").unwrap().coordinate, [9., 0., 0.]);
}

#[test]
fn members_are_found_by_their_identifier() {
    let mut data = ElementData::new();
    assert!(get_frame_element_by_id(&data, "ab").is_none());
    add_frame_element(&mut data, member("ab", "a", "b"));
    add_frame_element(&mut data, member("bc", "b", "c"));
    assert_eq!(get_frame_element_by_id(&data, "ab").unwrap().end_node_id, "b");
    assert_eq!(get_frame_element_by_id(&data, "bc").unwrap().end_node_id, "c");
    assert!(get_frame_element_by_id(&data, "a").is_none());

    add_frame_element(&mut data, member("ab", "a", "c"));
    assert_eq!(data.frames.len(), 2);
    assert_eq!(get_frame_element_by_id(&data, "ab").unwrap().end_node_id, "c");
    assert_eq!(data.frames.id_at(0), "ab");
}

#[test]
fn a_member_finds_its_nodes() {
    let mut data = ElementData::new();
    add_node(&mut data, node("a", 0, 0.));
    let frame = member("ab", "a", "b");
    assert_eq!(frame.start_node(&data).unwrap().id, "a");
    assert!(frame.end_node(&data).is_none());
    assert!(frame.ends(&data).is_none());
    add_node(&mut data, node("b", 6, 1.));
    assert_eq!(frame.end_node(&data).unwrap().id, "b");
    assert_eq!(frame.ends(&data), Some(([0., 0., 0.], [1., 0., 0.])));
    assert!(member("ba", "b", "c").ends(&data).is_none());
    assert!(member("ca", "c", "a").ends(&data).is_none());
}

#[test]
fn a_stored_stiffness_replaces_the_one_before() {
    let mut analysis = AnalysisData::new();
    let frame = member("ab", "a", "b");
    update_frame_element_stiffness(&mut analysis, &frame, numbered(0.), numbered(1.), ALL);
    update_frame_element_stiffness(&mut analysis, &frame, numbered(2.), numbered(3.), NONE);
    assert_eq!(analysis.frame_stiffnesses.len(), 1);
    let stored = analysis.frame_stiffnesses.get("ab").unwrap();
    assert_eq!(stored.local, numbered(2.));
    assert_eq!(stored.world, numbered(3.));
    assert_eq!(stored.significant, NONE);
    assert!(analysis.applied_forces.is_empty());
    assert_eq!(analysis.world_stiffness.len(), 0);
}

#[test]
fn contributions_to_a_pair_are_kept_in_order() {
    let world = GlobalStiffness::new();
    assert_eq!(world.len(), 0);
    assert!(world.get(0, 0).is_none());

    let world = merge_stiffness_matrix_at_dof(world, 3, 4, 1.5);
    let world = merge_stiffness_matrix_at_dof(world, 4, 3, 2.5);
    let world = merge_stiffness_matrix_at_dof(world, 3, 4, -1.5);
    let world = merge_stiffness_matrix_at_dof(world, 3, 4, 0.25);
    assert_eq!(world.len(), 2);
    assert_eq!(world.get(3, 4).unwrap().as_slice(), &[1.5, -1.5, 0.25]);
    assert_eq!(world.get(4, 3).unwrap().as_slice(), &[2.5]);
    assert!(world.get(3, 3).is_none());
    assert_eq!(world.position(3, 4), Some(0));
    assert_eq!(world.position(4, 3), Some(1));
    assert_eq!(world.position(4, 4), None);
    let first = world.entry_at(0);
    assert_eq!((first.row, first.column), (3, 4));
    assert_eq!(first.contributions.len(), 3);
}

#[test]
fn a_member_scatters_to_the_dofs_of_its_nodes() {
    let mut data = ElementData::new();
    add_node(&mut data, node("a", 20, 0.));
    add_node(&mut data, node("b", 40, 1.));
    let frame = member("ab", "a", "b");
    add_frame_element(&mut data, member("ab", "a", "b"));
    let mut analysis = AnalysisData::new();
    let mut significant = [[true; 12]; 12];
    significant[0][1] = false;
    significant[7][7] = false;
    update_frame_element_stiffness(&mut analysis, &frame, numbered(0.), numbered(0.), significant);

    let world =
        merge_stiffness_matrix_at_frame_dofs(GlobalStiffness::new(), &frame, &data, &analysis)
            .unwrap();
    assert_eq!(world.len(), 142);
    let stiffness = numbered(0.);
    for i in 0..12 {
        for j in 0..12 {
            let row = if i < 6 { 20 + i } else { 40 + i - 6 };
            let column = if j < 6 { 20 + j } else { 40 + j - 6 };
            if significant[i][j] {
                assert_eq!(world.get(row, column).unwrap().as_slice(), &[stiffness[i][j]]);
            } else {
                assert!(world.get(row, column).is_none());
            }
        }
    }
    // Row by row, and within a row column by column.
    assert_eq!((world.entry_at(0).row, world.entry_at(0).column), (20, 20));
    assert_eq!((world.entry_at(1).row, world.entry_at(1).column), (20, 22));
    assert_eq!((world.entry_at(141).row, world.entry_at(141).column), (45, 45));

    // Scattering again adds a second contribution to every pair.
    let world = merge_stiffness_matrix_at_frame_dofs(world, &frame, &data, &analysis).unwrap();
    assert_eq!(world.len(), 142);
    assert_eq!(world.get(20, 20).unwrap().as_slice(), &[1., 1.]);
}

#[test]
fn nodes_that_share_a_dof_share_the_pair() {
    let mut data = ElementData::new();
    // Both ends on the same degrees of freedom.
    add_node(&mut data, node("a", 0, 0.));
    add_node(&mut data, node("b", 0, 1.));
    let frame = member("ab", "a", "b");
    add_frame_element(&mut data, member("ab", "a", "b"));
    let mut analysis = AnalysisData::new();
    update_frame_element_stiffness(&mut analysis, &frame, numbered(0.), numbered(0.), ALL);
    let world = assemble_world_stiffness_matrix(&data, &analysis).unwrap();
    assert_eq!(world.len(), 36);
    let m = numbered(0.);
    assert_eq!(
        world.get(1, 2).unwrap().as_slice(),
        &[m[1][2], m[1][8], m[7][2], m[7][8]]
    );
}

#[test]
fn assembly_without_members_is_empty() {
    let data: ElementData<f64> = ElementData::new();
    let analysis = AnalysisData::new();
    assert_eq!(assemble_world_stiffness_matrix(&data, &analysis).unwrap().len(), 0);
}

#[test]
fn assembly_fails_without_the_stiffness_of_a_member() {
    let mut data = ElementData::new();
    add_node(&mut data, node("a", 0, 0.));
    add_node(&mut data, node("b", 6, 1.));
    add_frame_element(&mut data, member("ab", "a", "b"));
    let analysis = AnalysisData::new();
    let failure = assemble_world_stiffness_matrix(&data, &analysis).unwrap_err();
    assert_eq!(failure, AnalysisError::ElementStiffnessNotFound("ab".to_string()));
    assert_eq!(failure.message(), "element stiffness not found: id=ab");
}

#[test]
fn assembly_fails_without_a_node_of_a_member() {
    let frame = member("ab", "a", "b");
    let mut analysis = AnalysisData::new();
    update_frame_element_stiffness(&mut analysis, &frame, numbered(0.), numbered(0.), ALL);

    let mut data = ElementData::new();
    add_frame_element(&mut data, member("ab", "a", "b"));
    add_node(&mut data, node("b", 6, 1.));
    let failure = assemble_world_stiffness_matrix(&data, &analysis).unwrap_err();
    assert_eq!(failure, AnalysisError::NodeNotFound("a".to_string()));
    assert_eq!(failure.message(), "node not found: id=a");

    let mut data = ElementData::new();
    add_frame_element(&mut data, member("ab", "a", "b"));
    add_node(&mut data, node("a", 0, 0.));
    let failure = assemble_world_stiffness_matrix(&data, &analysis).unwrap_err();
    assert_eq!(failure, AnalysisError::NodeNotFound("b".to_string()));
    assert_eq!(failure.message(), "node not found: id=b");
}

#[test]
fn the_first_failure_is_reported() {
    // Neither stiffness nor nodes: the stiffness is missed first.
    let mut data = ElementData::new();
    add_frame_element(&mut data, member("ab", "a", "b"));
    add_frame_element(&mut data, member("bc", "b", "c"));
    let mut analysis = AnalysisData::new();
    assert_eq!(
        assemble_world_stiffness_matrix(&data, &analysis).unwrap_err(),
        AnalysisError::ElementStiffnessNotFound("ab".to_string())
    );

    // With the stiffness of "ab" stored, its start node is missed before its
    // end node, and before anything about "bc".
    let ab = member("ab", "a", "b");
    update_frame_element_stiffness(&mut analysis, &ab, numbered(0.), numbered(0.), ALL);
    assert_eq!(
        assemble_world_stiffness_matrix(&data, &analysis).unwrap_err(),
        AnalysisError::NodeNotFound("a".to_string())
    );

    // With "ab" complete, "bc" fails.
    add_node(&mut data, node("a", 0, 0.));
    add_node(&mut data, node("b", 6, 1.));
    assert_eq!(
        assemble_world_stiffness_matrix(&data, &analysis).unwrap_err(),
        AnalysisError::ElementStiffnessNotFound("bc".to_string())
    );
}

#[test]
fn an_empty_identifier_is_an_identifier() {
    let failure = AnalysisError::NodeNotFound(String::new());
    assert_eq!(failure.message(), "node not found: id=");
}
