//! From a model to displacements: a cantilever under a load at its tip.

use approx::{AbsDiffEq, RelativeEq};
use nalgebra::{Matrix3, Point3, SMatrix, Vector3};
use quick_fea::analysis::assemble_world_stiffness_matrix;
use quick_fea::analysis::global::GlobalStiffness;
use quick_fea::elements::frame::{
    frame_element_stiffness_matrix, frame_element_with_shear_deformation_stiffness_matrix,
    BarCoefficients, BeamCoefficients, FrameCoefficients,
};
use quick_fea::models::frame::{
    CrossSection, FrameElement, FrameEndReleases, FrameGeometry,
};
use quick_fea::models::material::IsotropicMaterial;
use quick_fea::models::node::Node;
use quick_fea::utils::transform::world_to_local_transform;
use quick_fea::{
    add_frame_element, add_node, get_frame_element_by_id, update_frame_element_stiffness,
    AnalysisData, ElementData,
};

const ZERO_EPSILON: f64 = 1e-10;
const LENGTH: f64 = 10.;

type Matrix12 = SMatrix<f64, 12, 12>;

fn assert_relative(a: f64, b: f64, max_relative: f64) {
    assert!(
        f64::relative_eq(&a, &b, f64::EPSILON, max_relative),
        "{} is not {} to within {}",
        a,
        b,
        max_relative
    );
}

#[allow(non_snake_case)]
fn isotropic_material(E: f64, nu: f64) -> IsotropicMaterial<f64> {
    let G = E / (2. * (1. + nu));
    IsotropicMaterial { E, G, nu }
}

fn section() -> CrossSection<f64> {
    CrossSection { A: 100., Avy: 80., Avz: 60., J: 50., Iy: 400., Iz: 800. }
}

fn rows_of_3(m: &Matrix3<f64>) -> [[f64; 3]; 3] {
    let mut rows = [[0.; 3]; 3];
    for i in 0..3 {
        for j in 0..3 {
            rows[i][j] = m[(i, j)];
        }
    }
    rows
}

fn rows_of_12(m: &Matrix12) -> [[f64; 12]; 12] {
    let mut rows = [[0.; 12]; 12];
    for i in 0..12 {
        for j in 0..12 {
            rows[i][j] = m[(i, j)];
        }
    }
    rows
}

/// A member from the clamped node "wall" to the free node "tip", whose
/// degrees of freedom come first in the system; `local_axes` holds the
/// member's axes in its columns and `tip` the place of the free end.
fn cantilever(
    cross_section: CrossSection<f64>,
    local_axes: Matrix3<f64>,
    tip: Point3<f64>,
) -> ElementData<f64> {
    let mut data = ElementData::new();
    add_node(
        &mut data,
        Node {
            id: "wall".to_string(),
            coordinate: [0., 0., 0.],
            degrees_of_freedom: [6, 7, 8, 9, 10, 11],
        },
    );
    add_node(
        &mut data,
        Node {
            id: "tip".to_string(),
            coordinate: [tip.x, tip.y, tip.z],
            degrees_of_freedom: [0, 1, 2, 3, 4, 5],
        },
    );
    add_frame_element(
        &mut data,
        FrameElement {
            id: "beam".to_string(),
            start_node_id: "wall".to_string(),
            end_node_id: "tip".to_string(),
            start_releases: FrameEndReleases::fully_fixed(),
            end_releases: FrameEndReleases::fully_fixed(),
            geometry: FrameGeometry::new(rows_of_3(&local_axes), cross_section),
            material: isotropic_material(200., 0.3),
        },
    );
    data
}

fn length(data: &ElementData<f64>, frame: &FrameElement<f64>) -> f64 {
    let (start, end) = frame.ends(data).unwrap();
    nalgebra::distance(&Point3::from(start), &Point3::from(end))
}

#[allow(non_snake_case)]
fn euler_bernoulli_coefficients(element: &FrameElement<f64>, L: f64) -> FrameCoefficients<f64> {
    let section = &element.geometry.cross_section;
    let material = &element.material;
    let L2 = L * L;
    let (A, Iy, Iz, J) = (section.A, section.Iy, section.Iz, section.J);
    let (E, G) = (material.E, material.G);
    let bending = |k: f64| BeamCoefficients {
        shear: k * (12. / L2),
        shear_reversed: k * (-12. / L2),
        coupling: k * (6. / L),
        coupling_reversed: k * (-6. / L),
        moment_near: k * 4.,
        moment_far: k * 2.,
    };
    let bar = |k: f64| BarCoefficients { same_end: k * 1., opposite_end: k * -1. };
    FrameCoefficients {
        zero: 0.,
        axial: bar(E * A / L),
        torsion: bar(G * J / L),
        bending_z: bending(E * Iz / L),
        bending_y: bending(E * Iy / L),
    }
}

#[allow(non_snake_case)]
fn shear_deformation_coefficients(element: &FrameElement<f64>, L: f64) -> FrameCoefficients<f64> {
    let section = &element.geometry.cross_section;
    let material = &element.material;
    let L2 = L * L;
    let (A, Avy, Avz, Iy, Iz, J) =
        (section.A, section.Avy, section.Avz, section.Iy, section.Iz, section.J);
    let (E, G) = (material.E, material.G);
    let bending = |I: f64, Av: f64| {
        let eta = E * I / Av / G;
        let k = E * I / L / (L2 / 12. + eta);
        BeamCoefficients {
            shear: k * 1.,
            shear_reversed: k * -1.,
            coupling: k * (L / 2.),
            coupling_reversed: k * (-L / 2.),
            moment_near: k * (L2 / 3. + eta),
            moment_far: k * (L2 / 6. - eta),
        }
    };
    let bar = |k: f64| BarCoefficients { same_end: k * 1., opposite_end: k * -1. };
    FrameCoefficients {
        zero: 0.,
        axial: bar(E * A / L),
        torsion: bar(G * J / L),
        bending_z: bending(Iz, Avy),
        bending_y: bending(Iy, Avz),
    }
}

fn world_to_local_rotation(local_axes: &Matrix3<f64>) -> Matrix3<f64> {
    let local_x = local_axes.column(0).normalize();
    let local_y = local_axes.column(1).normalize();
    let local_z = local_axes.column(2).normalize();
    let x = Vector3::<f64>::x_axis().into_inner();
    let y = Vector3::<f64>::y_axis().into_inner();
    let z = Vector3::<f64>::z_axis().into_inner();
    Matrix3::new(
        local_x.dot(&x), local_x.dot(&y), local_x.dot(&z),
        local_y.dot(&x), local_y.dot(&y), local_y.dot(&z),
        local_z.dot(&x), local_z.dot(&y), local_z.dot(&z),
    )
}

fn world_to_local(frame: &FrameElement<f64>) -> Matrix12 {
    let axes = Matrix3::from_fn(|i, j| frame.geometry.local_axes[i][j]);
    let rotation = world_to_local_rotation(&axes);
    let rows = world_to_local_transform(&rows_of_3(&rotation), 0.);
    Matrix12::from_fn(|i, j| rows[i][j])
}

fn significance(world: &Matrix12) -> [[bool; 12]; 12] {
    let mut significant = [[false; 12]; 12];
    for i in 0..12 {
        for j in 0..12 {
            significant[i][j] = !f64::abs_diff_eq(&0., &world[(i, j)], ZERO_EPSILON);
        }
    }
    significant
}

/// The global stiffness of a model of one member whose stiffness in world
/// axes is `world`.
fn assembled(data: &ElementData<f64>, local: Matrix12, world: Matrix12) -> GlobalStiffness<f64> {
    let frame = get_frame_element_by_id(data, "beam").unwrap();
    let mut analysis = AnalysisData::new();
    update_frame_element_stiffness(
        &mut analysis,
        frame,
        rows_of_12(&local),
        rows_of_12(&world),
        significance(&world),
    );
    assemble_world_stiffness_matrix(data, &analysis).unwrap()
}

/// The assembled stiffness of the first `free` degrees of freedom, each
/// coefficient the sum of its contributions.
fn free_system(world: &GlobalStiffness<f64>, free: usize) -> sparse21::Matrix {
    let mut entries = Vec::new();
    for i in 0..world.len() {
        let entry = world.entry_at(i);
        if entry.row < free && entry.column < free {
            let mut sum = entry.contributions[0];
            for value in &entry.contributions[1..] {
                sum += *value;
            }
            entries.push((entry.row, entry.column, sum));
        }
    }
    sparse21::Matrix::from_entries(entries)
}

#[test]
fn tip_load_on_a_cantilever() {
    let data = cantilever(section(), Matrix3::identity(), Point3::new(LENGTH, 0., 0.));
    let frame = get_frame_element_by_id(&data, "beam").unwrap();
    let coefficients = euler_bernoulli_coefficients(frame, length(&data, frame));
    let rows = frame_element_stiffness_matrix(frame, &coefficients).unwrap();
    let local = Matrix12::from_fn(|i, j| rows[i][j]);
    let world = world_to_local(frame).transpose() * local;
    let global = assembled(&data, local, world);

    let (e, g) = (frame.material.E, frame.material.G);
    let s = section();

    // A unit force along world y at the tip.
    let deflections = free_system(&global, 6).solve(vec![0., 1., 0., 0., 0., 0.]).unwrap();
    assert_eq!(deflections.len(), 6);
    assert_relative(deflections[1], LENGTH.powi(3) / (3. * e * s.Iz), 1e-6);
    assert_relative(deflections[5], LENGTH.powi(2) / (2. * e * s.Iz), 1e-6);
    for k in [0, 2, 3, 4] {
        assert!(deflections[k].abs() < 1e-12);
    }

    // A unit force along world z at the tip.
    let deflections = free_system(&global, 6).solve(vec![0., 0., 1., 0., 0., 0.]).unwrap();
    assert_relative(deflections[2], LENGTH.powi(3) / (3. * e * s.Iy), 1e-6);
    assert_relative(deflections[4], -LENGTH.powi(2) / (2. * e * s.Iy), 1e-6);

    // A unit force along the member and a unit torque about it.
    let deflections = free_system(&global, 6).solve(vec![1., 0., 0., 1., 0., 0.]).unwrap();
    assert_relative(deflections[0], LENGTH / (e * s.A), 1e-6);
    assert_relative(deflections[3], LENGTH / (g * s.J), 1e-6);
}

#[test]
fn tip_load_on_a_cantilever_with_shear_deformation() {
    let data = cantilever(section(), Matrix3::identity(), Point3::new(LENGTH, 0., 0.));
    let frame = get_frame_element_by_id(&data, "beam").unwrap();
    let coefficients = shear_deformation_coefficients(frame, length(&data, frame));
    let rows = frame_element_with_shear_deformation_stiffness_matrix(frame, &coefficients).unwrap();
    let local = Matrix12::from_fn(|i, j| rows[i][j]);
    let world = world_to_local(frame).transpose() * local;
    let global = assembled(&data, local, world);

    let (e, g) = (frame.material.E, frame.material.G);
    let s = section();

    let deflections = free_system(&global, 6).solve(vec![0., 1., 0., 0., 0., 0.]).unwrap();
    assert_relative(
        deflections[1],
        LENGTH.powi(3) / (3. * e * s.Iz) + LENGTH / (g * s.Avy),
        1e-6,
    );
    assert_relative(deflections[5], LENGTH.powi(2) / (2. * e * s.Iz), 1e-6);

    let deflections = free_system(&global, 6).solve(vec![0., 0., 1., 0., 0., 0.]).unwrap();
    assert_relative(
        deflections[2],
        LENGTH.powi(3) / (3. * e * s.Iy) + LENGTH / (g * s.Avz),
        1e-6,
    );
}

#[test]
fn shear_deformation_vanishes_with_a_large_shear_area() {
    let stiff = CrossSection { Avy: 1e15, Avz: 1e15, ..section() };
    let data = cantilever(stiff, Matrix3::identity(), Point3::new(LENGTH, 0., 0.));
    let frame = get_frame_element_by_id(&data, "beam").unwrap();
    let with = frame_element_with_shear_deformation_stiffness_matrix(
        frame,
        &shear_deformation_coefficients(frame, LENGTH),
    )
    .unwrap();
    let without =
        frame_element_stiffness_matrix(frame, &euler_bernoulli_coefficients(frame, LENGTH))
            .unwrap();
    for i in 0..12 {
        for j in 0..12 {
            assert!(
                f64::relative_eq(&with[i][j], &without[i][j], 1e-12, 1e-9),
                "entry ({}, {}): {} and {}",
                i,
                j,
                with[i][j],
                without[i][j]
            );
        }
    }
}

#[test]
fn a_member_along_world_y() {
    // Local x along world y, local y along minus world x: a quarter turn
    // about z. The axes are not of unit length.
    let local_axes = Matrix3::new(
        0., -3., 0.,
        2., 0., 0.,
        0., 0., 5.,
    );
    let data = cantilever(section(), local_axes, Point3::new(0., LENGTH, 0.));
    let frame = get_frame_element_by_id(&data, "beam").unwrap();
    let coefficients = euler_bernoulli_coefficients(frame, length(&data, frame));
    let rows = frame_element_stiffness_matrix(frame, &coefficients).unwrap();
    let local = Matrix12::from_fn(|i, j| rows[i][j]);
    let transform = world_to_local(frame);
    let world = transform.transpose() * local * transform;
    for i in 0..12 {
        for j in 0..12 {
            assert_relative(world[(i, j)], world[(j, i)], 1e-12);
        }
    }
    let global = assembled(&data, local, world);

    let e = frame.material.E;
    let s = section();

    // A unit force along world x bends the member about its local z axis.
    let deflections = free_system(&global, 6).solve(vec![1., 0., 0., 0., 0., 0.]).unwrap();
    assert_relative(deflections[0], LENGTH.powi(3) / (3. * e * s.Iz), 1e-6);

    // A unit force along world y stretches it.
    let deflections = free_system(&global, 6).solve(vec![0., 1., 0., 0., 0., 0.]).unwrap();
    assert_relative(deflections[1], LENGTH / (e * s.A), 1e-6);
}

#[test]
fn a_system_without_stiffness_in_a_plane_is_singular() {
    let flat = CrossSection { Iy: 0., ..section() };
    let data = cantilever(flat, Matrix3::identity(), Point3::new(LENGTH, 0., 0.));
    let frame = get_frame_element_by_id(&data, "beam").unwrap();
    let coefficients = euler_bernoulli_coefficients(frame, length(&data, frame));
    let rows = frame_element_stiffness_matrix(frame, &coefficients).unwrap();
    let local = Matrix12::from_fn(|i, j| rows[i][j]);
    let global = assembled(&data, local, local);

    // Nothing resists deflection along z or rotation about y.
    assert!(global.get(2, 2).is_none());
    assert!(global.get(4, 4).is_none());
    let outcome = free_system(&global, 6).solve(vec![0., 1., 0., 0., 0., 0.]);
    assert_eq!(outcome, Err("Singular Matrix"));
}

#[test]
fn an_unresolved_node_leaves_no_stiffness() {
    // A member whose end node is missing has infinite length, and every
    // coefficient that divides by the length vanishes.
    let mut data = ElementData::new();
    add_node(
        &mut data,
        Node {
            id: "wall".to_string(),
            coordinate: [0., 0., 0.],
            degrees_of_freedom: [0, 1, 2, 3, 4, 5],
        },
    );
    let frame = FrameElement {
        id: "beam".to_string(),
        start_node_id: "wall".to_string(),
        end_node_id: "nowhere".to_string(),
        start_releases: FrameEndReleases::fully_fixed(),
        end_releases: FrameEndReleases::fully_fixed(),
        geometry: FrameGeometry::new(rows_of_3(&Matrix3::identity()), section()),
        material: isotropic_material(200., 0.3),
    };
    assert!(frame.ends(&data).is_none());
    let length = match frame.ends(&data) {
        Some((start, end)) => nalgebra::distance(&Point3::from(start), &Point3::from(end)),
        None => f64::INFINITY,
    };
    assert_eq!(length, f64::INFINITY);
    let k = euler_bernoulli_coefficients(&frame, length);
    let m = frame_element_stiffness_matrix(&frame, &k).unwrap();
    assert_eq!(m[0][0], 0.);
    assert_eq!(m[3][3], 0.);
    assert_eq!(m[1][5], 0.);
    assert_eq!(m[5][5], 0.);
}
