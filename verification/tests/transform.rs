//! The transform between world and local axes.

use quick_fea::utils::transform::world_to_local_transform;

#[test]
fn identity_rotation_gives_the_identity() {
    let rotation = [[1., 0., 0.], [0., 1., 0.], [0., 0., 1.]];
    let transform = world_to_local_transform(&rotation, 0.);
    for i in 0..12 {
        for j in 0..12 {
            assert_eq!(transform[i][j], if i == j { 1. } else { 0. });
        }
    }
}

#[test]
fn rotation_stands_four_times_on_the_diagonal() {
    let rotation = [[1., 2., 3.], [4., 5., 6.], [7., 8., 9.]];
    let transform = world_to_local_transform(&rotation, 0.);
    for i in 0..12 {
        for j in 0..12 {
            let wanted = if i / 3 == j / 3 { rotation[i % 3][j % 3] } else { 0. };
            assert_eq!(transform[i][j], wanted);
        }
    }
    assert_eq!(transform[4][5], 6.);
    assert_eq!(transform[11][9], 7.);
    assert_eq!(transform[2][3], 0.);
}

#[test]
fn the_value_for_zero_fills_the_rest() {
    let rotation = [[1u8, 2, 3], [4, 5, 6], [7, 8, 9]];
    let transform = world_to_local_transform(&rotation, 0);
    let mut outside = 0;
    for i in 0..12 {
        for j in 0..12 {
            if i / 3 != j / 3 {
                assert_eq!(transform[i][j], 0);
                outside += 1;
            }
        }
    }
    assert_eq!(outside, 108);
    assert_eq!(transform[6][6], 1);
    assert_eq!(transform[8][7], 8);
}
