use shapegen::util::{fan_center_first_indices, fan_center_last_indices, FlatTrapezeIndices};

#[test]
fn trapeze_emits_two_triangles_fixed_winding() {
    let face = FlatTrapezeIndices {
        lower_left: 4,
        upper_left: 7,
        lower_right: 9,
        upper_right: 2,
    };
    let mut indices: Vec<u32> = Vec::new();
    face.generate_triangles(&mut indices);
    // Triangle 1 = (upper_left, upper_right, lower_left),
    // triangle 2 = (upper_right, lower_right, lower_left).
    assert_eq!(indices, vec![7, 2, 4, 2, 9, 4]);
}

#[test]
fn trapeze_appends_without_touching_prefix() {
    let face = FlatTrapezeIndices {
        lower_left: 0,
        upper_left: 1,
        lower_right: 2,
        upper_right: 3,
    };
    let mut indices: Vec<u32> = vec![11, 12];
    face.generate_triangles(&mut indices);
    assert_eq!(indices, vec![11, 12, 1, 3, 0, 3, 2, 0]);
}

#[test]
fn fan_center_first_winding() {
    let mut indices: Vec<u32> = Vec::new();
    fan_center_first_indices(&mut indices, 0, 3);
    assert_eq!(indices, vec![0, 2, 1, 0, 3, 2, 0, 4, 3]);
}

#[test]
fn fan_center_last_winding() {
    let mut indices: Vec<u32> = Vec::new();
    fan_center_last_indices(&mut indices, 5, 2);
    assert_eq!(indices, vec![6, 7, 5, 7, 8, 5]);
}
