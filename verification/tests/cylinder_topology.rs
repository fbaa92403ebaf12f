use shapegen::cylinder::{cylinder_indices, cylinder_params_valid, cylinder_vertices};

#[test]
fn default_cylinder_counts() {
    // The default cylinder has 32 radial and 1 height segment: two caps of
    // 34 vertices each and a body lattice of 33 * 2.
    assert_eq!(cylinder_vertices(32, 1), 134);
    let indices = cylinder_indices(32, 1);
    assert_eq!(indices.len(), 384);
    assert!(!indices.is_empty());
}

#[test]
fn minimal_cylinder_exact_indices() {
    assert_eq!(cylinder_vertices(1, 1), 10);
    let indices = cylinder_indices(1, 1);
    assert_eq!(
        indices,
        vec![
            0, 2, 1, // top cap, facing up
            4, 5, 3, // bottom cap, facing down
            7, 9, 6, 9, 8, 6, // body quad
        ]
    );
}

#[test]
fn cylinder_indices_are_well_formed() {
    let radial_segments = 9;
    let height_segments = 4;
    let vertex_count = cylinder_vertices(radial_segments, height_segments);
    let indices = cylinder_indices(radial_segments, height_segments);
    assert_eq!(
        indices.len() as u32,
        6 * radial_segments + 6 * height_segments * radial_segments
    );
    assert_eq!(indices.len() % 3, 0);
    for &i in &indices {
        assert!(i < vertex_count);
    }
}

#[test]
fn cylinder_rejects_zero_radius() {
    // A zero top or bottom radius calls for a cone instead.
    assert!(!cylinder_params_valid(true, true, false, 32, 1));
    assert!(!cylinder_params_valid(true, false, true, 32, 1));
    assert!(cylinder_params_valid(true, true, true, 32, 1));
}

#[test]
fn cylinder_rejects_bad_segment_counts() {
    assert!(!cylinder_params_valid(true, true, true, 2, 1));
    assert!(!cylinder_params_valid(true, true, true, 32, 0));
    assert!(!cylinder_params_valid(false, true, true, 32, 1));
}
