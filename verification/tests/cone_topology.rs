use shapegen::cone::{cone_indices, cone_params_valid, cone_vertices};

#[test]
fn default_cone_counts() {
    // The default cone has 32 segments: a disk of 34 vertices, 32 apex
    // copies and a ring of 33, and two triangles per segment.
    assert_eq!(cone_vertices(32), 99);
    let indices = cone_indices(32);
    assert_eq!(indices.len(), 192);
    assert!(!indices.is_empty());
}

#[test]
fn three_segment_cone_exact_indices() {
    assert_eq!(cone_vertices(3), 12);
    let indices = cone_indices(3);
    assert_eq!(
        indices,
        vec![
            1, 2, 0, 2, 3, 0, 3, 4, 0, // base disk, facing down
            9, 8, 5, 10, 9, 6, 11, 10, 7, // body: right ring, left ring, apex copy
        ]
    );
}

#[test]
fn cone_indices_are_well_formed() {
    let segments = 17;
    let vertex_count = cone_vertices(segments);
    let indices = cone_indices(segments);
    assert_eq!(indices.len(), 6 * segments as usize);
    assert_eq!(indices.len() % 3, 0);
    for &i in &indices {
        assert!(i < vertex_count);
    }
}

#[test]
fn cone_parameter_validation() {
    assert!(cone_params_valid(true, true, 3));
    assert!(cone_params_valid(true, true, 32));
    // Two segments cannot close the surface.
    assert!(!cone_params_valid(true, true, 2));
    assert!(!cone_params_valid(false, true, 32));
    assert!(!cone_params_valid(true, false, 32));
}
