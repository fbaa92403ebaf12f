use shapegen::torus::{torus_indices, torus_params_valid, torus_vertices};

#[test]
fn default_torus_counts() {
    // The default torus has 64 radial and 32 tube segments.
    assert_eq!(torus_vertices(64, 32), 65 * 33);
    let indices = torus_indices(64, 32);
    assert_eq!(indices.len(), 6 * 32 * 64);
    assert!(!indices.is_empty());
}

#[test]
fn minimal_torus_exact_indices() {
    assert_eq!(torus_vertices(1, 1), 4);
    let indices = torus_indices(1, 1);
    assert_eq!(indices, vec![1, 3, 0, 3, 2, 0]);
}

#[test]
fn torus_indices_are_well_formed() {
    let radial_segments = 6;
    let tube_segments = 5;
    let vertex_count = torus_vertices(radial_segments, tube_segments);
    let indices = torus_indices(radial_segments, tube_segments);
    assert_eq!(indices.len(), 6 * tube_segments * radial_segments);
    assert_eq!(indices.len() % 3, 0);
    for &i in &indices {
        assert!((i as usize) < vertex_count);
    }
}

#[test]
fn torus_parameter_validation() {
    let valid = torus_params_valid(true, true, 64, 32, true, true, true, true, true, true);
    assert!(valid);
    // Fewer than three segments on either circle is rejected.
    assert!(!torus_params_valid(true, true, 2, 32, true, true, true, true, true, true));
    assert!(!torus_params_valid(true, true, 64, 2, true, true, true, true, true, true));
    // Non-positive radii are rejected.
    assert!(!torus_params_valid(false, true, 64, 32, true, true, true, true, true, true));
    assert!(!torus_params_valid(true, false, 64, 32, true, true, true, true, true, true));
    // An out-of-range offset only matters for a partial turn.
    assert!(torus_params_valid(true, true, 64, 32, true, true, true, false, true, true));
    assert!(!torus_params_valid(true, true, 64, 32, true, true, false, false, true, true));
    assert!(!torus_params_valid(true, true, 64, 32, true, true, true, true, false, false));
}
