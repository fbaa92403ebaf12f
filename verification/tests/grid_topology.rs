use shapegen::grid::{grid_indices, grid_params_valid, grid_vertices};

#[test]
fn default_grid_is_two_triangles() {
    // A 1x1-segment grid: four vertices, one quad face, two triangles.
    assert_eq!(grid_vertices(1, 1), 4);
    let indices = grid_indices(1, 1);
    assert_eq!(indices.len(), 6);
    assert_eq!(indices, vec![2, 3, 0, 3, 1, 0]);
}

#[test]
fn two_by_two_grid_exact_indices() {
    assert_eq!(grid_vertices(2, 2), 9);
    let indices = grid_indices(2, 2);
    assert_eq!(
        indices,
        vec![
            3, 4, 0, 4, 1, 0, // row 0, column 0
            4, 5, 1, 5, 2, 1, // row 0, column 1
            6, 7, 3, 7, 4, 3, // row 1, column 0
            7, 8, 4, 8, 5, 4, // row 1, column 1
        ]
    );
}

#[test]
fn larger_grid_indices_are_well_formed() {
    let width_segments = 5;
    let height_segments = 7;
    let vertex_count = grid_vertices(width_segments, height_segments);
    assert_eq!(vertex_count, 48);
    let indices = grid_indices(width_segments, height_segments);
    assert_eq!(indices.len(), 6 * width_segments * height_segments);
    assert_eq!(indices.len() % 3, 0);
    for &i in &indices {
        assert!((i as usize) < vertex_count);
    }
}

#[test]
fn grid_parameter_validation() {
    assert!(grid_params_valid(true, true, 1, 1));
    assert!(!grid_params_valid(true, true, 0, 1));
    assert!(!grid_params_valid(true, true, 1, 0));
    assert!(!grid_params_valid(false, true, 1, 1));
    assert!(!grid_params_valid(true, false, 1, 1));
}
