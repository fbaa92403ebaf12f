use shapegen::curve::{
    classify_curve, curve_params_valid, line_vertices, ribbon_indices, ribbon_vertices,
    tube_indices, tube_vertices, CurveKind,
};

#[test]
fn curve_kind_dispatch() {
    assert_eq!(classify_curve(true, 64), CurveKind::Line);
    assert_eq!(classify_curve(false, 0), CurveKind::Line);
    assert_eq!(classify_curve(false, 1), CurveKind::Ribbon);
    assert_eq!(classify_curve(false, 2), CurveKind::Ribbon);
    assert_eq!(classify_curve(false, 3), CurveKind::Tube);
    assert_eq!(classify_curve(false, 64), CurveKind::Tube);
}

#[test]
fn line_sample_count() {
    // A zero-radius curve degenerates to a polyline with one position per
    // sample and no triangles.
    assert_eq!(line_vertices(64), 65);
    assert_eq!(line_vertices(1), 2);
}

#[test]
fn curve_parameter_validation() {
    assert!(!curve_params_valid(0, true, true, true));
    assert!(curve_params_valid(1, true, false, false));
    assert!(curve_params_valid(64, false, true, true));
    assert!(!curve_params_valid(64, false, false, true));
    assert!(!curve_params_valid(64, false, true, false));
}

#[test]
fn tube_counts() {
    assert_eq!(tube_vertices(64, 8), 65 * 9);
    let indices = tube_indices(64, 8);
    assert_eq!(indices.len(), 6 * 8 * 64);
}

#[test]
fn minimal_tube_exact_indices() {
    assert_eq!(tube_vertices(1, 1), 4);
    let indices = tube_indices(1, 1);
    assert_eq!(indices, vec![0, 2, 1, 2, 3, 1]);
}

#[test]
fn small_tube_exact_indices() {
    assert_eq!(tube_vertices(2, 2), 9);
    let indices = tube_indices(2, 2);
    assert_eq!(
        indices,
        vec![
            0, 3, 1, 3, 4, 1, // band 0, ring position 0
            1, 4, 2, 4, 5, 2, // band 0, ring position 1
            3, 6, 4, 6, 7, 4, // band 1, ring position 0
            4, 7, 5, 7, 8, 5, // band 1, ring position 1
        ]
    );
}

#[test]
fn tube_indices_are_well_formed() {
    let length_segments = 11;
    let radial_segments = 7;
    let vertex_count = tube_vertices(length_segments, radial_segments);
    let indices = tube_indices(length_segments, radial_segments);
    assert_eq!(indices.len() as u32, 6 * radial_segments * length_segments);
    assert_eq!(indices.len() % 3, 0);
    for &i in &indices {
        assert!(i < vertex_count);
    }
}

#[test]
fn single_sided_ribbon_exact_indices() {
    assert_eq!(ribbon_vertices(1, 1), 4);
    let indices = ribbon_indices(1, 1);
    assert_eq!(indices, vec![2, 3, 0, 3, 1, 0]);
}

#[test]
fn double_sided_ribbon_exact_indices() {
    assert_eq!(ribbon_vertices(2, 2), 12);
    let indices = ribbon_indices(2, 2);
    assert_eq!(
        indices,
        vec![
            4, 5, 0, 5, 1, 0, // frames 0-1, front strip
            6, 7, 2, 7, 3, 2, // frames 0-1, back strip
            8, 9, 4, 9, 5, 4, // frames 1-2, front strip
            10, 11, 6, 11, 7, 6, // frames 1-2, back strip
        ]
    );
}

#[test]
fn ribbon_indices_are_well_formed() {
    let length_segments = 9;
    let radial_segments = 2;
    let vertex_count = ribbon_vertices(length_segments, radial_segments);
    let indices = ribbon_indices(length_segments, radial_segments);
    assert_eq!(indices.len() as u32, 6 * radial_segments * length_segments);
    assert_eq!(indices.len() % 3, 0);
    for &i in &indices {
        assert!(i < vertex_count);
    }
}
