use shapegen::polygon::{check_point_count, polygon_indices, InvalidInput};
use triangulate::formats::IndexedListFormat;
use triangulate::{ListFormat, Polygon};

#[test]
fn too_few_points_is_invalid_input() {
    assert_eq!(check_point_count(0), Err(InvalidInput));
    assert_eq!(check_point_count(1), Err(InvalidInput));
    assert_eq!(check_point_count(2), Err(InvalidInput));
    assert!(check_point_count(3).is_ok());
    assert!(check_point_count(8).is_ok());
}

#[test]
fn assembly_flips_winding() {
    let triangles = vec![(0, 1, 2), (0, 2, 3)];
    let indices = polygon_indices(4, &triangles).expect("in-range triangles");
    assert_eq!(indices, vec![2, 1, 0, 3, 2, 0]);
}

#[test]
fn assembly_rejects_out_of_range_corner() {
    let triangles = vec![(0, 1, 3)];
    assert_eq!(polygon_indices(3, &triangles), Err(InvalidInput));
}

fn triangulated(points: &Vec<[f32; 2]>) -> Vec<(usize, usize, usize)> {
    let mut output = Vec::<[usize; 3]>::new();
    let format = IndexedListFormat::new(&mut output).into_fan_format();
    points
        .triangulate(format)
        .expect("triangulation of a simple polygon");
    output.iter().map(|t| (t[0], t[1], t[2])).collect()
}

#[test]
fn triangulated_square_is_two_triangles() {
    let points: Vec<[f32; 2]> = vec![[0.0, 0.0], [1.0, 0.0], [1.0, 1.0], [0.0, 1.0]];
    let triangles = triangulated(&points);
    assert_eq!(triangles.len(), 2);
    let indices = polygon_indices(points.len(), &triangles).expect("square triangulates");
    assert_eq!(indices.len(), 6);
    assert_eq!(indices.len() % 3, 0);
    for &i in &indices {
        assert!((i as usize) < points.len());
    }
}

#[test]
fn triangulated_regular_pentagon_has_three_triangles() {
    // Five points equally spaced on a circle of radius two: a convex
    // polygon with n vertices triangulates into n - 2 triangles.
    let radius = 2.0f32;
    let n = 5;
    let mut points: Vec<[f32; 2]> = Vec::with_capacity(n);
    let angle_step = 2.0 * std::f32::consts::PI / n as f32;
    for i in 0..n {
        let theta = angle_step * i as f32;
        points.push([radius * theta.cos(), radius * theta.sin()]);
    }
    for p in &points {
        let dist = (p[0] * p[0] + p[1] * p[1]).sqrt();
        assert!((dist - radius).abs() < 1e-4);
    }
    let triangles = triangulated(&points);
    assert_eq!(triangles.len(), n - 2);
    let indices = polygon_indices(points.len(), &triangles).expect("pentagon triangulates");
    assert_eq!(indices.len(), 3 * (n - 2));
    for &i in &indices {
        assert!((i as usize) < n);
    }
}
