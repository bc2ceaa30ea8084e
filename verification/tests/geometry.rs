use schwarz_engine::geometry::{Grid, Lane, Triangle, MAX_LANES};
use schwarz_engine::matrix::Mat4;
use schwarz_engine::object::{Object, Object3D};
use schwarz_engine::vertex::Vertex;

fn vertex(position: [f32; 3], normal: [f32; 3], color: [f32; 3]) -> Vertex {
    Vertex {
        position: position.map(f32::to_bits),
        normal: normal.map(f32::to_bits),
        color: color.map(f32::to_bits),
    }
}

/// The lanes of a grid of `size` cells of width `step`, with lines of width
/// `line_width`, and half its extent.
fn lanes(size: usize, step: f32, line_width: f32) -> (f32, Vec<Lane>) {
    let half = size as f32 * step / 2.0;
    let half_width = line_width / 2.0;
    let lanes = (0..=size)
        .map(|i| {
            let center = -half + i as f32 * step;
            Lane { low: (center - half_width).to_bits(), high: (center + half_width).to_bits() }
        })
        .collect();
    (half, lanes)
}

/// The grid, built line by line in single precision.
fn grid_by_lines(size: usize, step: f32, line_width: f32) -> (Vec<Vertex>, Vec<u32>) {
    let half = size as f32 * step / 2.0;
    let half_width = line_width / 2.0;
    let mut vertices: Vec<Vertex> = Vec::new();
    let mut indices: Vec<u32> = Vec::new();
    let mut lines: Vec<([f32; 3], [f32; 3], usize)> = Vec::new();
    for i in 0..=size {
        let z = -half + i as f32 * step;
        lines.push(([-half, 0.0, z], [half, 0.0, z], 2));
    }
    for i in 0..=size {
        let x = -half + i as f32 * step;
        lines.push(([x, 0.0, -half], [x, 0.0, half], 0));
    }
    for (start, end, axis) in lines {
        let base = vertices.len() as u32;
        let mut v0 = start;
        v0[axis] -= half_width;
        let mut v1 = end;
        v1[axis] -= half_width;
        let mut v2 = end;
        v2[axis] += half_width;
        let mut v3 = start;
        v3[axis] += half_width;
        for normal in [[0.0, 1.0, 0.0], [0.0, -1.0, 0.0]] {
            for position in [v0, v1, v2, v3] {
                vertices.push(vertex(position, normal, [1.0, 1.0, 1.0]));
            }
        }
        indices.extend_from_slice(&[base, base + 1, base + 2, base, base + 2, base + 3]);
        let b = base + 4;
        indices.extend_from_slice(&[b, b + 2, b + 1, b, b + 3, b + 2]);
    }
    (vertices, indices)
}

#[test]
fn the_triangle_has_three_coloured_corners_and_one_face() {
    let triangle = Triangle::new(Mat4::identity());
    assert_eq!(
        triangle.vertices(),
        &[
            vertex([-0.5, 0.0, 0.0], [0.0, 0.0, 1.0], [1.0, 0.0, 0.0]),
            vertex([0.5, 0.0, 0.0], [0.0, 0.0, 1.0], [0.0, 1.0, 0.0]),
            vertex([0.0, 1.0, 0.0], [0.0, 0.0, 1.0], [0.0, 0.0, 1.0]),
        ]
    );
    assert_eq!(triangle.indices(), &[0, 1, 2]);
    assert_eq!(triangle.model_matrix(), Mat4::identity());
}

#[test]
fn the_normal_of_the_triangle_is_that_of_its_plane() {
    let triangle = Triangle::new(Mat4::identity());
    let corners: Vec<glam::Vec3> = triangle
        .vertices()
        .iter()
        .map(|v| glam::Vec3::from_array(v.position.map(f32::from_bits)))
        .collect();
    let normal = (corners[1] - corners[0]).cross(corners[2] - corners[0]).normalize();
    for v in triangle.vertices() {
        assert_eq!(v.normal, normal.to_array().map(f32::to_bits));
    }
}

#[test]
fn the_triangle_keeps_its_transform_as_a_mesh() {
    let matrix = Mat4::from_cols_array([7; 16]);
    let triangle = Triangle::new(matrix);
    let vertices = triangle.vertices().to_vec();
    let mesh = triangle.to_object3d();
    assert_eq!(mesh.vertices(), &vertices[..]);
    assert_eq!(mesh.indices(), &[0, 1, 2]);
    assert_eq!(mesh.model_matrix(), matrix);
    assert!(Object3D::is_valid_mesh(mesh.vertices(), mesh.indices()));
}

#[test]
fn a_grid_has_sixteen_vertices_and_twenty_four_indices_per_lane() {
    for size in [0usize, 1, 2, 10, 100] {
        let (half, lanes) = lanes(size, 0.5, 0.01);
        let grid = Grid::new(half.to_bits(), &lanes, Mat4::identity());
        assert_eq!(grid.vertices().len(), 16 * (size + 1));
        assert_eq!(grid.indices().len(), 24 * (size + 1));
        assert_eq!(grid.indices().len() % 3, 0);
        assert!(Object3D::is_valid_mesh(grid.vertices(), grid.indices()));
    }
    assert_eq!(MAX_LANES, (u32::MAX / 24) as usize);
}

#[test]
fn a_grid_without_lanes_is_empty() {
    let grid = Grid::new(1.0f32.to_bits(), &[], Mat4::identity());
    assert!(grid.vertices().is_empty());
    assert!(grid.indices().is_empty());
}

#[test]
fn a_grid_of_one_lane_has_one_line_along_each_axis() {
    let lane = Lane { low: (-0.25f32).to_bits(), high: 0.25f32.to_bits() };
    let grid = Grid::new(2.0f32.to_bits(), &[lane], Mat4::identity());
    let up = [0.0, 1.0, 0.0];
    let down = [0.0, -1.0, 0.0];
    let white = [1.0, 1.0, 1.0];
    let along_x = [[-2.0, 0.0, -0.25], [2.0, 0.0, -0.25], [2.0, 0.0, 0.25], [-2.0, 0.0, 0.25]];
    let along_z = [[-0.25, 0.0, -2.0], [-0.25, 0.0, 2.0], [0.25, 0.0, 2.0], [0.25, 0.0, -2.0]];
    let mut expected: Vec<Vertex> = Vec::new();
    for corners in [along_x, along_z] {
        for normal in [up, down] {
            for position in corners {
                expected.push(vertex(position, normal, white));
            }
        }
    }
    assert_eq!(grid.vertices(), &expected[..]);
    assert_eq!(
        grid.indices(),
        &[0, 1, 2, 0, 2, 3, 4, 6, 5, 4, 7, 6, 8, 9, 10, 8, 10, 11, 12, 14, 13, 12, 15, 14]
    );
}

#[test]
fn a_grid_is_the_same_as_one_built_line_by_line() {
    for (size, step, line_width) in [(2usize, 0.5f32, 0.01f32), (100, 0.5, 0.01), (7, 1.25, 0.3), (1, 3.0, 0.0)] {
        let (half, lanes) = lanes(size, step, line_width);
        let grid = Grid::new(half.to_bits(), &lanes, Mat4::identity());
        let (vertices, indices) = grid_by_lines(size, step, line_width);
        assert_eq!(grid.vertices(), &vertices[..]);
        assert_eq!(grid.indices(), &indices[..]);
    }
}

#[test]
fn a_grid_keeps_its_transform_as_a_mesh() {
    let (half, lanes) = lanes(3, 1.0, 0.1);
    let matrix = Mat4::from_cols_array([9; 16]);
    let grid = Grid::new(half.to_bits(), &lanes, matrix);
    assert_eq!(grid.model_matrix(), matrix);
    let vertices = grid.vertices().to_vec();
    let indices = grid.indices().to_vec();
    let mesh = grid.to_object3d();
    assert_eq!(mesh.vertices(), &vertices[..]);
    assert_eq!(mesh.indices(), &indices[..]);
    assert_eq!(mesh.model_matrix(), matrix);
}
