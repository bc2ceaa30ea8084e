use schwarz_engine::matrix::Mat4;
use schwarz_engine::obj_import::{load_obj, LoadError, ObjMesh};
use schwarz_engine::vertex::Vertex;

fn words(numbers: &[f32]) -> Vec<u32> {
    numbers.iter().map(|x| x.to_bits()).collect()
}

fn quad() -> ObjMesh {
    ObjMesh {
        positions: words(&[-1.0, 0.0, 2.0, 1.0, -0.5, 2.0, 1.0, 1.0, -2.0, -1.0, 1.0, -0.0]),
        normals: words(&[0.0, 0.0, 1.0, 0.0, 1.0, 0.0, 1.0, 0.0, 0.0, 0.0, 0.0, -1.0]),
        indices: vec![0, 1, 2, 0, 2, 3],
    }
}

#[test]
fn a_model_becomes_a_mesh_with_the_colour_of_its_positions() {
    let matrix = Mat4::from_cols_array([3; 16]);
    let meshes = load_obj(&[quad()], matrix).unwrap();
    assert_eq!(meshes.len(), 1);
    let expected: Vec<Vertex> = [
        ([-1.0f32, 0.0, 2.0], [0.0f32, 0.0, 1.0], [1.0f32, 0.0, 2.0]),
        ([1.0, -0.5, 2.0], [0.0, 1.0, 0.0], [1.0, 0.5, 2.0]),
        ([1.0, 1.0, -2.0], [1.0, 0.0, 0.0], [1.0, 1.0, 2.0]),
        ([-1.0, 1.0, -0.0], [0.0, 0.0, -1.0], [1.0, 1.0, 0.0]),
    ]
    .iter()
    .map(|(position, normal, color)| Vertex {
        position: position.map(f32::to_bits),
        normal: normal.map(f32::to_bits),
        color: color.map(f32::to_bits),
    })
    .collect();
    assert_eq!(meshes[0].vertices(), &expected[..]);
    assert_eq!(meshes[0].indices(), &[0, 1, 2, 0, 2, 3]);
    assert_eq!(meshes[0].model_matrix(), matrix);
}

#[test]
fn the_colour_is_the_absolute_value_of_the_position() {
    let mesh = quad();
    let object = mesh.to_object3d(Mat4::identity()).unwrap();
    for v in object.vertices() {
        for part in 0..3 {
            assert_eq!(f32::from_bits(v.color[part]), f32::from_bits(v.position[part]).abs());
        }
    }
}

#[test]
fn every_model_of_the_file_becomes_a_mesh_in_order() {
    let small = ObjMesh {
        positions: words(&[0.0, 0.0, 0.0]),
        normals: words(&[0.0, 1.0, 0.0, 9.0, 9.0, 9.0]),
        indices: vec![0, 0, 0],
    };
    let empty = ObjMesh { positions: vec![], normals: vec![], indices: vec![] };
    let meshes = load_obj(&[quad(), small, empty, quad()], Mat4::identity()).unwrap();
    assert_eq!(meshes.len(), 4);
    assert_eq!(meshes[0].vertices().len(), 4);
    assert_eq!(meshes[1].vertices().len(), 1);
    assert_eq!(meshes[1].indices(), &[0, 0, 0]);
    assert_eq!(meshes[2].vertices().len(), 0);
    assert_eq!(meshes[2].indices().len(), 0);
    assert_eq!(meshes[3].indices().len(), 6);
    assert_eq!(load_obj(&[], Mat4::identity()).unwrap().len(), 0);
}

#[test]
fn positions_that_do_not_fill_a_vertex_are_left_out() {
    let mut mesh = quad();
    mesh.positions.push(5.0f32.to_bits());
    mesh.positions.push(6.0f32.to_bits());
    let object = mesh.to_object3d(Mat4::identity()).unwrap();
    assert_eq!(object.vertices().len(), 4);
}

#[test]
fn a_model_without_normals_is_refused() {
    let mut mesh = quad();
    mesh.normals.clear();
    assert_eq!(mesh.to_object3d(Mat4::identity()).unwrap_err(), LoadError::MissingNormals);
    let mut mesh = quad();
    mesh.normals.pop();
    assert_eq!(mesh.to_object3d(Mat4::identity()).unwrap_err(), LoadError::MissingNormals);
    assert_eq!(load_obj(&[mesh], Mat4::identity()).unwrap_err(), LoadError::MissingNormals);
}

#[test]
fn faces_that_are_not_triangles_are_refused() {
    let mut mesh = quad();
    mesh.indices.pop();
    assert_eq!(mesh.to_object3d(Mat4::identity()).unwrap_err(), LoadError::NotTriangulated);
    mesh.indices = vec![0];
    assert_eq!(load_obj(&[mesh], Mat4::identity()).unwrap_err(), LoadError::NotTriangulated);
}

#[test]
fn an_index_past_the_last_vertex_is_refused() {
    let mut mesh = quad();
    mesh.indices[4] = 4;
    assert_eq!(mesh.to_object3d(Mat4::identity()).unwrap_err(), LoadError::IndexOutOfBounds);
    mesh.indices[4] = 3;
    assert!(mesh.to_object3d(Mat4::identity()).is_ok());
    mesh.positions.truncate(11);
    assert_eq!(load_obj(&[mesh], Mat4::identity()).unwrap_err(), LoadError::IndexOutOfBounds);
}

#[test]
fn of_several_defects_the_first_is_reported() {
    let mut mesh = quad();
    mesh.normals.clear();
    mesh.indices = vec![9];
    assert_eq!(mesh.to_object3d(Mat4::identity()).unwrap_err(), LoadError::MissingNormals);
    let mut mesh = quad();
    mesh.indices = vec![9, 9];
    assert_eq!(mesh.to_object3d(Mat4::identity()).unwrap_err(), LoadError::NotTriangulated);
}

#[test]
fn one_bad_model_leaves_no_mesh_at_all() {
    let mut unindexed = quad();
    unindexed.indices = vec![0, 1, 7];
    let mut bare = quad();
    bare.normals.clear();
    assert_eq!(
        load_obj(&[quad(), unindexed, bare], Mat4::identity()).unwrap_err(),
        LoadError::IndexOutOfBounds
    );
    let mut unindexed = quad();
    unindexed.indices = vec![0, 1, 7];
    let mut bare = quad();
    bare.normals.clear();
    assert_eq!(
        load_obj(&[quad(), bare, unindexed, quad()], Mat4::identity()).unwrap_err(),
        LoadError::MissingNormals
    );
}
