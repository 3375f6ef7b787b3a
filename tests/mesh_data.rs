use ecocide::mesh::{check_vertex_capacity, expand_indexed, mesh_vertices, MeshError};

#[test]
fn capacity_accepts_full_buffer() {
    assert_eq!(check_vertex_capacity(0), Ok(0));
    assert_eq!(check_vertex_capacity(3), Ok(72));
    assert_eq!(check_vertex_capacity(5000), Ok(120000));
}

#[test]
fn capacity_rejects_overflowing_mesh() {
    assert_eq!(check_vertex_capacity(5001), Err(MeshError::CapacityExceeded));
    assert_eq!(check_vertex_capacity(usize::MAX), Err(MeshError::CapacityExceeded));
}

#[test]
fn expand_interleaves_position_and_normal() {
    let positions: Vec<f32> = vec![0.0, -1.0, 0.0, 1.0, 1.0, 0.0, -1.0, 1.0, 0.0];
    let normals: Vec<f32> = vec![0.0, 1.0, 0.0, 1.0, 0.0, 0.0, 0.0, 0.0, 1.0];
    let out = expand_indexed(&positions, &normals, &vec![2, 0, 2]).unwrap();
    assert_eq!(
        out,
        vec![
            -1.0, 1.0, 0.0, 0.0, 0.0, 1.0, //
            0.0, -1.0, 0.0, 0.0, 1.0, 0.0, //
            -1.0, 1.0, 0.0, 0.0, 0.0, 1.0,
        ]
    );
}

#[test]
fn expand_rejects_index_past_data() {
    let positions: Vec<f32> = vec![0.0; 6];
    let normals: Vec<f32> = vec![0.0; 9];
    assert_eq!(expand_indexed(&positions, &normals, &vec![0, 2]), Err(MeshError::IndexOutOfRange));
    assert_eq!(expand_indexed(&normals, &positions, &vec![2]), Err(MeshError::IndexOutOfRange));
    assert_eq!(expand_indexed(&positions, &normals, &vec![]), Ok(vec![]));
}

#[test]
fn mesh_over_capacity_is_rejected() {
    let positions: Vec<f32> = vec![0.5; 3];
    let normals: Vec<f32> = vec![0.25; 3];
    let fits = vec![0u32; 5000];
    let out = mesh_vertices(&positions, &normals, &fits).unwrap();
    assert_eq!(out.len(), 30000);
    assert_eq!(out[29999], 0.25);
    let too_many = vec![0u32; 5001];
    assert_eq!(mesh_vertices(&positions, &normals, &too_many), Err(MeshError::CapacityExceeded));
    assert_eq!(mesh_vertices(&positions, &normals, &vec![1]), Err(MeshError::IndexOutOfRange));
}
