use primitive_mesh::mesh::{rectangle_index_buffer, MeshData, Topology};
use primitive_mesh::scalar::Scalar;
use primitive_mesh::vector::{Vec2, Vec3};

fn mesh(vertices: usize, indices: Vec<u32>, topology: Topology) -> MeshData {
    let origin = Vec3::new(Scalar::zero(), Scalar::zero(), Scalar::zero());
    let corner = Vec2::new(Scalar::zero(), Scalar::zero());
    MeshData {
        positions: vec![origin; vertices],
        normals: vec![origin; vertices],
        uvs: vec![corner; vertices],
        indices,
        topology,
    }
}

#[test]
fn rectangle_indices_are_two_triangles() {
    assert_eq!(rectangle_index_buffer(), vec![0, 2, 1, 0, 3, 2]);
}

#[test]
fn vectors_keep_their_components() {
    let v = Vec3::new(Scalar::one(), Scalar::two(), Scalar::neg_one());
    assert_eq!((v.x, v.y, v.z), (Scalar::one(), Scalar::two(), Scalar::neg_one()));
    let w = Vec2::new(Scalar::two(), Scalar::zero());
    assert_eq!((w.x, w.y), (Scalar::two(), Scalar::zero()));
}

#[test]
fn a_mesh_with_indices_in_range_is_well_formed() {
    assert!(mesh(3, vec![0, 1, 2], Topology::TriangleList).is_well_formed());
    assert!(mesh(3, vec![], Topology::TriangleList).is_well_formed());
    assert!(mesh(0, vec![], Topology::TriangleList).is_well_formed());
    assert_eq!(mesh(3, vec![0, 1, 2], Topology::TriangleList).vertex_count(), 3);
}

#[test]
fn an_index_out_of_range_is_not_well_formed() {
    assert!(!mesh(3, vec![0, 1, 3], Topology::TriangleList).is_well_formed());
    assert!(!mesh(0, vec![0, 0, 0], Topology::TriangleList).is_well_formed());
}

#[test]
fn a_triangle_list_takes_indices_in_threes() {
    assert!(!mesh(3, vec![0, 1], Topology::TriangleList).is_well_formed());
    assert!(!mesh(3, vec![0, 1, 2, 0], Topology::TriangleList).is_well_formed());
    assert!(mesh(3, vec![0, 1], Topology::LineList).is_well_formed());
    assert!(mesh(3, vec![0, 1, 2, 0], Topology::LineStrip).is_well_formed());
}

#[test]
fn attribute_buffers_of_unequal_length_are_not_well_formed() {
    let mut short_normals = mesh(3, vec![0, 1, 2], Topology::TriangleList);
    short_normals.normals.pop();
    assert!(!short_normals.is_well_formed());
    let mut long_uvs = mesh(3, vec![0, 1, 2], Topology::TriangleList);
    long_uvs.uvs.push(Vec2::new(Scalar::zero(), Scalar::zero()));
    assert!(!long_uvs.is_well_formed());
}
