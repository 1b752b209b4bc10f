use primitive_mesh::mesh::Topology;
use primitive_mesh::plane::Plane;
use primitive_mesh::scalar::Scalar;
use primitive_mesh::vector::{Vec2, Vec3};

fn scalar(x: f32) -> Scalar {
    Scalar::from_bits(x.to_bits())
}

fn triple(v: Vec3) -> [f32; 3] {
    [f32::from_bits(v.x.bits), f32::from_bits(v.y.bits), f32::from_bits(v.z.bits)]
}

fn pair(v: Vec2) -> [f32; 2] {
    [f32::from_bits(v.x.bits), f32::from_bits(v.y.bits)]
}

#[test]
fn plane_mesh_lists_its_four_corners() {
    let mesh = Plane { size: scalar(4.0) }.mesh();
    let positions: Vec<[f32; 3]> = mesh.positions.iter().map(|v| triple(*v)).collect();
    assert_eq!(
        positions,
        vec![[2.0, 0.0, -2.0], [2.0, 0.0, 2.0], [-2.0, 0.0, 2.0], [-2.0, 0.0, -2.0]]
    );
    assert_eq!(mesh.indices, vec![0, 2, 1, 0, 3, 2]);
    assert_eq!(mesh.topology, Topology::TriangleList);
    assert!(mesh.is_well_formed());
}

#[test]
fn plane_lies_at_height_zero_facing_up() {
    for size in [1.0f32, 4.0, 0.0, -3.0, 1e-40, 1e38] {
        let mesh = Plane { size: scalar(size) }.mesh();
        assert_eq!(mesh.positions.len(), 4);
        assert_eq!(mesh.normals.len(), 4);
        for position in &mesh.positions {
            assert_eq!(position.y.bits, 0.0f32.to_bits());
        }
        for normal in &mesh.normals {
            assert_eq!(triple(*normal), [0.0, 1.0, 0.0]);
            assert_eq!(*normal, Vec3::new(Scalar::zero(), Scalar::one(), Scalar::zero()));
        }
        let uvs: Vec<[f32; 2]> = mesh.uvs.iter().map(|v| pair(*v)).collect();
        assert_eq!(uvs, vec![[1.0, 1.0], [1.0, 0.0], [0.0, 0.0], [0.0, 1.0]]);
        assert!(mesh.is_well_formed());
    }
}

#[test]
fn plane_extent_is_half_the_size() {
    let mesh = Plane { size: scalar(5.0) }.mesh();
    assert_eq!(triple(mesh.positions[0]), [2.5, 0.0, -2.5]);
    assert_eq!(triple(mesh.positions[2]), [-2.5, 0.0, 2.5]);
}
