use primitive_mesh::cuboid::{Box, Cube};
use primitive_mesh::mesh::{MeshData, Topology};
use primitive_mesh::scalar::Scalar;
use primitive_mesh::vector::{Vec2, Vec3};

fn scalar(x: f32) -> Scalar {
    Scalar::from_bits(x.to_bits())
}

fn triple(v: Vec3) -> [f32; 3] {
    [f32::from_bits(v.x.bits), f32::from_bits(v.y.bits), f32::from_bits(v.z.bits)]
}

fn pair(v: Vec2) -> [f32; 2] {
    [f32::from_bits(v.x.bits), f32::from_bits(v.y.bits)]
}

fn bounds(min_x: f32, max_x: f32, min_y: f32, max_y: f32, min_z: f32, max_z: f32) -> Box {
    Box {
        min_x: scalar(min_x),
        max_x: scalar(max_x),
        min_y: scalar(min_y),
        max_y: scalar(max_y),
        min_z: scalar(min_z),
        max_z: scalar(max_z),
    }
}

fn positions(mesh: &MeshData) -> Vec<[f32; 3]> {
    mesh.positions.iter().map(|v| triple(*v)).collect()
}

fn normals(mesh: &MeshData) -> Vec<[f32; 3]> {
    mesh.normals.iter().map(|v| triple(*v)).collect()
}

fn uvs(mesh: &MeshData) -> Vec<[f32; 2]> {
    mesh.uvs.iter().map(|v| pair(*v)).collect()
}

#[test]
fn box_new_centres_the_box() {
    let b = Box::new(scalar(2.0), scalar(1.0), scalar(3.0));
    assert_eq!(b, bounds(-1.0, 1.0, -0.5, 0.5, -1.5, 1.5));
}

#[test]
fn box_default_is_two_by_one_by_one() {
    assert_eq!(Box::default(), bounds(-1.0, 1.0, -0.5, 0.5, -0.5, 0.5));
}

#[test]
fn cube_default_has_size_one() {
    assert_eq!(Cube::default(), Cube::new(scalar(1.0)));
    assert_eq!(Cube::default().size, scalar(1.0));
}

#[test]
fn box_mesh_has_the_fixed_counts() {
    let mesh = Box::new(scalar(2.0), scalar(1.0), scalar(3.0)).mesh();
    assert_eq!(mesh.positions.len(), 24);
    assert_eq!(mesh.normals.len(), 24);
    assert_eq!(mesh.uvs.len(), 24);
    assert_eq!(mesh.indices.len(), 36);
    assert_eq!(mesh.vertex_count(), 24);
    assert_eq!(mesh.topology, Topology::TriangleList);
    assert!(mesh.is_well_formed());
}

#[test]
fn box_mesh_lists_the_corners_face_by_face() {
    let (x0, x1, y0, y1, z0, z1) = (-1.0, 2.0, -3.0, 4.0, -5.0, 6.0);
    let mesh = bounds(x0, x1, y0, y1, z0, z1).mesh();
    let expected: [([f32; 3], [f32; 3], [f32; 2]); 24] = [
        // top
        ([x0, y0, z1], [0., 0., 1.0], [0., 0.]),
        ([x1, y0, z1], [0., 0., 1.0], [1.0, 0.]),
        ([x1, y1, z1], [0., 0., 1.0], [1.0, 1.0]),
        ([x0, y1, z1], [0., 0., 1.0], [0., 1.0]),
        // bottom
        ([x0, y1, z0], [0., 0., -1.0], [1.0, 0.]),
        ([x1, y1, z0], [0., 0., -1.0], [0., 0.]),
        ([x1, y0, z0], [0., 0., -1.0], [0., 1.0]),
        ([x0, y0, z0], [0., 0., -1.0], [1.0, 1.0]),
        // right
        ([x1, y0, z0], [1.0, 0., 0.], [0., 0.]),
        ([x1, y1, z0], [1.0, 0., 0.], [1.0, 0.]),
        ([x1, y1, z1], [1.0, 0., 0.], [1.0, 1.0]),
        ([x1, y0, z1], [1.0, 0., 0.], [0., 1.0]),
        // left
        ([x0, y0, z1], [-1.0, 0., 0.], [1.0, 0.]),
        ([x0, y1, z1], [-1.0, 0., 0.], [0., 0.]),
        ([x0, y1, z0], [-1.0, 0., 0.], [0., 1.0]),
        ([x0, y0, z0], [-1.0, 0., 0.], [1.0, 1.0]),
        // front
        ([x1, y1, z0], [0., 1.0, 0.], [1.0, 0.]),
        ([x0, y1, z0], [0., 1.0, 0.], [0., 0.]),
        ([x0, y1, z1], [0., 1.0, 0.], [0., 1.0]),
        ([x1, y1, z1], [0., 1.0, 0.], [1.0, 1.0]),
        // back
        ([x1, y0, z1], [0., -1.0, 0.], [0., 0.]),
        ([x0, y0, z1], [0., -1.0, 0.], [1.0, 0.]),
        ([x0, y0, z0], [0., -1.0, 0.], [1.0, 1.0]),
        ([x1, y0, z0], [0., -1.0, 0.], [0., 1.0]),
    ];
    let (positions, normals, uvs) = (positions(&mesh), normals(&mesh), uvs(&mesh));
    for (i, (position, normal, uv)) in expected.iter().enumerate() {
        assert_eq!(positions[i], *position, "position {}", i);
        assert_eq!(normals[i], *normal, "normal {}", i);
        assert_eq!(uvs[i], *uv, "uv {}", i);
    }
    // The zeros of the normals and texture coordinates are positive zeros.
    for normal in &mesh.normals {
        for component in [normal.x, normal.y, normal.z] {
            assert!([0, 0x3F80_0000, 0xBF80_0000].contains(&component.bits));
        }
    }
    for uv in &mesh.uvs {
        for component in [uv.x, uv.y] {
            assert!(component.bits == 0 || component.bits == 0x3F80_0000);
        }
    }
}

#[test]
fn box_mesh_indices_split_each_face_in_two() {
    let mesh = Box::default().mesh();
    assert_eq!(
        mesh.indices,
        vec![
            0, 1, 2, 2, 3, 0, // top
            4, 5, 6, 6, 7, 4, // bottom
            8, 9, 10, 10, 11, 8, // right
            12, 13, 14, 14, 15, 12, // left
            16, 17, 18, 18, 19, 16, // front
            20, 21, 22, 22, 23, 20, // back
        ]
    );
}

#[test]
fn box_faces_are_flat_for_any_positive_lengths() {
    let lengths = [(1.0f32, 1.0f32, 1.0f32), (2.0, 1.0, 1.0), (0.25, 8.0, 3.5), (1e-30, 1e30, 7.0)];
    for (x, y, z) in lengths {
        let mesh = Box::new(scalar(x), scalar(y), scalar(z)).mesh();
        assert_eq!(mesh.positions.len(), 24);
        assert_eq!(mesh.normals.len(), 24);
        assert_eq!(mesh.uvs.len(), 24);
        assert_eq!(mesh.indices.len(), 36);
        let normals = normals(&mesh);
        for face in 0..6 {
            let normal = normals[4 * face];
            for corner in 0..4 {
                assert_eq!(normals[4 * face + corner], normal);
            }
            let ones = normal.iter().filter(|c| c.abs() == 1.0).count();
            let zeros = normal.iter().filter(|c| **c == 0.0).count();
            assert_eq!((ones, zeros), (1, 2));
        }
    }
}

#[test]
fn box_corners_lie_on_their_face() {
    let b = Box::new(scalar(2.0), scalar(4.0), scalar(6.0));
    let mesh = b.mesh();
    let (positions, normals) = (positions(&mesh), normals(&mesh));
    for i in 0..24 {
        // Along the axis of its normal each corner sits on the bound of that side.
        let along: f32 = (0..3).map(|axis| positions[i][axis] * normals[i][axis]).sum();
        let half = [1.0, 2.0, 3.0];
        let axis = (0..3).find(|axis| normals[i][*axis] != 0.0).unwrap();
        assert_eq!(along, half[axis]);
    }
}

#[test]
fn box_accepts_zero_and_inverted_extents() {
    let flat = Box::new(scalar(0.0), scalar(1.0), scalar(1.0)).mesh();
    assert!(flat.is_well_formed());
    assert_eq!(positions(&flat)[0], [-0.0, -0.5, 0.5]);
    let inverted = bounds(1.0, -1.0, 1.0, -1.0, 1.0, -1.0).mesh();
    assert!(inverted.is_well_formed());
    assert_eq!(positions(&inverted)[0], [1.0, 1.0, -1.0]);
    let negative = Box::new(scalar(-2.0), scalar(-2.0), scalar(-2.0));
    assert_eq!(negative, bounds(1.0, -1.0, 1.0, -1.0, 1.0, -1.0));
}

#[test]
fn cube_mesh_is_the_mesh_of_the_box_of_equal_sides() {
    let cube = Cube::new(scalar(3.0));
    let same = Box::new(scalar(3.0), scalar(3.0), scalar(3.0));
    assert_eq!(cube.mesh(), same.mesh());
    assert_eq!(positions(&cube.mesh())[2], [1.5, 1.5, 1.5]);
    assert!(cube.mesh().is_well_formed());
}
