use primitive_mesh::cuboid::{Box, Cube};
use primitive_mesh::descriptor::ShapeDescriptor;
use primitive_mesh::icosphere::Icosphere;
use primitive_mesh::mesh::MeshGenerationError;
use primitive_mesh::plane::Plane;
use primitive_mesh::quad::Quad;
use primitive_mesh::scalar::Scalar;
use primitive_mesh::vector::{Vec2, Vec3};

fn scalar(x: f32) -> Scalar {
    Scalar::from_bits(x.to_bits())
}

fn number(s: Scalar) -> f32 {
    f32::from_bits(s.bits)
}

fn scale(point: Vec3, radius: Scalar) -> Vec3 {
    let r = number(radius);
    Vec3::new(scalar(number(point.x) * r), scalar(number(point.y) * r), scalar(number(point.z) * r))
}

fn uv(point: Vec3) -> Vec2 {
    let inclination = number(point.z).acos();
    let azimuth = number(point.y).atan2(number(point.x));
    Vec2::new(
        scalar(1.0 - (inclination / std::f32::consts::PI)),
        scalar((azimuth / std::f32::consts::PI) * 0.5),
    )
}

#[test]
fn build_gives_each_shape_its_own_mesh() {
    let cube = Cube::new(scalar(2.0));
    assert_eq!(ShapeDescriptor::Cube(cube).build(scale, uv), Ok(cube.mesh()));
    let cuboid = Box::new(scalar(1.0), scalar(2.0), scalar(3.0));
    assert_eq!(ShapeDescriptor::Box(cuboid).build(scale, uv), Ok(cuboid.mesh()));
    let quad = Quad::flipped(Vec2::new(scalar(1.0), scalar(2.0)));
    assert_eq!(ShapeDescriptor::Quad(quad).build(scale, uv), Ok(quad.mesh()));
    let plane = Plane { size: scalar(8.0) };
    assert_eq!(ShapeDescriptor::Plane(plane).build(scale, uv), Ok(plane.mesh()));
    let sphere = Icosphere { radius: scalar(2.0), subdivisions: 2 };
    assert_eq!(ShapeDescriptor::Icosphere(sphere).build(scale, uv), sphere.mesh(scale, uv));
}

#[test]
fn build_refuses_only_a_sphere_that_is_too_fine() {
    let sphere = Icosphere { radius: scalar(2.0), subdivisions: 80 };
    assert_eq!(
        ShapeDescriptor::Icosphere(sphere).build(scale, uv),
        Err(MeshGenerationError::TooManyVertices { requested: 80, projected: 65612, limit: 65535 })
    );
}

#[test]
fn every_built_mesh_is_well_formed() {
    let shapes = [
        ShapeDescriptor::Cube(Cube::default()),
        ShapeDescriptor::Box(Box::default()),
        ShapeDescriptor::Quad(Quad::new(Vec2::new(scalar(1.0), scalar(2.0)))),
        ShapeDescriptor::Quad(Quad::flipped(Vec2::new(scalar(1.0), scalar(2.0)))),
        ShapeDescriptor::Plane(Plane { size: scalar(8.0) }),
        ShapeDescriptor::Icosphere(Icosphere::default()),
    ];
    for shape in shapes {
        let mesh = shape.build(scale, uv).unwrap();
        assert!(mesh.is_well_formed());
        assert_eq!(mesh.positions.len(), mesh.normals.len());
        assert_eq!(mesh.positions.len(), mesh.uvs.len());
        assert!(mesh.indices.iter().all(|i| (*i as usize) < mesh.positions.len()));
    }
}

#[test]
fn building_a_box_calls_neither_function() {
    let result = ShapeDescriptor::Box(Box::default()).build(
        |_point: Vec3, _radius: Scalar| -> Vec3 { panic!("scale was called") },
        |_point: Vec3| -> Vec2 { panic!("uv was called") },
    );
    assert!(result.is_ok());
}
