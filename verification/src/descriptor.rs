//! One entry point for all shapes.

use crate::cuboid::{Box, Cube};
use crate::icosphere::{capped_projection, Icosphere};
use crate::mesh::{MeshData, MeshGenerationError};
use crate::plane::Plane;
use crate::quad::Quad;
use crate::scalar::Scalar;
use crate::vector::{Vec2, Vec3};
use vstd::prelude::*;

verus! {

/// Any of the shapes that this crate can build.
#[derive(Clone, Copy, Debug, PartialEq, Eq, Hash, Structural)]
pub enum ShapeDescriptor {
    Cube(Cube),
    Box(Box),
    Quad(Quad),
    Plane(Plane),
    Icosphere(Icosphere),
}

impl ShapeDescriptor {
    /// Builds the mesh of the shape.
    ///
    /// Only an icosphere can be refused, and only an icosphere calls `scale`
    /// and `uv`; see [`Icosphere::mesh`].
    pub fn build<F, G>(&self, scale: F, uv: G) -> (r: Result<MeshData, MeshGenerationError>) where
        F: Fn(Vec3, Scalar) -> Vec3,
        G: Fn(Vec3) -> Vec2,

        requires
            match *self {
                ShapeDescriptor::Icosphere(sphere) => {
                    &&& forall|point: Vec3| call_requires(scale, (point, sphere.radius))
                    &&& forall|point: Vec3| call_requires(uv, (point,))
                },
                _ => true,
            },
        ensures
            r is Ok ==> r->Ok_0.well_formed(),
            match *self {
                ShapeDescriptor::Cube(cube) => r is Ok && r->Ok_0@ == cube.as_box().mesh_view(),
                ShapeDescriptor::Box(b) => r is Ok && r->Ok_0@ == b.mesh_view(),
                ShapeDescriptor::Quad(quad) => r is Ok && r->Ok_0@ == quad.mesh_view(),
                ShapeDescriptor::Plane(plane) => r is Ok && r->Ok_0@ == plane.mesh_view(),
                ShapeDescriptor::Icosphere(sphere) => {
                    &&& r is Err <==> sphere.is_too_fine()
                    &&& r is Err ==> r->Err_0 == sphere.refusal(
                        capped_projection(sphere.subdivisions),
                    )
                    &&& r is Ok ==> sphere.is_mesh(r->Ok_0@, scale, uv)
                },
            },
    {
        match self {
            ShapeDescriptor::Cube(cube) => Ok(cube.mesh()),
            ShapeDescriptor::Box(b) => Ok(b.mesh()),
            ShapeDescriptor::Quad(quad) => Ok(quad.mesh()),
            ShapeDescriptor::Plane(plane) => Ok(plane.mesh()),
            ShapeDescriptor::Icosphere(sphere) => sphere.mesh(scale, uv),
        }
    }
}

} // verus!
