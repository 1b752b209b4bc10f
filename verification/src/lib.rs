//! Procedural meshes of a few primitive shapes: boxes and cubes, quads,
//! planes and icospheres.
//!
//! A mesh is three vertex attributes (position, normal, texture coordinate)
//! and a triangle index buffer. Every generator hands out a well-formed
//! mesh: the attribute buffers have one length, every index names a vertex,
//! and the indices come in threes.
//!
//! Numbers are single-precision and are held by their bit patterns
//! ([`Scalar`]). Boxes, quads and planes only select, negate and halve
//! the numbers they are given, which is exact on the bits, so their meshes
//! are stated down to the last bit. An icosphere takes its points from the
//! `hexasphere` crate; the scaling of a point and its texture mapping are
//! handed in by the caller as functions.

pub mod scalar;
pub mod vector;
pub mod mesh;
pub mod cuboid;
pub mod quad;
pub mod plane;
pub mod subdivider;
pub mod icosphere;
pub mod descriptor;

pub use crate::cuboid::{Box, Cube};
pub use crate::descriptor::ShapeDescriptor;
pub use crate::icosphere::Icosphere;
pub use crate::mesh::{MeshData, MeshGenerationError, Topology};
pub use crate::plane::Plane;
pub use crate::quad::Quad;
pub use crate::scalar::Scalar;
pub use crate::vector::{Vec2, Vec3};
