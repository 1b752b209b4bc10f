//! Squares in the XZ plane, facing +Y.

use crate::mesh::{rectangle_index_buffer, rectangle_indices, MeshData, MeshView, Topology};
use crate::scalar::Scalar;
use crate::vector::{Vec2, Vec3};
use vstd::prelude::*;

verus! {

/// A square in the XZ plane, centred at the origin at height zero.
#[derive(Clone, Copy, Debug, PartialEq, Eq, Hash, Structural)]
pub struct Plane {
    /// The total side length of the square.
    pub size: Scalar,
}

impl Plane {
    /// The mesh of the plane. With `e` for half the side length, the
    /// vertices lie at (e, 0, -e), (e, 0, e), (-e, 0, e) and (-e, 0, -e),
    /// all facing +Y.
    pub open spec fn mesh_view(self) -> MeshView {
        let extent = self.size.halved();
        let zero = Scalar::zero();
        let one = Scalar::one();
        MeshView {
            positions: seq![
                Vec3::new(extent, zero, extent.negated()),
                Vec3::new(extent, zero, extent),
                Vec3::new(extent.negated(), zero, extent),
                Vec3::new(extent.negated(), zero, extent.negated()),
            ],
            normals: Seq::new(4, |i: int| Vec3::new(zero, one, zero)),
            uvs: seq![
                Vec2::new(one, one),
                Vec2::new(one, zero),
                Vec2::new(zero, zero),
                Vec2::new(zero, one),
            ],
            indices: rectangle_indices(),
            topology: Topology::TriangleList,
        }
    }

    /// Builds the four vertices and six indices of the plane.
    pub fn mesh(&self) -> (mesh: MeshData)
        ensures
            mesh@ == self.mesh_view(),
            mesh.well_formed(),
            mesh@.positions.len() == 4,
            forall|i: int| 0 <= i < 4 ==> (#[trigger] mesh@.positions[i]).y == Scalar::zero(),
            mesh@.normals.len() == 4,
            forall|i: int|
                0 <= i < 4 ==> #[trigger] mesh@.normals[i] == Vec3::new(
                    Scalar::zero(),
                    Scalar::one(),
                    Scalar::zero(),
                ),
            mesh@.uvs == seq![
                Vec2::new(Scalar::one(), Scalar::one()),
                Vec2::new(Scalar::one(), Scalar::zero()),
                Vec2::new(Scalar::zero(), Scalar::zero()),
                Vec2::new(Scalar::zero(), Scalar::one()),
            ],
            mesh@.indices == rectangle_indices(),
    {
        let extent = self.size.half();
        let zero = Scalar::zero();
        let one = Scalar::one();
        let normal = Vec3::new(zero, one, zero);

        let positions = vec![
            Vec3::new(extent, zero, extent.neg()),
            Vec3::new(extent, zero, extent),
            Vec3::new(extent.neg(), zero, extent),
            Vec3::new(extent.neg(), zero, extent.neg()),
        ];
        let normals = vec![normal, normal, normal, normal];
        let uvs = vec![
            Vec2::new(one, one),
            Vec2::new(one, zero),
            Vec2::new(zero, zero),
            Vec2::new(zero, one),
        ];
        let indices = rectangle_index_buffer();
        proof {
            let view = self.mesh_view();
            assert(positions@ =~= view.positions);
            assert(normals@ =~= view.normals);
            assert(uvs@ =~= view.uvs);
        }
        MeshData { positions, normals, uvs, indices, topology: Topology::TriangleList }
    }
}

} // verus!
