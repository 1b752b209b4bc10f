//! The vertex and index buffers that every generator hands out.

use crate::vector::{Vec2, Vec3};
use vstd::prelude::*;

verus! {

/// How the entries of an index buffer are grouped into primitives.
#[derive(Clone, Copy, Debug, PartialEq, Eq, Hash, Structural)]
pub enum Topology {
    PointList,
    LineList,
    LineStrip,
    TriangleList,
    TriangleStrip,
}

/// Why a mesh was not generated.
#[derive(Clone, Copy, Debug, PartialEq, Eq, Hash, Structural)]
pub enum MeshGenerationError {
    /// An icosphere of `requested` subdivisions was asked for, which is
    /// projected to take `projected` vertices, more than `limit`.
    TooManyVertices { requested: usize, projected: usize, limit: usize },
}

/// Vertex attributes, one entry of each per vertex, and the indices that join
/// the vertices into primitives.
#[derive(Clone, Debug, PartialEq, Eq)]
pub struct MeshData {
    pub positions: Vec<Vec3>,
    pub normals: Vec<Vec3>,
    pub uvs: Vec<Vec2>,
    pub indices: Vec<u32>,
    pub topology: Topology,
}

/// A mesh as plain sequences.
pub struct MeshView {
    pub positions: Seq<Vec3>,
    pub normals: Seq<Vec3>,
    pub uvs: Seq<Vec2>,
    pub indices: Seq<u32>,
    pub topology: Topology,
}

impl MeshView {
    /// Every vertex has all three attributes, every index names a vertex,
    /// and the indices of a triangle list come in threes.
    pub open spec fn well_formed(self) -> bool {
        &&& self.normals.len() == self.positions.len()
        &&& self.uvs.len() == self.positions.len()
        &&& forall|k: int|
            0 <= k < self.indices.len() ==> (#[trigger] self.indices[k]) < self.positions.len()
        &&& self.topology == Topology::TriangleList ==> self.indices.len() % 3 == 0
    }
}

/// The indices of a rectangle of four vertices, as the two triangles
/// (0, 2, 1) and (0, 3, 2).
pub open spec fn rectangle_indices() -> Seq<u32> {
    seq![0u32, 2u32, 1u32, 0u32, 3u32, 2u32]
}

/// The index buffer of a rectangle of four vertices.
pub fn rectangle_index_buffer() -> (indices: Vec<u32>)
    ensures
        indices@ == rectangle_indices(),
{
    vec![0, 2, 1, 0, 3, 2]
}

impl View for MeshData {
    type V = MeshView;

    open spec fn view(&self) -> MeshView {
        MeshView {
            positions: self.positions@,
            normals: self.normals@,
            uvs: self.uvs@,
            indices: self.indices@,
            topology: self.topology,
        }
    }
}

impl MeshData {
    pub open spec fn well_formed(&self) -> bool {
        self@.well_formed()
    }

    /// The number of vertices, counted by their positions.
    pub fn vertex_count(&self) -> (n: usize)
        ensures
            n == self@.positions.len(),
    {
        self.positions.len()
    }

    /// Tests the invariant that every generator of this crate establishes.
    pub fn is_well_formed(&self) -> (ok: bool)
        ensures
            ok == self.well_formed(),
    {
        let n = self.positions.len();
        if self.normals.len() != n || self.uvs.len() != n {
            return false;
        }
        let mut k: usize = 0;
        while k < self.indices.len()
            invariant
                k <= self.indices.len(),
                n == self.positions.len(),
                forall|j: int| 0 <= j < k ==> (#[trigger] self.indices@[j]) < n,
            decreases self.indices.len() - k,
        {
            if self.indices[k] as usize >= n {
                assert(self@.indices[k as int] >= self@.positions.len());
                return false;
            }
            k += 1;
        }
        match self.topology {
            Topology::TriangleList => self.indices.len() % 3 == 0,
            _ => true,
        }
    }
}

} // verus!
