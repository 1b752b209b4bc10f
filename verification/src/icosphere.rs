//! Spheres made from a subdivided icosahedron.
//!
//! The subdivider lays its points on the unit sphere. A point is its own
//! normal; scaled by the radius it is the position. Scaling and the texture
//! mapping are arithmetic on the numbers themselves, which this crate leaves
//! to its caller: both are handed in as functions and applied point by
//! point.

use crate::mesh::{MeshData, MeshGenerationError, MeshView, Topology};
use crate::scalar::Scalar;
use crate::subdivider::{
    append_face, raw_points, subdivide, subdivided_face, subdivided_points, subdivision_level,
    SubdividedIcosahedron, FACES,
};
use crate::vector::{Vec2, Vec3};
use vstd::prelude::*;

verus! {

/// The first subdivision level that is refused.
pub const SUBDIVISION_LIMIT: usize = 80;

/// The most vertices that a sphere may be projected to take: the largest
/// number that sixteen bits hold.
pub const VERTEX_LIMIT: usize = 65535;

/// A sphere made from a subdivided icosahedron.
#[derive(Clone, Copy, Debug, PartialEq, Eq, Hash, Structural)]
pub struct Icosphere {
    /// The radius of the sphere.
    pub radius: Scalar,
    /// The number of points added along each edge of the icosahedron.
    pub subdivisions: usize,
}

/// The number of vertices that a level is taken to need: ten times the
/// square of one more than the level, and two. It is a bound to compare
/// against the limit, not the count of what the subdivider hands out.
pub open spec fn projected_vertex_count(subdivisions: nat) -> nat {
    (subdivisions + 1) * (subdivisions + 1) * 10 + 2
}

/// The projected vertex count as far as the machine can hold it: the count
/// itself, or `usize::MAX` where the count is larger.
pub open spec fn capped_projection(subdivisions: usize) -> usize {
    if projected_vertex_count(subdivisions as nat) <= usize::MAX {
        projected_vertex_count(subdivisions as nat) as usize
    } else {
        usize::MAX
    }
}

/// The indices of the first `count` faces, one face after the other.
pub open spec fn faces_through(sphere: SubdividedIcosahedron, count: nat) -> Seq<u32>
    decreases count,
{
    if count == 0 {
        Seq::empty()
    } else {
        faces_through(sphere, (count - 1) as nat) + subdivided_face(sphere, count - 1)
    }
}

/// Whether every index names one of `vertices` vertices and the indices come
/// in threes.
pub open spec fn indices_fit(indices: Seq<u32>, vertices: nat) -> bool {
    &&& indices.len() % 3 == 0
    &&& forall|k: int| 0 <= k < indices.len() ==> (#[trigger] indices[k]) < vertices
}

/// The projected vertex count of a level, or `usize::MAX` where the count
/// does not fit.
pub fn projected_vertices(subdivisions: usize) -> (projected: usize)
    ensures
        projected == capped_projection(subdivisions),
{
    let ghost exact = projected_vertex_count(subdivisions as nat);
    let side = match subdivisions.checked_add(1) {
        Some(side) => side,
        None => {
            assert(exact > usize::MAX) by (nonlinear_arith)
                requires
                    exact == (subdivisions + 1) * (subdivisions + 1) * 10 + 2,
                    subdivisions + 1 > usize::MAX,
            ;
            return usize::MAX;
        },
    };
    let square = match side.checked_mul(side) {
        Some(square) => square,
        None => {
            assert(exact > usize::MAX) by (nonlinear_arith)
                requires
                    exact == (subdivisions + 1) * (subdivisions + 1) * 10 + 2,
                    side == subdivisions + 1,
                    side * side > usize::MAX,
            ;
            return usize::MAX;
        },
    };
    let tenfold = match square.checked_mul(10) {
        Some(tenfold) => tenfold,
        None => {
            return usize::MAX;
        },
    };
    match tenfold.checked_add(2) {
        Some(projected) => projected,
        None => usize::MAX,
    }
}

/// Joins the points of a subdivided sphere and its indices into a mesh.
///
/// Each point is the normal of its vertex. Its position is what `scale`
/// makes of the point and the radius, its texture coordinate what `uv` makes
/// of the point.
pub fn sphere_mesh<F, G>(
    points: Vec<Vec3>,
    indices: Vec<u32>,
    radius: Scalar,
    scale: F,
    uv: G,
) -> (mesh: MeshData) where F: Fn(Vec3, Scalar) -> Vec3, G: Fn(Vec3) -> Vec2
    requires
        forall|i: int|
            0 <= i < points@.len() ==> call_requires(scale, (#[trigger] points@[i], radius)),
        forall|i: int| 0 <= i < points@.len() ==> call_requires(uv, (#[trigger] points@[i],)),
    ensures
        mesh@.normals == points@,
        mesh@.indices == indices@,
        mesh@.topology == Topology::TriangleList,
        mesh@.positions.len() == points@.len(),
        mesh@.uvs.len() == points@.len(),
        forall|i: int|
            0 <= i < points@.len() ==> call_ensures(
                scale,
                (points@[i], radius),
                #[trigger] mesh@.positions[i],
            ),
        forall|i: int|
            0 <= i < points@.len() ==> call_ensures(uv, (points@[i],), #[trigger] mesh@.uvs[i]),
        mesh.well_formed() <==> indices_fit(indices@, points@.len()),
{
    let mut positions: Vec<Vec3> = Vec::with_capacity(points.len());
    let mut uvs: Vec<Vec2> = Vec::with_capacity(points.len());
    let mut i: usize = 0;
    while i < points.len()
        invariant
            i <= points@.len(),
            positions@.len() == i,
            uvs@.len() == i,
            forall|j: int|
                0 <= j < points@.len() ==> call_requires(scale, (#[trigger] points@[j], radius)),
            forall|j: int| 0 <= j < points@.len() ==> call_requires(uv, (#[trigger] points@[j],)),
            forall|j: int|
                0 <= j < i ==> call_ensures(scale, (points@[j], radius), #[trigger] positions@[j]),
            forall|j: int| 0 <= j < i ==> call_ensures(uv, (points@[j],), #[trigger] uvs@[j]),
        decreases points@.len() - i,
    {
        let point = points[i];
        positions.push(scale(point, radius));
        uvs.push(uv(point));
        i += 1;
    }
    MeshData { positions, normals: points, uvs, indices, topology: Topology::TriangleList }
}

/// Collects the indices of all twenty faces, in the order of the faces.
pub(crate) fn all_faces(sphere: &SubdividedIcosahedron) -> (indices: Vec<u32>)
    ensures
        indices@ == faces_through(*sphere, FACES as nat),
        indices_fit(indices@, subdivided_points(*sphere).len()),
{
    let mut indices: Vec<u32> = Vec::new();
    let mut face: usize = 0;
    while face < FACES
        invariant
            face <= FACES,
            indices@ == faces_through(*sphere, face as nat),
            indices_fit(indices@, subdivided_points(*sphere).len()),
        decreases FACES - face,
    {
        append_face(sphere, face, &mut indices);
        face += 1;
    }
    indices
}

impl Icosphere {
    /// Whether the level is refused.
    pub open spec fn is_too_fine(self) -> bool {
        self.subdivisions >= SUBDIVISION_LIMIT
    }

    /// The error that a refused level is answered with.
    pub open spec fn refusal(self, projected: usize) -> MeshGenerationError {
        MeshGenerationError::TooManyVertices {
            requested: self.subdivisions,
            projected,
            limit: VERTEX_LIMIT,
        }
    }

    /// Whether `mesh` is cut from `sphere`: its normals are the points of
    /// the sphere and its indices those of the twenty faces, face by face.
    pub open spec fn is_cut_from(self, mesh: MeshView, sphere: SubdividedIcosahedron) -> bool {
        &&& subdivision_level(sphere) == self.subdivisions
        &&& mesh.normals == subdivided_points(sphere)
        &&& mesh.indices == faces_through(sphere, FACES as nat)
    }

    /// Whether `mesh` is a mesh of this sphere under the two functions: it is
    /// well formed and cut from some icosahedron subdivided to the level
    /// asked for, and every vertex has the position that `scale` returned
    /// for its normal and the radius, and the texture coordinate that `uv`
    /// returned for its normal.
    pub open spec fn is_mesh<F, G>(self, mesh: MeshView, scale: F, uv: G) -> bool where
        F: Fn(Vec3, Scalar) -> Vec3,
        G: Fn(Vec3) -> Vec2,
    {
        &&& mesh.well_formed()
        &&& mesh.topology == Topology::TriangleList
        &&& exists|sphere: SubdividedIcosahedron| #[trigger] self.is_cut_from(mesh, sphere)
        &&& forall|i: int|
            0 <= i < mesh.normals.len() ==> call_ensures(
                scale,
                (mesh.normals[i], self.radius),
                #[trigger] mesh.positions[i],
            )
        &&& forall|i: int|
            0 <= i < mesh.normals.len() ==> call_ensures(
                uv,
                (mesh.normals[i],),
                #[trigger] mesh.uvs[i],
            )
    }

    /// Tells whether a sphere of this level may be generated, before any of
    /// it is.
    pub fn check(&self) -> (r: Result<(), MeshGenerationError>)
        ensures
            r is Err <==> self.is_too_fine(),
            r is Err ==> r->Err_0 == self.refusal(capped_projection(self.subdivisions)),
    {
        if self.subdivisions >= SUBDIVISION_LIMIT {
            Err(
                MeshGenerationError::TooManyVertices {
                    requested: self.subdivisions,
                    projected: projected_vertices(self.subdivisions),
                    limit: VERTEX_LIMIT,
                },
            )
        } else {
            Ok(())
        }
    }

    /// Builds the mesh of the sphere, or refuses a level of 80 or more
    /// before anything is generated.
    ///
    /// The icosahedron is subdivided to the level asked for. Each of its
    /// points, which lie on the unit sphere, is the normal of one vertex;
    /// `scale` is given the point and the radius and returns the position,
    /// `uv` is given the point and returns the texture coordinate. The
    /// indices are those of the twenty faces in ascending order.
    pub fn mesh<F, G>(&self, scale: F, uv: G) -> (r: Result<MeshData, MeshGenerationError>) where
        F: Fn(Vec3, Scalar) -> Vec3,
        G: Fn(Vec3) -> Vec2,

        requires
            forall|point: Vec3| call_requires(scale, (point, self.radius)),
            forall|point: Vec3| call_requires(uv, (point,)),
        ensures
            r is Err <==> self.is_too_fine(),
            r is Err ==> r->Err_0 == self.refusal(capped_projection(self.subdivisions)),
            r is Ok ==> self.is_mesh(r->Ok_0@, scale, uv),
    {
        match self.check() {
            Err(refusal) => Err(refusal),
            Ok(()) => {
                let sphere = subdivide(self.subdivisions);
                let points = raw_points(&sphere);
                let indices = all_faces(&sphere);
                let mesh = sphere_mesh(points, indices, self.radius, scale, uv);
                assert(self.is_cut_from(mesh@, sphere));
                Ok(mesh)
            },
        }
    }
}

impl Default for Icosphere {
    /// The sphere of radius 1 at level 5.
    fn default() -> (sphere: Icosphere)
        ensures
            sphere == (Icosphere { radius: Scalar::one(), subdivisions: 5 }),
    {
        Icosphere { radius: Scalar::one(), subdivisions: 5 }
    }
}

/// A level is refused exactly when its projected vertex count is over the
/// limit: level 79 is projected to take 64002 vertices, level 80 to take
/// 65612.
pub proof fn lemma_refused_iff_over_limit(subdivisions: nat)
    ensures
        subdivisions >= SUBDIVISION_LIMIT <==> projected_vertex_count(subdivisions) > VERTEX_LIMIT,
        projected_vertex_count(79) == 64002,
        projected_vertex_count(80) == 65612,
{
    assert(projected_vertex_count(79) == 64002) by (nonlinear_arith);
    assert(projected_vertex_count(80) == 65612) by (nonlinear_arith);
    if subdivisions >= 80 {
        assert((subdivisions + 1) * (subdivisions + 1) * 10 + 2 > 65535) by (nonlinear_arith)
            requires
                subdivisions >= 80,
        ;
    } else {
        assert((subdivisions + 1) * (subdivisions + 1) * 10 + 2 <= 65535) by (nonlinear_arith)
            requires
                subdivisions <= 79,
        ;
    }
}

/// Up to level 20000 the projected vertex count fits the machine's word,
/// whichever it is, and is reported as it is.
pub proof fn lemma_projection_fits(subdivisions: usize)
    requires
        subdivisions <= 20000,
    ensures
        capped_projection(subdivisions) == projected_vertex_count(subdivisions as nat),
{
    assert((subdivisions + 1) * (subdivisions + 1) * 10 + 2 <= 0xFFFF_FFFF) by (nonlinear_arith)
        requires
            subdivisions <= 20000,
    ;
}

} // verus!
