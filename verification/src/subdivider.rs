//! The icosahedron subdivider of the `hexasphere` crate.
//!
//! Nothing in here is proved: each contract says what the crate's source
//! shows of the function that the body calls.

use crate::scalar::Scalar;
use crate::vector::Vec3;
use hexasphere::shapes::IcoSphere;
use vstd::prelude::*;

verus! {

/// An icosahedron whose edges `hexasphere` has subdivided, with the points
/// laid on the unit sphere.
#[verifier::external_body]
pub struct SubdividedIcosahedron {
    sphere: IcoSphere<()>,
}

/// The points of a subdivided icosahedron, in the order of `raw_points`.
pub uninterp spec fn subdivided_points(sphere: SubdividedIcosahedron) -> Seq<Vec3>;

/// The indices that `get_indices` appends for one of the twenty faces of a
/// subdivided icosahedron.
pub uninterp spec fn subdivided_face(sphere: SubdividedIcosahedron, face: int) -> Seq<u32>;

/// The level that a subdivided icosahedron was made with, as `subdivisions`
/// tells it: the number of points added along each edge.
pub uninterp spec fn subdivision_level(sphere: SubdividedIcosahedron) -> nat;

/// The number of faces of an icosahedron.
pub const FACES: usize = 20;

/// `IcoSphere::new` with a generator that keeps no data per point. It
/// allocates for every point, so the level is kept small.
#[verifier::external_body]
pub(crate) fn subdivide(subdivisions: usize) -> (sphere: SubdividedIcosahedron)
    requires
        subdivisions < 80,
    ensures
        subdivision_level(sphere) == subdivisions,
{
    SubdividedIcosahedron { sphere: IcoSphere::new(subdivisions, |_| ()) }
}

/// `Subdivided::raw_points`, each point copied out coordinate by coordinate
/// as bit patterns.
#[verifier::external_body]
pub(crate) fn raw_points(sphere: &SubdividedIcosahedron) -> (points: Vec<Vec3>)
    ensures
        points@ == subdivided_points(*sphere),
{
    sphere
        .sphere
        .raw_points()
        .iter()
        .map(|p| Vec3 {
            x: Scalar { bits: p.x.to_bits() },
            y: Scalar { bits: p.y.to_bits() },
            z: Scalar { bits: p.z.to_bits() },
        })
        .collect()
}

/// `Subdivided::get_indices`: appends the indices of one face to the buffer.
/// They come in threes, a triangle each, and each of them is an index into
/// `raw_points`. The face must be one of the twenty.
#[verifier::external_body]
pub(crate) fn append_face(sphere: &SubdividedIcosahedron, face: usize, buffer: &mut Vec<u32>)
    requires
        face < FACES,
    ensures
        final(buffer)@ == old(buffer)@ + subdivided_face(*sphere, face as int),
        (final(buffer)@.len() - old(buffer)@.len()) % 3 == 0,
        forall|k: int|
            old(buffer)@.len() <= k < final(buffer)@.len() ==> (#[trigger] final(buffer)@[k])
                < subdivided_points(*sphere).len(),
{
    sphere.sphere.get_indices(face, buffer)
}

} // verus!
