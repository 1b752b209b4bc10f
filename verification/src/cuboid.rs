//! Boxes and cubes: six flat faces of four vertices each.
//!
//! No vertex is shared between faces, so that each face carries its own
//! normal and the edges stay hard.

use crate::mesh::{MeshData, MeshView, Topology};
use crate::scalar::{lemma_halved_negated, Scalar};
use crate::vector::{Vec2, Vec3};
use vstd::prelude::*;

verus! {

/// The faces of a box, in the order in which their vertices are laid out.
#[derive(Clone, Copy, Debug, PartialEq, Eq, Hash, Structural)]
pub enum Face {
    Top,
    Bottom,
    Right,
    Left,
    Front,
    Back,
}

/// An axis-aligned box given by its bounds.
///
/// Nothing is asked of the bounds: a minimum above its maximum gives an
/// inverted box, equal bounds a flat one.
#[derive(Clone, Copy, Debug, PartialEq, Eq, Hash, Structural)]
pub struct Box {
    pub min_x: Scalar,
    pub max_x: Scalar,
    pub min_y: Scalar,
    pub max_y: Scalar,
    pub min_z: Scalar,
    pub max_z: Scalar,
}

/// A box with all sides of one length, centred at the origin.
#[derive(Clone, Copy, Debug, PartialEq, Eq, Hash, Structural)]
pub struct Cube {
    pub size: Scalar,
}

/// The corner of a face that the `k`-th of its six indices names: the face
/// is split into the triangles (0, 1, 2) and (2, 3, 0).
pub open spec fn face_index(k: int) -> int {
    if k == 0 {
        0
    } else if k == 1 {
        1
    } else if k == 2 {
        2
    } else if k == 3 {
        2
    } else if k == 4 {
        3
    } else {
        0
    }
}

impl Face {
    /// The face whose vertices come `i`-th.
    pub open spec fn at(i: int) -> Face {
        if i == 0 {
            Face::Top
        } else if i == 1 {
            Face::Bottom
        } else if i == 2 {
            Face::Right
        } else if i == 3 {
            Face::Left
        } else if i == 4 {
            Face::Front
        } else {
            Face::Back
        }
    }

    /// The outward normal of the face.
    pub open spec fn normal(self) -> Vec3 {
        match self {
            Face::Top => Vec3::new(Scalar::zero(), Scalar::zero(), Scalar::one()),
            Face::Bottom => Vec3::new(Scalar::zero(), Scalar::zero(), Scalar::neg_one()),
            Face::Right => Vec3::new(Scalar::one(), Scalar::zero(), Scalar::zero()),
            Face::Left => Vec3::new(Scalar::neg_one(), Scalar::zero(), Scalar::zero()),
            Face::Front => Vec3::new(Scalar::zero(), Scalar::one(), Scalar::zero()),
            Face::Back => Vec3::new(Scalar::zero(), Scalar::neg_one(), Scalar::zero()),
        }
    }

    /// Which end of the texture each corner of the face is pinned to:
    /// `true` stands for `1.0`, `false` for `0.0`.
    pub open spec fn uv_ends(self, corner: int) -> (bool, bool) {
        match self {
            Face::Top | Face::Right | Face::Back => if corner == 0 {
                (false, false)
            } else if corner == 1 {
                (true, false)
            } else if corner == 2 {
                (true, true)
            } else {
                (false, true)
            },
            Face::Bottom | Face::Left | Face::Front => if corner == 0 {
                (true, false)
            } else if corner == 1 {
                (false, false)
            } else if corner == 2 {
                (false, true)
            } else {
                (true, true)
            },
        }
    }

    /// The texture coordinate of a corner of the face.
    pub open spec fn uv(self, corner: int) -> Vec2 {
        let ends = self.uv_ends(corner);
        Vec2::new(
            if ends.0 {
                Scalar::one()
            } else {
                Scalar::zero()
            },
            if ends.1 {
                Scalar::one()
            } else {
                Scalar::zero()
            },
        )
    }

    /// Which bound each coordinate of a corner of the face takes: `true`
    /// stands for the maximum, `false` for the minimum.
    pub open spec fn corner_ends(self, corner: int) -> (bool, bool, bool) {
        match self {
            Face::Top => if corner == 0 {
                (false, false, true)
            } else if corner == 1 {
                (true, false, true)
            } else if corner == 2 {
                (true, true, true)
            } else {
                (false, true, true)
            },
            Face::Bottom => if corner == 0 {
                (false, true, false)
            } else if corner == 1 {
                (true, true, false)
            } else if corner == 2 {
                (true, false, false)
            } else {
                (false, false, false)
            },
            Face::Right => if corner == 0 {
                (true, false, false)
            } else if corner == 1 {
                (true, true, false)
            } else if corner == 2 {
                (true, true, true)
            } else {
                (true, false, true)
            },
            Face::Left => if corner == 0 {
                (false, false, true)
            } else if corner == 1 {
                (false, true, true)
            } else if corner == 2 {
                (false, true, false)
            } else {
                (false, false, false)
            },
            Face::Front => if corner == 0 {
                (true, true, false)
            } else if corner == 1 {
                (false, true, false)
            } else if corner == 2 {
                (false, true, true)
            } else {
                (true, true, true)
            },
            Face::Back => if corner == 0 {
                (true, false, true)
            } else if corner == 1 {
                (false, false, true)
            } else if corner == 2 {
                (false, false, false)
            } else {
                (true, false, false)
            },
        }
    }
}

impl Box {
    /// The point of the box that takes, on each axis, the maximum where
    /// `ends` says `true` and the minimum where it says `false`.
    pub open spec fn corner(self, ends: (bool, bool, bool)) -> Vec3 {
        Vec3::new(
            if ends.0 {
                self.max_x
            } else {
                self.min_x
            },
            if ends.1 {
                self.max_y
            } else {
                self.min_y
            },
            if ends.2 {
                self.max_z
            } else {
                self.min_z
            },
        )
    }

    /// The box of the given side lengths that is centred at the origin.
    pub open spec fn spec_new(x_length: Scalar, y_length: Scalar, z_length: Scalar) -> Box {
        Box {
            max_x: x_length.halved(),
            min_x: x_length.negated().halved(),
            max_y: y_length.halved(),
            min_y: y_length.negated().halved(),
            max_z: z_length.halved(),
            min_z: z_length.negated().halved(),
        }
    }

    /// The mesh of the box: vertex `4 * f + c` is corner `c` of face `f`,
    /// and the six indices of face `f` name its own four vertices.
    pub open spec fn mesh_view(self) -> MeshView {
        MeshView {
            positions: Seq::new(24, |i: int| self.corner(Face::at(i / 4).corner_ends(i % 4))),
            normals: Seq::new(24, |i: int| Face::at(i / 4).normal()),
            uvs: Seq::new(24, |i: int| Face::at(i / 4).uv(i % 4)),
            indices: Seq::new(36, |k: int| (4 * (k / 6) + face_index(k % 6)) as u32),
            topology: Topology::TriangleList,
        }
    }

    /// The box of the given side lengths that is centred at the origin: each
    /// bound is half a length, with either sign.
    #[verifier::when_used_as_spec(spec_new)]
    pub fn new(x_length: Scalar, y_length: Scalar, z_length: Scalar) -> (b: Box)
        ensures
            b == Self::spec_new(x_length, y_length, z_length),
            b.max_x == x_length.halved() && b.min_x == b.max_x.negated(),
            b.max_y == y_length.halved() && b.min_y == b.max_y.negated(),
            b.max_z == z_length.halved() && b.min_z == b.max_z.negated(),
    {
        proof {
            lemma_halved_negated(x_length);
            lemma_halved_negated(y_length);
            lemma_halved_negated(z_length);
        }
        Box {
            max_x: x_length.half(),
            min_x: x_length.neg().half(),
            max_y: y_length.half(),
            min_y: y_length.neg().half(),
            max_z: z_length.half(),
            min_z: z_length.neg().half(),
        }
    }

    /// Builds the 24 vertices and 36 indices of the box.
    pub fn mesh(&self) -> (mesh: MeshData)
        ensures
            mesh@ == self.mesh_view(),
            mesh.well_formed(),
            mesh@.positions.len() == 24,
            mesh@.normals.len() == 24,
            mesh@.uvs.len() == 24,
            mesh@.indices.len() == 36,
    {
        let zero = Scalar::zero();
        let one = Scalar::one();
        let neg_one = Scalar::neg_one();
        let positions = vec![
            // top
            Vec3::new(self.min_x, self.min_y, self.max_z),
            Vec3::new(self.max_x, self.min_y, self.max_z),
            Vec3::new(self.max_x, self.max_y, self.max_z),
            Vec3::new(self.min_x, self.max_y, self.max_z),
            // bottom
            Vec3::new(self.min_x, self.max_y, self.min_z),
            Vec3::new(self.max_x, self.max_y, self.min_z),
            Vec3::new(self.max_x, self.min_y, self.min_z),
            Vec3::new(self.min_x, self.min_y, self.min_z),
            // right
            Vec3::new(self.max_x, self.min_y, self.min_z),
            Vec3::new(self.max_x, self.max_y, self.min_z),
            Vec3::new(self.max_x, self.max_y, self.max_z),
            Vec3::new(self.max_x, self.min_y, self.max_z),
            // left
            Vec3::new(self.min_x, self.min_y, self.max_z),
            Vec3::new(self.min_x, self.max_y, self.max_z),
            Vec3::new(self.min_x, self.max_y, self.min_z),
            Vec3::new(self.min_x, self.min_y, self.min_z),
            // front
            Vec3::new(self.max_x, self.max_y, self.min_z),
            Vec3::new(self.min_x, self.max_y, self.min_z),
            Vec3::new(self.min_x, self.max_y, self.max_z),
            Vec3::new(self.max_x, self.max_y, self.max_z),
            // back
            Vec3::new(self.max_x, self.min_y, self.max_z),
            Vec3::new(self.min_x, self.min_y, self.max_z),
            Vec3::new(self.min_x, self.min_y, self.min_z),
            Vec3::new(self.max_x, self.min_y, self.min_z),
        ];
        let up = Vec3::new(zero, zero, one);
        let down = Vec3::new(zero, zero, neg_one);
        let right = Vec3::new(one, zero, zero);
        let left = Vec3::new(neg_one, zero, zero);
        let front = Vec3::new(zero, one, zero);
        let back = Vec3::new(zero, neg_one, zero);
        let normals = vec![
            up, up, up, up,
            down, down, down, down,
            right, right, right, right,
            left, left, left, left,
            front, front, front, front,
            back, back, back, back,
        ];
        let uv00 = Vec2::new(zero, zero);
        let uv10 = Vec2::new(one, zero);
        let uv11 = Vec2::new(one, one);
        let uv01 = Vec2::new(zero, one);
        let uvs = vec![
            uv00, uv10, uv11, uv01,
            uv10, uv00, uv01, uv11,
            uv00, uv10, uv11, uv01,
            uv10, uv00, uv01, uv11,
            uv10, uv00, uv01, uv11,
            uv00, uv10, uv11, uv01,
        ];
        let indices: Vec<u32> = vec![
            0, 1, 2, 2, 3, 0,
            4, 5, 6, 6, 7, 4,
            8, 9, 10, 10, 11, 8,
            12, 13, 14, 14, 15, 12,
            16, 17, 18, 18, 19, 16,
            20, 21, 22, 22, 23, 20,
        ];
        proof {
            let view = self.mesh_view();
            assert(positions@ =~= view.positions);
            assert(normals@ =~= view.normals);
            assert(uvs@ =~= view.uvs);
            assert(indices@ =~= view.indices);
        }
        MeshData { positions, normals, uvs, indices, topology: Topology::TriangleList }
    }
}

impl Default for Box {
    /// The box of lengths 2, 1 and 1: from -1 to 1 along x, from -0.5 to 0.5
    /// along y and z.
    fn default() -> (b: Box)
        ensures
            b == Box::spec_new(Scalar::two(), Scalar::one(), Scalar::one()),
            b == (Box {
                min_x: Scalar { bits: 0xBF80_0000 },
                max_x: Scalar { bits: 0x3F80_0000 },
                min_y: Scalar { bits: 0xBF00_0000 },
                max_y: Scalar { bits: 0x3F00_0000 },
                min_z: Scalar { bits: 0xBF00_0000 },
                max_z: Scalar { bits: 0x3F00_0000 },
            }),
    {
        Box::new(Scalar::two(), Scalar::one(), Scalar::one())
    }
}

impl Cube {
    pub open spec fn spec_new(size: Scalar) -> Cube {
        Cube { size }
    }

    /// The box that the cube is: all three lengths are the cube's size.
    pub open spec fn as_box(self) -> Box {
        Box::spec_new(self.size, self.size, self.size)
    }

    #[verifier::when_used_as_spec(spec_new)]
    pub fn new(size: Scalar) -> (cube: Cube)
        ensures
            cube == Self::spec_new(size),
    {
        Cube { size }
    }

    /// Builds the mesh of the box that the cube is.
    pub fn mesh(&self) -> (mesh: MeshData)
        ensures
            mesh@ == self.as_box().mesh_view(),
            mesh.well_formed(),
            mesh@.positions.len() == 24,
            mesh@.normals.len() == 24,
            mesh@.uvs.len() == 24,
            mesh@.indices.len() == 36,
    {
        Box::new(self.size, self.size, self.size).mesh()
    }
}

impl Default for Cube {
    /// The cube of size 1.
    fn default() -> (cube: Cube)
        ensures
            cube == Cube::spec_new(Scalar::one()),
    {
        Cube { size: Scalar::one() }
    }
}

/// The mesh of any box, and so of one made from any three lengths, has 24
/// vertices with all their attributes and 36 indices, and each face is flat:
/// its four vertices share one normal, which is a unit vector along an axis.
pub proof fn lemma_box_faces_are_flat(b: Box, face: int, corner: int)
    requires
        0 <= face < 6,
        0 <= corner < 4,
    ensures
        b.mesh_view().positions.len() == 24,
        b.mesh_view().normals.len() == 24,
        b.mesh_view().uvs.len() == 24,
        b.mesh_view().indices.len() == 36,
        b.mesh_view().normals[4 * face + corner] == b.mesh_view().normals[4 * face],
        b.mesh_view().normals[4 * face].is_axis_unit(),
{
}

} // verus!
