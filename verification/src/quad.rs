//! Rectangles in the XY plane, facing +Z, in two vertex orders.

use crate::mesh::{rectangle_index_buffer, rectangle_indices, MeshData, MeshView, Topology};
use crate::scalar::Scalar;
use crate::vector::{Vec2, Vec3};
use vstd::prelude::*;

verus! {

/// The corners of a rectangle, named by compass with north along +Y and east
/// along +X, in the order in which an unflipped quad lists them.
#[derive(Clone, Copy, Debug, PartialEq, Eq, Hash, Structural)]
pub enum Corner {
    SouthWest,
    NorthWest,
    NorthEast,
    SouthEast,
}

/// A rectangle in the XY plane, centred at the origin.
#[derive(Clone, Copy, Debug, PartialEq, Eq, Hash, Structural)]
pub struct Quad {
    /// Full width and height of the rectangle.
    pub size: Vec2,
    /// Lists the corners in the opposite order, which turns every triangle
    /// over.
    pub flip: bool,
}

impl Corner {
    pub open spec fn is_east(self) -> bool {
        self == Corner::NorthEast || self == Corner::SouthEast
    }

    pub open spec fn is_north(self) -> bool {
        self == Corner::NorthWest || self == Corner::NorthEast
    }

    /// The corner that comes `i`-th in an unflipped quad.
    pub open spec fn at(i: int) -> Corner {
        if i == 0 {
            Corner::SouthWest
        } else if i == 1 {
            Corner::NorthWest
        } else if i == 2 {
            Corner::NorthEast
        } else {
            Corner::SouthEast
        }
    }

    /// The texture coordinate of the corner: `u` runs from west to east, `v`
    /// from north to south.
    pub open spec fn uv(self) -> Vec2 {
        Vec2::new(
            if self.is_east() {
                Scalar::one()
            } else {
                Scalar::zero()
            },
            if self.is_north() {
                Scalar::zero()
            } else {
                Scalar::one()
            },
        )
    }

    /// The corner's place on a grid with the rectangle's centre at the
    /// origin and its corners one step away along each axis.
    pub open spec fn grid_point(self) -> (int, int) {
        (
            if self.is_east() {
                1
            } else {
                -1
            },
            if self.is_north() {
                1
            } else {
                -1
            },
        )
    }
}

/// Twice the signed area of the triangle of three grid points: positive
/// where they run counter-clockwise seen from +Z, negative where clockwise.
pub open spec fn signed_area(a: (int, int), b: (int, int), c: (int, int)) -> int {
    (b.0 - a.0) * (c.1 - a.1) - (b.1 - a.1) * (c.0 - a.0)
}

impl Quad {
    pub open spec fn spec_new(size: Vec2) -> Quad {
        Quad { size, flip: false }
    }

    pub open spec fn spec_flipped(size: Vec2) -> Quad {
        Quad { size, flip: true }
    }

    /// The corner that vertex `i` sits on.
    pub open spec fn corner_at(self, i: int) -> Corner {
        if self.flip {
            Corner::at(3 - i)
        } else {
            Corner::at(i)
        }
    }

    /// Where a corner lies: half the width east or west of the origin, half
    /// the height north or south of it, at depth zero.
    pub open spec fn position(self, corner: Corner) -> Vec3 {
        let extent_x = self.size.x.halved();
        let extent_y = self.size.y.halved();
        Vec3::new(
            if corner.is_east() {
                extent_x
            } else {
                extent_x.negated()
            },
            if corner.is_north() {
                extent_y
            } else {
                extent_y.negated()
            },
            Scalar::zero(),
        )
    }

    /// The corner that the `k`-th index of the quad's mesh names.
    pub open spec fn indexed_corner(self, k: int) -> Corner {
        self.corner_at(rectangle_indices()[k] as int)
    }

    /// The mesh of the quad: four vertices on its corners, all facing +Z.
    pub open spec fn mesh_view(self) -> MeshView {
        MeshView {
            positions: Seq::new(4, |i: int| self.position(self.corner_at(i))),
            normals: Seq::new(4, |i: int| Vec3::new(Scalar::zero(), Scalar::zero(), Scalar::one())),
            uvs: Seq::new(4, |i: int| self.corner_at(i).uv()),
            indices: rectangle_indices(),
            topology: Topology::TriangleList,
        }
    }

    /// A quad of the given size with its corners in the usual order.
    #[verifier::when_used_as_spec(spec_new)]
    pub fn new(size: Vec2) -> (quad: Quad)
        ensures
            quad == Self::spec_new(size),
    {
        Quad { size, flip: false }
    }

    /// A quad of the given size with its corners in the opposite order.
    #[verifier::when_used_as_spec(spec_flipped)]
    pub fn flipped(size: Vec2) -> (quad: Quad)
        ensures
            quad == Self::spec_flipped(size),
    {
        Quad { size, flip: true }
    }

    /// Builds the four vertices and six indices of the quad.
    pub fn mesh(&self) -> (mesh: MeshData)
        ensures
            mesh@ == self.mesh_view(),
            mesh.well_formed(),
            mesh@.positions.len() == 4,
            mesh@.indices.len() == 6,
    {
        let extent_x = self.size.x.half();
        let extent_y = self.size.y.half();
        let zero = Scalar::zero();
        let one = Scalar::one();

        let north_west = Vec3::new(extent_x.neg(), extent_y, zero);
        let north_east = Vec3::new(extent_x, extent_y, zero);
        let south_west = Vec3::new(extent_x.neg(), extent_y.neg(), zero);
        let south_east = Vec3::new(extent_x, extent_y.neg(), zero);
        let normal = Vec3::new(zero, zero, one);

        let positions = if self.flip {
            vec![south_east, north_east, north_west, south_west]
        } else {
            vec![south_west, north_west, north_east, south_east]
        };
        let normals = vec![normal, normal, normal, normal];
        let uvs = if self.flip {
            vec![
                Vec2::new(one, one),
                Vec2::new(one, zero),
                Vec2::new(zero, zero),
                Vec2::new(zero, one),
            ]
        } else {
            vec![
                Vec2::new(zero, one),
                Vec2::new(zero, zero),
                Vec2::new(one, zero),
                Vec2::new(one, one),
            ]
        };
        let indices = rectangle_index_buffer();
        proof {
            let view = self.mesh_view();
            assert(positions@ =~= view.positions);
            assert(normals@ =~= view.normals);
            assert(uvs@ =~= view.uvs);
        }
        MeshData { positions, normals, uvs, indices, topology: Topology::TriangleList }
    }
}

/// A quad and its flipped twin have the same vertices in opposite orders:
/// vertex `i` of the one is vertex `3 - i` of the other, position, normal and
/// texture coordinate alike, under the same indices.
pub proof fn lemma_flip_reverses_vertices(size: Vec2, i: int)
    requires
        0 <= i < 4,
    ensures
        ({
            let plain = Quad::new(size).mesh_view();
            let turned = Quad::flipped(size).mesh_view();
            &&& turned.positions[i] == plain.positions[3 - i]
            &&& turned.normals[i] == plain.normals[3 - i]
            &&& turned.uvs[i] == plain.uvs[3 - i]
            &&& turned.indices == plain.indices
        }),
{
}

/// A quad and its flipped twin have the same set of positions.
pub proof fn lemma_flip_keeps_position_set(size: Vec2)
    ensures
        ({
            let plain = Quad::new(size).mesh_view();
            let turned = Quad::flipped(size).mesh_view();
            turned.positions.to_set() == plain.positions.to_set()
        }),
{
    let plain = Quad::new(size).mesh_view().positions;
    let turned = Quad::flipped(size).mesh_view().positions;
    assert forall|p: Vec3| plain.contains(p) <==> turned.contains(p) by {
        if plain.contains(p) {
            let i = choose|i: int| 0 <= i < plain.len() && plain[i] == p;
            assert(turned[3 - i] == p);
        }
        if turned.contains(p) {
            let i = choose|i: int| 0 <= i < turned.len() && turned[i] == p;
            assert(plain[3 - i] == p);
        }
    }
    assert(plain.to_set() =~= turned.to_set());
}

/// Vertex for vertex, flipping mirrors the texture from west to east: the
/// `i`-th texture coordinates of a quad and of its flipped twin have
/// opposite `u` and equal `v`.
pub proof fn lemma_flip_mirrors_uvs(size: Vec2, i: int)
    requires
        0 <= i < 4,
    ensures
        ({
            let plain = Quad::new(size);
            let turned = Quad::flipped(size);
            &&& turned.corner_at(i).is_east() != plain.corner_at(i).is_east()
            &&& turned.corner_at(i).is_north() == plain.corner_at(i).is_north()
            &&& turned.mesh_view().uvs[i].x != plain.mesh_view().uvs[i].x
            &&& turned.mesh_view().uvs[i].y == plain.mesh_view().uvs[i].y
        }),
{
}

/// Flipping reverses the winding. On the grid of the corners, which is the
/// rectangle itself scaled wherever width and height are positive, both
/// triangles of an unflipped quad run counter-clockwise seen from +Z, both
/// of a flipped one clockwise.
pub proof fn lemma_flip_reverses_winding(size: Vec2, triangle: int)
    requires
        0 <= triangle < 2,
    ensures
        signed_area(
            Quad::new(size).indexed_corner(3 * triangle).grid_point(),
            Quad::new(size).indexed_corner(3 * triangle + 1).grid_point(),
            Quad::new(size).indexed_corner(3 * triangle + 2).grid_point(),
        ) > 0,
        signed_area(
            Quad::flipped(size).indexed_corner(3 * triangle).grid_point(),
            Quad::flipped(size).indexed_corner(3 * triangle + 1).grid_point(),
            Quad::flipped(size).indexed_corner(3 * triangle + 2).grid_point(),
        ) < 0,
{
    let indices = rectangle_indices();
    assert(indices[0] == 0 && indices[1] == 2 && indices[2] == 1);
    assert(indices[3] == 0 && indices[4] == 3 && indices[5] == 2);
    let south_west = Corner::SouthWest.grid_point();
    let north_west = Corner::NorthWest.grid_point();
    let north_east = Corner::NorthEast.grid_point();
    let south_east = Corner::SouthEast.grid_point();
    assert(signed_area(south_west, north_east, north_west) == 4) by (nonlinear_arith)
        requires
            south_west == (-1int, -1int),
            north_west == (-1int, 1int),
            north_east == (1int, 1int),
            south_east == (1int, -1int),
    ;
    assert(signed_area(south_west, south_east, north_east) == 4) by (nonlinear_arith)
        requires
            south_west == (-1int, -1int),
            north_west == (-1int, 1int),
            north_east == (1int, 1int),
            south_east == (1int, -1int),
    ;
    assert(signed_area(south_east, north_west, north_east) == -4) by (nonlinear_arith)
        requires
            south_west == (-1int, -1int),
            north_west == (-1int, 1int),
            north_east == (1int, 1int),
            south_east == (1int, -1int),
    ;
    assert(signed_area(south_east, south_west, north_west) == -4) by (nonlinear_arith)
        requires
            south_west == (-1int, -1int),
            north_west == (-1int, 1int),
            north_east == (1int, 1int),
            south_east == (1int, -1int),
    ;
}

} // verus!
