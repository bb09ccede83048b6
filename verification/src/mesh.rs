//! The cylindrical mesh: its nodes, their place on the boundary, and the
//! map that assigns a material zone to each node.
//!
//! The mesh has `nr` nodes along the radius and `nz` along the axis.  Node
//! `(0, j)` lies on the axis of the cylinder and node `(nr - 1, j)` on its
//! outer wall; node `(i, 0)` lies on the bottom plate and `(i, nz - 1)` on
//! the top.  Coordinates and cell volumes follow from `height`, `radius`
//! and the node counts by arithmetic and are left to the caller.

use vstd::prelude::*;
use crate::field::{addressable, can_address, extent, grid2_clone, grid2_from_elem, grid2_get, grid2_rows, grid2_set, Grid2};
use crate::scalar::Scalar;

verus! {

/// A zone index for every node of an `(r, z)` grid.
#[derive(Debug)]
pub struct ZoneMap {
    grid: Grid2,
    n0: usize,
    n1: usize,
}

impl ZoneMap {
    #[verifier::type_invariant]
    closed spec fn inv(self) -> bool {
        &&& grid2_rows(self.grid).len() == self.n0
        &&& forall|i: int| 0 <= i < self.n0 ==> (#[trigger] grid2_rows(self.grid)[i]).len() == self.n1
        &&& forall|i: int, j: int|
            0 <= i < self.n0 && 0 <= j < self.n1 ==> #[trigger] grid2_rows(self.grid)[i][j]
                <= usize::MAX
    }

    /// Number of nodes along the radius.
    pub closed spec fn rows(&self) -> nat {
        self.n0 as nat
    }

    /// Number of nodes along the axis.
    pub closed spec fn cols(&self) -> nat {
        self.n1 as nat
    }

    /// The zone of node `(i, j)`.
    pub closed spec fn at(&self, i: int, j: int) -> nat {
        grid2_rows(self.grid)[i][j] as nat
    }

    /// `zone` is a zone of some node and no node has a larger one.
    pub open spec fn is_peak(&self, zone: nat) -> bool {
        &&& forall|i: int, j: int|
            0 <= i < self.rows() && 0 <= j < self.cols() ==> #[trigger] self.at(i, j) <= zone
        &&& exists|i: int, j: int|
            0 <= i < self.rows() && 0 <= j < self.cols() && #[trigger] self.at(i, j) == zone
    }

    /// The map has no node at all.
    pub open spec fn is_empty(&self) -> bool {
        self.rows() == 0 || self.cols() == 0
    }

    /// The largest zone of any node, and `0` for a map without nodes.
    pub open spec fn peak(&self) -> nat {
        if self.is_empty() {
            0
        } else {
            choose|zone: nat| self.is_peak(zone)
        }
    }

    /// Some node lies in a zone other than zone `0`.
    pub open spec fn marks_a_zone(&self) -> bool {
        exists|i: int, j: int|
            0 <= i < self.rows() && 0 <= j < self.cols() && #[trigger] self.at(i, j) > 0
    }

    /// A map of `rows * cols` nodes that all lie in `zone`, or `None` when a
    /// buffer of that many cells cannot be addressed.
    pub fn filled(rows: usize, cols: usize, zone: usize) -> (r: Option<ZoneMap>)
        ensures
            r is Some <==> addressable(extent(rows) * extent(cols)),
            r matches Some(m) ==> {
                &&& m.rows() == rows
                &&& m.cols() == cols
                &&& forall|i: int, j: int|
                    0 <= i < rows && 0 <= j < cols ==> #[trigger] m.at(i, j) == zone
            },
    {
        if !can_address(rows, cols, 1) {
            return None;
        }
        let grid = grid2_from_elem(rows, cols, zone as u64);
        Some(ZoneMap { grid, n0: rows, n1: cols })
    }

    /// Number of nodes along the radius.
    pub fn row_count(&self) -> (n: usize)
        ensures
            n == self.rows(),
    {
        self.n0
    }

    /// Number of nodes along the axis.
    pub fn col_count(&self) -> (n: usize)
        ensures
            n == self.cols(),
    {
        self.n1
    }

    /// The zone of node `(i, j)`.
    pub fn get(&self, i: usize, j: usize) -> (zone: usize)
        requires
            i < self.rows(),
            j < self.cols(),
        ensures
            zone == self.at(i as int, j as int),
    {
        proof {
            use_type_invariant(self);
        }
        grid2_get(&self.grid, i, j) as usize
    }

    /// Puts node `(i, j)` into `zone`; every other node keeps its zone.
    pub fn set(&mut self, i: usize, j: usize, zone: usize)
        requires
            i < old(self).rows(),
            j < old(self).cols(),
        ensures
            final(self).rows() == old(self).rows(),
            final(self).cols() == old(self).cols(),
            final(self).at(i as int, j as int) == zone,
            forall|a: int, b: int|
                0 <= a < old(self).rows() && 0 <= b < old(self).cols() && !(a == i && b == j)
                    ==> #[trigger] final(self).at(a, b) == old(self).at(a, b),
    {
        proof {
            use_type_invariant(&*self);
        }
        grid2_set(&mut self.grid, i, j, zone as u64);
    }

    /// A map with the same shape and the same zone at every node.
    pub fn duplicate(&self) -> (copy: ZoneMap)
        ensures
            copy.rows() == self.rows(),
            copy.cols() == self.cols(),
            forall|i: int, j: int|
                0 <= i < self.rows() && 0 <= j < self.cols() ==> #[trigger] copy.at(i, j)
                    == self.at(i, j),
    {
        proof {
            use_type_invariant(self);
        }
        ZoneMap { grid: grid2_clone(&self.grid), n0: self.n0, n1: self.n1 }
    }

    /// The largest zone of any node, and `0` for a map without nodes.
    pub fn max_zone(&self) -> (zone: usize)
        ensures
            zone == self.peak(),
            !self.is_empty() ==> self.is_peak(zone as nat),
    {
        let rows = self.n0;
        let cols = self.n1;
        if rows == 0 || cols == 0 {
            return 0;
        }
        let mut best: usize = self.get(0, 0);
        let ghost mut bi: int = 0;
        let ghost mut bj: int = 0;
        let mut i: usize = 0;
        while i < rows
            invariant
                i <= rows,
                rows == self.rows(),
                cols == self.cols(),
                cols > 0,
                0 <= bi < rows,
                0 <= bj < cols,
                self.at(bi, bj) == best,
                forall|a: int, b: int| 0 <= a < i && 0 <= b < cols ==> #[trigger] self.at(a, b) <= best,
            decreases rows - i,
        {
            let mut j: usize = 0;
            while j < cols
                invariant
                    i < rows,
                    j <= cols,
                    rows == self.rows(),
                    cols == self.cols(),
                    0 <= bi < rows,
                    0 <= bj < cols,
                    self.at(bi, bj) == best,
                    forall|a: int, b: int|
                        0 <= a < i && 0 <= b < cols ==> #[trigger] self.at(a, b) <= best,
                    forall|b: int| 0 <= b < j ==> #[trigger] self.at(i as int, b) <= best,
                decreases cols - j,
            {
                let zone = self.get(i, j);
                if zone > best {
                    best = zone;
                    proof {
                        bi = i as int;
                        bj = j as int;
                    }
                }
                j += 1;
            }
            i += 1;
        }
        assert(self.is_peak(best as nat));
        best
    }

    /// Whether some node lies in a zone other than zone `0`.
    pub fn has_marked_zone(&self) -> (marked: bool)
        ensures
            marked == self.marks_a_zone(),
    {
        let peak = self.max_zone();
        peak > 0
    }
}

/// Where a node stands along the radius.
#[derive(Clone, Copy, Debug, PartialEq, Eq, Structural)]
pub enum RadialNode {
    /// On the axis of the cylinder, `i == 0`.
    Axis,
    /// Between the axis and the wall.
    Interior,
    /// On the outer wall, `i == nr - 1`.
    OuterWall,
}

/// Where a node stands along the axis.
#[derive(Clone, Copy, Debug, PartialEq, Eq, Structural)]
pub enum AxialNode {
    /// On the bottom plate, `j == 0`.
    Bottom,
    /// Between the plates.
    Interior,
    /// On the top plate, `j == nz - 1`.
    Top,
}

/// Where node `i` of `n` stands along the radius.
pub open spec fn radial_place(i: int, n: int) -> RadialNode {
    if i == 0 {
        RadialNode::Axis
    } else if i == n - 1 {
        RadialNode::OuterWall
    } else {
        RadialNode::Interior
    }
}

/// Where node `j` of `n` stands along the axis.
pub open spec fn axial_place(j: int, n: int) -> AxialNode {
    if j == 0 {
        AxialNode::Bottom
    } else if j == n - 1 {
        AxialNode::Top
    } else {
        AxialNode::Interior
    }
}

/// Node `(i, j)` of an `nr * nz` mesh lies on a surface that the furnace
/// gas touches: the outer wall or one of the two plates.
pub open spec fn gas_exposed(i: int, j: int, nr: int, nz: int) -> bool {
    i == nr - 1 || j == 0 || j == nz - 1
}

/// Why a zone map was not taken.
#[derive(Clone, Copy, Debug, PartialEq, Eq, Structural)]
pub enum ZoneShapeError {
    /// The map has `rows * cols` nodes and the mesh another number.
    ShapeMismatch { rows: usize, cols: usize },
}

/// The mesh of the cylinder.
#[derive(Debug)]
pub struct CylindricalMesh {
    pub height: Scalar,
    pub radius: Scalar,
    pub nr: usize,
    pub nz: usize,
    pub ntheta: usize,
    pub zones: Option<ZoneMap>,
}

impl CylindricalMesh {
    /// A mesh of `nr * nz` nodes, replicated `ntheta` times about the axis,
    /// without a zone map.
    pub fn new(height: Scalar, radius: Scalar, nr: usize, nz: usize, ntheta: usize) -> (mesh:
        CylindricalMesh)
        ensures
            mesh.height == height,
            mesh.radius == radius,
            mesh.nr == nr,
            mesh.nz == nz,
            mesh.ntheta == ntheta,
            mesh.zones is None,
    {
        CylindricalMesh { height, radius, nr, nz, ntheta, zones: None }
    }

    /// Takes `zones` as the zone map of the mesh, unless its shape differs
    /// from `(nr, nz)`: then the mesh stays as it is.
    pub fn set_zones(&mut self, zones: ZoneMap) -> (r: Result<(), ZoneShapeError>)
        ensures
            r is Ok <==> zones.rows() == old(self).nr && zones.cols() == old(self).nz,
            r is Ok ==> *final(self) == (CylindricalMesh { zones: Some(zones), ..*old(self) }),
            r matches Err(e) ==> *final(self) == *old(self) && e == (ZoneShapeError::ShapeMismatch {
                rows: zones.rows() as usize,
                cols: zones.cols() as usize,
            }),
    {
        let rows = zones.row_count();
        let cols = zones.col_count();
        if rows != self.nr || cols != self.nz {
            return Err(ZoneShapeError::ShapeMismatch { rows, cols });
        }
        self.zones = Some(zones);
        Ok(())
    }

    /// Where node `i` stands along the radius.
    pub fn radial_node(&self, i: usize) -> (place: RadialNode)
        requires
            i < self.nr,
        ensures
            place == radial_place(i as int, self.nr as int),
    {
        if i == 0 {
            RadialNode::Axis
        } else if i == self.nr - 1 {
            RadialNode::OuterWall
        } else {
            RadialNode::Interior
        }
    }

    /// Where node `j` stands along the axis.
    pub fn axial_node(&self, j: usize) -> (place: AxialNode)
        requires
            j < self.nz,
        ensures
            place == axial_place(j as int, self.nz as int),
    {
        if j == 0 {
            AxialNode::Bottom
        } else if j == self.nz - 1 {
            AxialNode::Top
        } else {
            AxialNode::Interior
        }
    }

    /// Whether node `(i, j)` lies on a surface that the furnace gas touches.
    pub fn is_gas_exposed(&self, i: usize, j: usize) -> (exposed: bool)
        requires
            i < self.nr,
            j < self.nz,
        ensures
            exposed == gas_exposed(i as int, j as int, self.nr as int, self.nz as int),
    {
        i == self.nr - 1 || j == 0 || j == self.nz - 1
    }

    /// A mesh with the same geometry and the same zone at every node.
    pub fn duplicate(&self) -> (copy: CylindricalMesh)
        ensures
            copy.same_geometry(self),
    {
        let zones = match &self.zones {
            Some(z) => Some(z.duplicate()),
            None => None,
        };
        CylindricalMesh {
            height: self.height,
            radius: self.radius,
            nr: self.nr,
            nz: self.nz,
            ntheta: self.ntheta,
            zones,
        }
    }

    /// Same extent, same node counts, and the same zone at every node.
    pub open spec fn same_geometry(&self, other: &CylindricalMesh) -> bool {
        &&& self.height == other.height
        &&& self.radius == other.radius
        &&& self.nr == other.nr
        &&& self.nz == other.nz
        &&& self.ntheta == other.ntheta
        &&& same_zones(self.zones, other.zones)
    }
}

/// Both maps are absent, or both are present with the same shape and the
/// same zone at every node.
pub open spec fn same_zones(a: Option<ZoneMap>, b: Option<ZoneMap>) -> bool {
    match (a, b) {
        (None, None) => true,
        (Some(x), Some(y)) => {
            &&& x.rows() == y.rows()
            &&& x.cols() == y.cols()
            &&& forall|i: int, j: int|
                0 <= i < x.rows() && 0 <= j < x.cols() ==> #[trigger] x.at(i, j) == y.at(i, j)
        },
        _ => false,
    }
}

} // verus!
