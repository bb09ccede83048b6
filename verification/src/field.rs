//! Two- and three-dimensional fields of scalars, stored in `ndarray` arrays.
//!
//! [`Field2`] is a field over the `(r, z)` nodes of the mesh; [`Field3`] adds
//! a third axis, the time step of a history or the angle of a revolved
//! field.  Both keep their cells in an `ndarray` array of encodings and read
//! and write it one cell at a time: every bulk operation on a field is a
//! loop over single-cell accesses, proved against what the array promises
//! of one access.
//!
//! The arrays themselves are opaque here.  What they hold is named by
//! [`grid2_rows`] and [`grid3_cells`], and the handful of functions at the
//! head of this module say, each for one call into `ndarray`, what the call
//! does to it.  Those statements are taken on trust.

use vstd::prelude::*;
use crate::scalar::Scalar;

verus! {

/// Storage of a two-dimensional field: an `ndarray::Array2` of encodings.
#[verifier::external_body]
#[derive(Debug)]
pub struct Grid2 {
    cells: ndarray::Array2<u64>,
}

/// Storage of a three-dimensional field: an `ndarray::Array3` of encodings.
#[verifier::external_body]
#[derive(Debug)]
pub struct Grid3 {
    cells: ndarray::Array3<u64>,
}

/// What a two-dimensional array holds: `grid2_rows(g)[i][j]` is the element
/// at index `[i, j]`.
pub uninterp spec fn grid2_rows(g: Grid2) -> Seq<Seq<u64>>;

/// What a three-dimensional array holds: `grid3_cells(g)[i][j][k]` is the
/// element at index `[i, j, k]`.
pub uninterp spec fn grid3_cells(g: Grid3) -> Seq<Seq<Seq<u64>>>;

/// Length of an axis as `ndarray` counts it when it sizes a buffer: an empty
/// axis counts as one.
pub open spec fn extent(n: usize) -> int {
    if n == 0 {
        1
    } else {
        n as int
    }
}

/// A buffer of `count` eight-byte cells can be addressed.
pub open spec fn addressable(count: int) -> bool {
    count * 8 <= isize::MAX as int
}

/// `ndarray::Array2::from_elem`: an array of shape `(n0, n1)` with `value`
/// in every element.  The call panics when the product of the non-empty axis
/// lengths overflows `isize`, and the buffer it allocates when its byte size
/// does; the precondition keeps both out.
#[verifier::external_body]
pub(crate) fn grid2_from_elem(n0: usize, n1: usize, value: u64) -> (g: Grid2)
    requires
        addressable(extent(n0) * extent(n1)),
    ensures
        grid2_rows(g).len() == n0,
        forall|i: int| 0 <= i < n0 ==> (#[trigger] grid2_rows(g)[i]).len() == n1,
        forall|i: int, j: int| 0 <= i < n0 && 0 <= j < n1 ==> #[trigger] grid2_rows(g)[i][j] == value,
{
    Grid2 { cells: ndarray::Array2::from_elem((n0, n1), value) }
}

/// Indexing an `ndarray::Array2` by `[i, j]`: the element there.  Panics
/// out of bounds.
#[verifier::external_body]
pub(crate) fn grid2_get(g: &Grid2, i: usize, j: usize) -> (value: u64)
    requires
        i < grid2_rows(*g).len(),
        j < grid2_rows(*g)[i as int].len(),
    ensures
        value == grid2_rows(*g)[i as int][j as int],
{
    g.cells[[i, j]]
}

/// Assigning through the index `[i, j]` of an `ndarray::Array2`: that
/// element becomes `value`, every other stays.  The assignment panics out
/// of bounds and nowhere else, so within them it does not unwind.
#[verifier::external_body]
pub(crate) fn grid2_set(g: &mut Grid2, i: usize, j: usize, value: u64)
    requires
        i < grid2_rows(*old(g)).len(),
        j < grid2_rows(*old(g))[i as int].len(),
    ensures
        grid2_rows(*final(g)) == grid2_rows(*old(g)).update(
            i as int,
            grid2_rows(*old(g))[i as int].update(j as int, value),
        ),
    no_unwind
{
    g.cells[[i, j]] = value;
}

/// `Clone::clone` of an `ndarray::Array2`: an array with the same shape and
/// elements.
#[verifier::external_body]
pub(crate) fn grid2_clone(g: &Grid2) -> (copy: Grid2)
    ensures
        grid2_rows(copy) == grid2_rows(*g),
{
    Grid2 { cells: g.cells.clone() }
}

/// `ndarray::Array3::from_elem`: an array of shape `(n0, n1, n2)` with
/// `value` in every element.  Panics as the two-dimensional constructor does.
#[verifier::external_body]
fn grid3_from_elem(n0: usize, n1: usize, n2: usize, value: u64) -> (g: Grid3)
    requires
        addressable(extent(n0) * extent(n1) * extent(n2)),
    ensures
        grid3_cells(g).len() == n0,
        forall|i: int| 0 <= i < n0 ==> (#[trigger] grid3_cells(g)[i]).len() == n1,
        forall|i: int, j: int|
            0 <= i < n0 && 0 <= j < n1 ==> (#[trigger] grid3_cells(g)[i][j]).len() == n2,
        forall|i: int, j: int, k: int|
            0 <= i < n0 && 0 <= j < n1 && 0 <= k < n2 ==> #[trigger] grid3_cells(g)[i][j][k]
                == value,
{
    Grid3 { cells: ndarray::Array3::from_elem((n0, n1, n2), value) }
}

/// Indexing an `ndarray::Array3` by `[i, j, k]`: the element there.  Panics
/// out of bounds.
#[verifier::external_body]
fn grid3_get(g: &Grid3, i: usize, j: usize, k: usize) -> (value: u64)
    requires
        i < grid3_cells(*g).len(),
        j < grid3_cells(*g)[i as int].len(),
        k < grid3_cells(*g)[i as int][j as int].len(),
    ensures
        value == grid3_cells(*g)[i as int][j as int][k as int],
{
    g.cells[[i, j, k]]
}

/// Assigning through the index `[i, j, k]` of an `ndarray::Array3`: that
/// element becomes `value`, every other stays.  The assignment panics out
/// of bounds and nowhere else, so within them it does not unwind.
#[verifier::external_body]
fn grid3_set(g: &mut Grid3, i: usize, j: usize, k: usize, value: u64)
    requires
        i < grid3_cells(*old(g)).len(),
        j < grid3_cells(*old(g))[i as int].len(),
        k < grid3_cells(*old(g))[i as int][j as int].len(),
    ensures
        grid3_cells(*final(g)) == grid3_cells(*old(g)).update(
            i as int,
            grid3_cells(*old(g))[i as int].update(
                j as int,
                grid3_cells(*old(g))[i as int][j as int].update(k as int, value),
            ),
        ),
    no_unwind
{
    g.cells[[i, j, k]] = value;
}

/// `Clone::clone` of an `ndarray::Array3`: an array with the same shape and
/// elements.
#[verifier::external_body]
fn grid3_clone(g: &Grid3) -> (copy: Grid3)
    ensures
        grid3_cells(copy) == grid3_cells(*g),
{
    Grid3 { cells: g.cells.clone() }
}

/// Whether a buffer of `n0 * n1 * n2` cells can be addressed, empty axes
/// counted as one.
pub fn can_address(n0: usize, n1: usize, n2: usize) -> (ok: bool)
    ensures
        ok == addressable(extent(n0) * extent(n1) * extent(n2)),
{
    let e0: usize = if n0 == 0 { 1 } else { n0 };
    let e1: usize = if n1 == 0 { 1 } else { n1 };
    let e2: usize = if n2 == 0 { 1 } else { n2 };
    let limit: usize = (isize::MAX as usize) / 8;
    match e0.checked_mul(e1) {
        None => {
            assert(e0 * e1 * e2 >= e0 * e1) by (nonlinear_arith)
                requires
                    e2 >= 1,
                    e0 >= 1,
                    e1 >= 1,
            ;
            false
        },
        Some(p) => match p.checked_mul(e2) {
            None => false,
            Some(q) => q <= limit,
        },
    }
}

/// A scalar field over a rectangular grid of `rows() * cols()` nodes.
#[derive(Debug)]
pub struct Field2 {
    grid: Grid2,
    n0: usize,
    n1: usize,
}

impl Field2 {
    #[verifier::type_invariant]
    closed spec fn inv(self) -> bool {
        &&& grid2_rows(self.grid).len() == self.n0
        &&& forall|i: int| 0 <= i < self.n0 ==> (#[trigger] grid2_rows(self.grid)[i]).len() == self.n1
    }

    /// Number of nodes along the first axis.
    pub closed spec fn rows(&self) -> nat {
        self.n0 as nat
    }

    /// Number of nodes along the second axis.
    pub closed spec fn cols(&self) -> nat {
        self.n1 as nat
    }

    /// The scalar at node `(i, j)`.
    pub closed spec fn at(&self, i: int, j: int) -> Scalar {
        Scalar { bits: grid2_rows(self.grid)[i][j] }
    }

    /// Every node holds `value`.
    pub open spec fn uniform(&self, value: Scalar) -> bool {
        forall|i: int, j: int|
            0 <= i < self.rows() && 0 <= j < self.cols() ==> #[trigger] self.at(i, j) == value
    }

    /// Same shape and the same scalar at every node.
    pub open spec fn agrees(&self, other: &Field2) -> bool {
        &&& self.rows() == other.rows()
        &&& self.cols() == other.cols()
        &&& forall|i: int, j: int|
            0 <= i < self.rows() && 0 <= j < self.cols() ==> #[trigger] self.at(i, j) == other.at(
                i,
                j,
            )
    }

    /// A field of `rows * cols` nodes that all hold `value`, or `None` when
    /// a buffer of that many cells cannot be addressed.
    pub fn filled(rows: usize, cols: usize, value: Scalar) -> (r: Option<Field2>)
        ensures
            r is Some <==> addressable(extent(rows) * extent(cols)),
            r matches Some(f) ==> f.rows() == rows && f.cols() == cols && f.uniform(value),
    {
        if !can_address(rows, cols, 1) {
            return None;
        }
        let grid = grid2_from_elem(rows, cols, value.bits);
        Some(Field2 { grid, n0: rows, n1: cols })
    }

    /// Number of nodes along the first axis.
    pub fn row_count(&self) -> (n: usize)
        ensures
            n == self.rows(),
    {
        self.n0
    }

    /// Number of nodes along the second axis.
    pub fn col_count(&self) -> (n: usize)
        ensures
            n == self.cols(),
    {
        self.n1
    }

    /// The scalar at node `(i, j)`.
    pub fn get(&self, i: usize, j: usize) -> (value: Scalar)
        requires
            i < self.rows(),
            j < self.cols(),
        ensures
            value == self.at(i as int, j as int),
    {
        proof {
            use_type_invariant(self);
        }
        Scalar { bits: grid2_get(&self.grid, i, j) }
    }

    /// Stores `value` at node `(i, j)`; every other node keeps its scalar.
    pub fn set(&mut self, i: usize, j: usize, value: Scalar)
        requires
            i < old(self).rows(),
            j < old(self).cols(),
        ensures
            final(self).rows() == old(self).rows(),
            final(self).cols() == old(self).cols(),
            final(self).at(i as int, j as int) == value,
            forall|a: int, b: int|
                0 <= a < old(self).rows() && 0 <= b < old(self).cols() && !(a == i && b == j)
                    ==> #[trigger] final(self).at(a, b) == old(self).at(a, b),
    {
        proof {
            use_type_invariant(&*self);
        }
        grid2_set(&mut self.grid, i, j, value.bits);
    }

    /// A field with the same shape and the same scalar at every node.
    pub fn duplicate(&self) -> (copy: Field2)
        ensures
            copy.agrees(self),
    {
        proof {
            use_type_invariant(self);
        }
        Field2 { grid: grid2_clone(&self.grid), n0: self.n0, n1: self.n1 }
    }
}

/// A scalar field over a box of `rows() * cols() * depth()` nodes.
///
/// The third axis is the time step in a history and the angle in a field
/// revolved about the axis of the cylinder.
#[derive(Debug)]
pub struct Field3 {
    grid: Grid3,
    n0: usize,
    n1: usize,
    n2: usize,
}

impl Field3 {
    #[verifier::type_invariant]
    closed spec fn inv(self) -> bool {
        &&& grid3_cells(self.grid).len() == self.n0
        &&& forall|i: int| 0 <= i < self.n0 ==> (#[trigger] grid3_cells(self.grid)[i]).len() == self.n1
        &&& forall|i: int, j: int|
            0 <= i < self.n0 && 0 <= j < self.n1 ==> (#[trigger] grid3_cells(self.grid)[i][j]).len()
                == self.n2
        &&& addressable(extent(self.n0) * extent(self.n1))
    }

    /// Number of nodes along the first axis.
    pub closed spec fn rows(&self) -> nat {
        self.n0 as nat
    }

    /// Number of nodes along the second axis.
    pub closed spec fn cols(&self) -> nat {
        self.n1 as nat
    }

    /// Number of nodes along the third axis.
    pub closed spec fn depth(&self) -> nat {
        self.n2 as nat
    }

    /// The scalar at node `(i, j, k)`.
    pub closed spec fn at(&self, i: int, j: int, k: int) -> Scalar {
        Scalar { bits: grid3_cells(self.grid)[i][j][k] }
    }

    /// Same shape and the same scalar at every node.
    pub open spec fn agrees(&self, other: &Field3) -> bool {
        &&& self.rows() == other.rows()
        &&& self.cols() == other.cols()
        &&& self.depth() == other.depth()
        &&& forall|i: int, j: int, k: int|
            0 <= i < self.rows() && 0 <= j < self.cols() && 0 <= k < self.depth()
                ==> #[trigger] self.at(i, j, k) == other.at(i, j, k)
    }

    /// The plane `k` of the third axis holds `plane` node for node.
    pub open spec fn plane_is(&self, k: int, plane: &Field2) -> bool {
        &&& plane.rows() == self.rows()
        &&& plane.cols() == self.cols()
        &&& forall|i: int, j: int|
            0 <= i < self.rows() && 0 <= j < self.cols() ==> #[trigger] self.at(i, j, k)
                == plane.at(i, j)
    }

    /// A field of `rows * cols * depth` nodes that all hold `value`, or
    /// `None` when a buffer of that many cells cannot be addressed.
    pub fn filled(rows: usize, cols: usize, depth: usize, value: Scalar) -> (r: Option<Field3>)
        ensures
            r is Some <==> addressable(extent(rows) * extent(cols) * extent(depth)),
            r matches Some(f) ==> {
                &&& f.rows() == rows
                &&& f.cols() == cols
                &&& f.depth() == depth
                &&& forall|i: int, j: int, k: int|
                    0 <= i < rows && 0 <= j < cols && 0 <= k < depth ==> #[trigger] f.at(i, j, k)
                        == value
            },
    {
        if !can_address(rows, cols, depth) {
            return None;
        }
        assert(extent(rows) * extent(cols) <= extent(rows) * extent(cols) * extent(depth))
            by (nonlinear_arith)
            requires
                extent(rows) >= 1,
                extent(cols) >= 1,
                extent(depth) >= 1,
        ;
        let grid = grid3_from_elem(rows, cols, depth, value.bits);
        Some(Field3 { grid, n0: rows, n1: cols, n2: depth })
    }

    /// Number of nodes along the first axis.
    pub fn row_count(&self) -> (n: usize)
        ensures
            n == self.rows(),
    {
        self.n0
    }

    /// Number of nodes along the second axis.
    pub fn col_count(&self) -> (n: usize)
        ensures
            n == self.cols(),
    {
        self.n1
    }

    /// Number of nodes along the third axis.
    pub fn depth_count(&self) -> (n: usize)
        ensures
            n == self.depth(),
    {
        self.n2
    }

    /// The scalar at node `(i, j, k)`.
    pub fn get(&self, i: usize, j: usize, k: usize) -> (value: Scalar)
        requires
            i < self.rows(),
            j < self.cols(),
            k < self.depth(),
        ensures
            value == self.at(i as int, j as int, k as int),
    {
        proof {
            use_type_invariant(self);
        }
        Scalar { bits: grid3_get(&self.grid, i, j, k) }
    }

    /// Stores `value` at node `(i, j, k)`; every other node keeps its scalar.
    pub fn set(&mut self, i: usize, j: usize, k: usize, value: Scalar)
        requires
            i < old(self).rows(),
            j < old(self).cols(),
            k < old(self).depth(),
        ensures
            final(self).rows() == old(self).rows(),
            final(self).cols() == old(self).cols(),
            final(self).depth() == old(self).depth(),
            final(self).at(i as int, j as int, k as int) == value,
            forall|a: int, b: int, c: int|
                0 <= a < old(self).rows() && 0 <= b < old(self).cols() && 0 <= c < old(
                    self,
                ).depth() && !(a == i && b == j && c == k) ==> #[trigger] final(self).at(a, b, c)
                    == old(self).at(a, b, c),
    {
        proof {
            use_type_invariant(&*self);
        }
        grid3_set(&mut self.grid, i, j, k, value.bits);
    }

    /// Copies `plane` into the plane `k` of the third axis; every other
    /// plane stays as it is.
    pub fn store_plane(&mut self, k: usize, plane: &Field2)
        requires
            k < old(self).depth(),
            plane.rows() == old(self).rows(),
            plane.cols() == old(self).cols(),
        ensures
            final(self).rows() == old(self).rows(),
            final(self).cols() == old(self).cols(),
            final(self).depth() == old(self).depth(),
            final(self).plane_is(k as int, plane),
            forall|a: int, b: int, c: int|
                0 <= a < old(self).rows() && 0 <= b < old(self).cols() && 0 <= c < old(
                    self,
                ).depth() && c != k ==> #[trigger] final(self).at(a, b, c) == old(self).at(a, b, c),
    {
        let rows = self.n0;
        let cols = self.n1;
        let mut i: usize = 0;
        while i < rows
            invariant
                i <= rows,
                rows == old(self).rows(),
                cols == old(self).cols(),
                self.rows() == old(self).rows(),
                self.cols() == old(self).cols(),
                self.depth() == old(self).depth(),
                k < self.depth(),
                plane.rows() == rows,
                plane.cols() == cols,
                forall|a: int, b: int|
                    0 <= a < i && 0 <= b < cols ==> #[trigger] self.at(a, b, k as int) == plane.at(
                        a,
                        b,
                    ),
                forall|a: int, b: int, c: int|
                    0 <= a < rows && 0 <= b < cols && 0 <= c < self.depth() && c != k
                        ==> #[trigger] self.at(a, b, c) == old(self).at(a, b, c),
            decreases rows - i,
        {
            let mut j: usize = 0;
            while j < cols
                invariant
                    i < rows,
                    j <= cols,
                    rows == old(self).rows(),
                    cols == old(self).cols(),
                    self.rows() == old(self).rows(),
                    self.cols() == old(self).cols(),
                    self.depth() == old(self).depth(),
                    k < self.depth(),
                    plane.rows() == rows,
                    plane.cols() == cols,
                    forall|a: int, b: int|
                        0 <= a < i && 0 <= b < cols ==> #[trigger] self.at(a, b, k as int)
                            == plane.at(a, b),
                    forall|b: int|
                        0 <= b < j ==> #[trigger] self.at(i as int, b, k as int) == plane.at(
                            i as int,
                            b,
                        ),
                    forall|a: int, b: int, c: int|
                        0 <= a < rows && 0 <= b < cols && 0 <= c < self.depth() && c != k
                            ==> #[trigger] self.at(a, b, c) == old(self).at(a, b, c),
                decreases cols - j,
            {
                let value = plane.get(i, j);
                self.set(i, j, k, value);
                j += 1;
            }
            i += 1;
        }
    }

    /// The plane `k` of the third axis as a field of its own.
    pub fn plane(&self, k: usize) -> (plane: Field2)
        requires
            k < self.depth(),
        ensures
            self.plane_is(k as int, &plane),
    {
        proof {
            use_type_invariant(self);
        }
        let rows = self.n0;
        let cols = self.n1;
        let mut plane = Field2 { grid: grid2_from_elem(rows, cols, 0), n0: rows, n1: cols };
        let mut i: usize = 0;
        while i < rows
            invariant
                i <= rows,
                rows == self.rows(),
                cols == self.cols(),
                k < self.depth(),
                plane.rows() == rows,
                plane.cols() == cols,
                forall|a: int, b: int|
                    0 <= a < i && 0 <= b < cols ==> #[trigger] self.at(a, b, k as int) == plane.at(
                        a,
                        b,
                    ),
            decreases rows - i,
        {
            let mut j: usize = 0;
            while j < cols
                invariant
                    i < rows,
                    j <= cols,
                    rows == self.rows(),
                    cols == self.cols(),
                    k < self.depth(),
                    plane.rows() == rows,
                    plane.cols() == cols,
                    forall|a: int, b: int|
                        0 <= a < i && 0 <= b < cols ==> #[trigger] self.at(a, b, k as int)
                            == plane.at(a, b),
                    forall|b: int|
                        0 <= b < j ==> #[trigger] self.at(i as int, b, k as int) == plane.at(
                            i as int,
                            b,
                        ),
                decreases cols - j,
            {
                let value = self.get(i, j, k);
                plane.set(i, j, value);
                j += 1;
            }
            i += 1;
        }
        plane
    }

    /// A field with the same shape and the same scalar at every node.
    pub fn duplicate(&self) -> (copy: Field3)
        ensures
            copy.agrees(self),
    {
        proof {
            use_type_invariant(self);
        }
        Field3 { grid: grid3_clone(&self.grid), n0: self.n0, n1: self.n1, n2: self.n2 }
    }
}

} // verus!
