//! What the solver hands to the formulas of the physics, and what it takes
//! back.
//!
//! A step reads the temperature field of the previous step and writes the
//! field of the next: no node reads what another node wrote in the same
//! step.  What a node reads is gathered in a [`CellStencil`], with the
//! boundary conditions already applied: the axis mirrors its neighbour,
//! the wall and the two plates see the surroundings.

use vstd::prelude::*;
use crate::field::Field2;
use crate::mesh::{axial_place, gas_exposed, radial_place, AxialNode, RadialNode};
use crate::scalar::Scalar;

verus! {

/// The two source fields of a step, in W/m³.
#[derive(Debug)]
pub struct HeatSources {
    pub radiation: Field2,
    pub convection: Field2,
}

/// The phase transition that a cell undergoes.
#[derive(Clone, Copy, Debug, PartialEq, Eq, Structural)]
pub enum PhaseTransition {
    Melting,
    Vaporization,
}

/// What the temperature update of node `(i, j)` reads.
///
/// The four neighbours are those of the previous step.  Where the node has
/// no neighbour the boundary condition stands in: on the axis `inward` is
/// the outward neighbour, mirrored; on the wall `outward` is the ambient
/// temperature, and so are `below` on the bottom plate and `above` on the
/// top plate.
#[derive(Clone, Copy, Debug, PartialEq, Eq, Structural)]
pub struct CellStencil {
    pub i: usize,
    pub j: usize,
    pub radial: RadialNode,
    pub axial: AxialNode,
    pub center: Scalar,
    pub inward: Scalar,
    pub outward: Scalar,
    pub below: Scalar,
    pub above: Scalar,
    pub radiation: Scalar,
    pub convection: Scalar,
}

/// An overheated cell that has not completed its transition.
#[derive(Clone, Copy, Debug, PartialEq, Eq, Structural)]
pub struct PhaseCell {
    pub i: usize,
    pub j: usize,
    pub transition: PhaseTransition,
    /// Temperature of the cell, above `transition_point`.
    pub temperature: Scalar,
    pub transition_point: Scalar,
    pub latent_heat: Scalar,
    /// Fraction of the cell that has completed the transition, below one.
    pub fraction: Scalar,
    /// Latent energy absorbed so far, over all cells.
    pub absorbed: Scalar,
}

/// What a phase kernel makes of a [`PhaseCell`].
#[derive(Clone, Copy, Debug, PartialEq, Eq, Structural)]
pub struct PhaseUpdate {
    /// The new fraction of the cell.
    pub fraction: Scalar,
    /// The temperature of the cell once the latent heat is taken out of it.
    pub temperature: Scalar,
    /// Latent energy absorbed so far, this cell included.
    pub absorbed: Scalar,
}

/// Whether the observer lets the run go on.
#[derive(Clone, Copy, Debug, PartialEq, Eq, Structural)]
pub enum Signal {
    Continue,
    Cancel,
}

/// The formulas of the physics, one closure each.
///
/// `radiation` and `convection` give the source term of a node from its
/// indices and its temperature; `conduction` gives the next temperature of
/// a node from its stencil; `phase` gives the next fraction of a cell in
/// transition and the latent energy absorbed so far.
pub struct Kernels<R, C, K, P> {
    pub radiation: R,
    pub convection: C,
    pub conduction: K,
    pub phase: P,
}

impl<R, C, K, P> Kernels<R, C, K, P> where
    R: Fn(usize, usize, Scalar) -> Scalar,
    C: Fn(usize, usize, Scalar) -> Scalar,
    K: Fn(CellStencil) -> Scalar,
    P: Fn(PhaseCell) -> PhaseUpdate,
 {
    /// Every kernel has one answer for every argument.
    pub open spec fn single_valued(&self) -> bool {
        &&& forall|i: usize, j: usize, t: Scalar, a: Scalar, b: Scalar|
            #[trigger] call_ensures(self.radiation, (i, j, t), a) && #[trigger] call_ensures(
                self.radiation,
                (i, j, t),
                b,
            ) ==> a == b
        &&& forall|i: usize, j: usize, t: Scalar, a: Scalar, b: Scalar|
            #[trigger] call_ensures(self.convection, (i, j, t), a) && #[trigger] call_ensures(
                self.convection,
                (i, j, t),
                b,
            ) ==> a == b
        &&& forall|s: CellStencil, a: Scalar, b: Scalar|
            #[trigger] call_ensures(self.conduction, (s,), a) && #[trigger] call_ensures(
                self.conduction,
                (s,),
                b,
            ) ==> a == b
        &&& forall|c: PhaseCell, a: PhaseUpdate, b: PhaseUpdate|
            #[trigger] call_ensures(self.phase, (c,), a) && #[trigger] call_ensures(
                self.phase,
                (c,),
                b,
            ) ==> a == b
    }

    /// Every kernel may be called on every argument.
    pub open spec fn total(&self) -> bool {
        &&& forall|i: usize, j: usize, t: Scalar| call_requires(self.radiation, (i, j, t))
        &&& forall|i: usize, j: usize, t: Scalar| call_requires(self.convection, (i, j, t))
        &&& forall|s: CellStencil| call_requires(self.conduction, (s,))
        &&& forall|c: PhaseCell| call_requires(self.phase, (c,))
    }
}

/// What the temperature update of node `(i, j)` reads from the field
/// `previous`, the sources `sources` and the ambient temperature.
pub open spec fn stencil_of(
    previous: &Field2,
    sources: &HeatSources,
    ambient: Scalar,
    i: int,
    j: int,
) -> CellStencil {
    let nr = previous.rows() as int;
    let nz = previous.cols() as int;
    CellStencil {
        i: i as usize,
        j: j as usize,
        radial: radial_place(i, nr),
        axial: axial_place(j, nz),
        center: previous.at(i, j),
        inward: if i == 0 {
            previous.at(1, j)
        } else {
            previous.at(i - 1, j)
        },
        outward: if i == nr - 1 {
            ambient
        } else {
            previous.at(i + 1, j)
        },
        below: if j == 0 {
            ambient
        } else {
            previous.at(i, j - 1)
        },
        above: if j == nz - 1 {
            ambient
        } else {
            previous.at(i, j + 1)
        },
        radiation: sources.radiation.at(i, j),
        convection: sources.convection.at(i, j),
    }
}

/// Gathers the stencil of node `(i, j)`.
pub fn gather_stencil(
    previous: &Field2,
    sources: &HeatSources,
    ambient: Scalar,
    i: usize,
    j: usize,
) -> (s: CellStencil)
    requires
        previous.rows() >= 2,
        previous.cols() >= 2,
        i < previous.rows(),
        j < previous.cols(),
        sources.radiation.rows() == previous.rows(),
        sources.radiation.cols() == previous.cols(),
        sources.convection.rows() == previous.rows(),
        sources.convection.cols() == previous.cols(),
    ensures
        s == stencil_of(previous, sources, ambient, i as int, j as int),
{
    let nr = previous.row_count();
    let nz = previous.col_count();
    let radial = if i == 0 {
        RadialNode::Axis
    } else if i == nr - 1 {
        RadialNode::OuterWall
    } else {
        RadialNode::Interior
    };
    let axial = if j == 0 {
        AxialNode::Bottom
    } else if j == nz - 1 {
        AxialNode::Top
    } else {
        AxialNode::Interior
    };
    CellStencil {
        i,
        j,
        radial,
        axial,
        center: previous.get(i, j),
        inward: if i == 0 {
            previous.get(1, j)
        } else {
            previous.get(i - 1, j)
        },
        outward: if i == nr - 1 {
            ambient
        } else {
            previous.get(i + 1, j)
        },
        below: if j == 0 {
            ambient
        } else {
            previous.get(i, j - 1)
        },
        above: if j == nz - 1 {
            ambient
        } else {
            previous.get(i, j + 1)
        },
        radiation: sources.radiation.get(i, j),
        convection: sources.convection.get(i, j),
    }
}

/// The source fields `sources` are those of the field `temperature`: with
/// radiation enabled every node has what the radiation kernel gives for
/// it, and otherwise zero; with convection enabled every node on a surface
/// that the gas touches has what the convection kernel gives for it, and
/// every other node, or every node with convection disabled, zero.
pub open spec fn sources_of<R, C>(
    sources: &HeatSources,
    temperature: &Field2,
    nr: int,
    nz: int,
    enable_radiation: bool,
    enable_convection: bool,
    radiation: R,
    convection: C,
) -> bool where R: Fn(usize, usize, Scalar) -> Scalar, C: Fn(usize, usize, Scalar) -> Scalar {
    &&& sources.radiation.rows() == nr
    &&& sources.radiation.cols() == nz
    &&& sources.convection.rows() == nr
    &&& sources.convection.cols() == nz
    &&& forall|i: int, j: int|
        0 <= i < nr && 0 <= j < nz ==> if enable_radiation {
            call_ensures(
                radiation,
                (i as usize, j as usize, temperature.at(i, j)),
                #[trigger] sources.radiation.at(i, j),
            )
        } else {
            sources.radiation.at(i, j).bits == 0
        }
    &&& forall|i: int, j: int|
        0 <= i < nr && 0 <= j < nz ==> if enable_convection && gas_exposed(i, j, nr, nz) {
            call_ensures(
                convection,
                (i as usize, j as usize, temperature.at(i, j)),
                #[trigger] sources.convection.at(i, j),
            )
        } else {
            sources.convection.at(i, j).bits == 0
        }
}

/// Every node of `next` is what the conduction kernel gives for the
/// stencil of that node in `previous`.
pub open spec fn stepped_from<K>(
    next: &Field2,
    previous: &Field2,
    sources: &HeatSources,
    ambient: Scalar,
    conduction: K,
) -> bool where K: Fn(CellStencil) -> Scalar {
    &&& next.rows() == previous.rows()
    &&& next.cols() == previous.cols()
    &&& forall|i: int, j: int|
        0 <= i < previous.rows() && 0 <= j < previous.cols() ==> call_ensures(
            conduction,
            (stencil_of(previous, sources, ambient, i, j),),
            #[trigger] next.at(i, j),
        )
}

/// Every node of the field holds a finite number.
pub open spec fn all_finite(field: &Field2) -> bool {
    forall|i: int, j: int|
        0 <= i < field.rows() && 0 <= j < field.cols() ==> (#[trigger] field.at(i, j)).finite()
}

/// Whether every node of the field holds a finite number.
pub fn is_all_finite(field: &Field2) -> (r: bool)
    ensures
        r == all_finite(field),
{
    let rows = field.row_count();
    let cols = field.col_count();
    let mut i: usize = 0;
    while i < rows
        invariant
            i <= rows,
            rows == field.rows(),
            cols == field.cols(),
            forall|a: int, b: int| 0 <= a < i && 0 <= b < cols ==> (#[trigger] field.at(a, b)).finite(),
        decreases rows - i,
    {
        let mut j: usize = 0;
        while j < cols
            invariant
                i < rows,
                j <= cols,
                rows == field.rows(),
                cols == field.cols(),
                forall|a: int, b: int|
                    0 <= a < i && 0 <= b < cols ==> (#[trigger] field.at(a, b)).finite(),
                forall|b: int| 0 <= b < j ==> (#[trigger] field.at(i as int, b)).finite(),
            decreases cols - j,
        {
            if !field.get(i, j).is_finite() {
                return false;
            }
            j += 1;
        }
        i += 1;
    }
    true
}

/// Every reading of the stencil is the temperature `v`, and both sources
/// are zero.
pub open spec fn flat_stencil(s: CellStencil, v: Scalar) -> bool {
    &&& s.center == v
    &&& s.inward == v
    &&& s.outward == v
    &&& s.below == v
    &&& s.above == v
    &&& s.radiation.bits == 0
    &&& s.convection.bits == 0
}

/// The conduction kernel leaves a node at the temperature `v` when
/// everything around it is at `v` and nothing heats it.
pub open spec fn keeps_flat<K>(conduction: K, v: Scalar) -> bool where
    K: Fn(CellStencil) -> Scalar,
 {
    forall|s: CellStencil, r: Scalar|
        #[trigger] call_ensures(conduction, (s,), r) && flat_stencil(s, v) ==> r == v
}

/// A field that is flat at the ambient temperature stays flat over a step
/// without sources, whatever the mesh: at every node, on the boundary as
/// inside, the stencil is flat.
pub proof fn flat_field_stays_flat<K>(
    next: &Field2,
    previous: &Field2,
    sources: &HeatSources,
    conduction: K,
    v: Scalar,
) where K: Fn(CellStencil) -> Scalar
    requires
        previous.rows() >= 2,
        previous.cols() >= 2,
        previous.uniform(v),
        sources.radiation.rows() == previous.rows(),
        sources.radiation.cols() == previous.cols(),
        sources.convection.rows() == previous.rows(),
        sources.convection.cols() == previous.cols(),
        sources.radiation.uniform(Scalar { bits: 0 }),
        sources.convection.uniform(Scalar { bits: 0 }),
        stepped_from(next, previous, sources, v, conduction),
        keeps_flat(conduction, v),
    ensures
        next.uniform(v),
{
    assert forall|i: int, j: int| 0 <= i < next.rows() && 0 <= j < next.cols() implies #[trigger] next.at(
        i,
        j,
    ) == v by {
        let s = stencil_of(previous, sources, v, i, j);
        assert(previous.at(i, j) == v);
        if i == 0 {
            assert(previous.at(1, j) == v);
        } else {
            assert(previous.at(i - 1, j) == v);
        }
        if i < previous.rows() - 1 {
            assert(previous.at(i + 1, j) == v);
        }
        if j > 0 {
            assert(previous.at(i, j - 1) == v);
        }
        if j < previous.cols() - 1 {
            assert(previous.at(i, j + 1) == v);
        }
        assert(sources.radiation.at(i, j) == Scalar { bits: 0 });
        assert(sources.convection.at(i, j) == Scalar { bits: 0 });
        assert(flat_stencil(s, v));
        assert(call_ensures(conduction, (s,), next.at(i, j)));
    }
}

} // verus!
