//! The heat solver: an explicit sweep over the mesh, step after step.
//!
//! The formulas that turn a stencil into a temperature, a node into a
//! source term and an overheated cell into a phase fraction are the
//! caller's [`Kernels`].  The solver decides where they apply, holds the
//! results to the bounds that must hold of them, and records the history.

use vstd::prelude::*;
use crate::clock::{now, Elapsed};
use crate::field::{addressable, can_address, Field2, Field3};
use crate::kernels::{all_finite, keeps_flat, gather_stencil, is_all_finite, sources_of, stencil_of, stepped_from, CellStencil, HeatSources, Kernels, PhaseCell, PhaseTransition, PhaseUpdate, Signal};
use crate::mesh::{gas_exposed, same_zones, CylindricalMesh};
use crate::params::{violation_none_iff_valid, SimulationParameters, ValidationError};
use crate::phase::{fraction_history_sound, none_decreased, none_heated, sound_after_growth, sound_after_record, sweep_transition};
use crate::progress::Progress;
use crate::results::{fractions_sound, tracks_phases, PhaseChangeInfo, RunOutcome, SimulationResults};
use crate::scalar::Scalar;
use crate::step::{chained, conducted, plane_reached, plane_reached_carries, reached, traced, flat_history_stays_flat, flat_step_does_not_fail, StepRule, melt_history_of, melt_stage, melting_refused, melting_sweep, one_step, phases_refused, phases_settled, planes_at, recorded_step, recorded_step_carries, rule_of, same_planes_up_to, step_fails, step_fails_at, stepwise, vapor_history_of, vapor_stage, vaporization_refused, vaporization_sweep, Planes};

verus! {

/// Why the solver did not come into being, or stopped.
#[derive(Clone, Copy, Debug, PartialEq, Eq, Structural)]
pub enum SolverError {
    /// The parameter set breaks a rule.
    Invalid(ValidationError),
    /// A history of `nr * nz * (time_steps + 1)` cells cannot be addressed.
    TooLarge,
    /// The zone map has `rows * cols` nodes and the mesh another number.
    ZoneShape { rows: usize, cols: usize },
    /// Step `step` produced a value that is not finite, or a phase update
    /// out of bounds.
    NumericalInstability { step: usize },
    /// Step `step` was asked for and only `available` steps are recorded.
    StepUnavailable { step: usize, available: usize },
}

/// Why no solver can be made from `p`, or `None` when one can.
pub open spec fn refusal(p: &SimulationParameters) -> Option<SolverError> {
    if p.violation() is Some {
        Some(SolverError::Invalid(p.violation().unwrap()))
    } else if !addressable(p.nr * p.nz * (p.time_steps + 1)) {
        Some(SolverError::TooLarge)
    } else if p.zone_map is Some && (p.zone_map.unwrap().rows() != p.nr || p.zone_map.unwrap().cols()
        != p.nz) {
        Some(
            SolverError::ZoneShape {
                rows: p.zone_map.unwrap().rows() as usize,
                cols: p.zone_map.unwrap().cols() as usize,
            },
        )
    } else {
        None
    }
}

/// The solver of the heat equation on the cylinder.
#[derive(Debug)]
pub struct HeatSolver {
    params: SimulationParameters,
    mesh: CylindricalMesh,
    temperature: Field2,
    temperature_history: Field3,
    melt_fraction: Option<Field2>,
    melt_fraction_history: Option<Field3>,
    vapor_fraction: Option<Field2>,
    vapor_fraction_history: Option<Field3>,
    total_phase_change_energy: Scalar,
    steps_done: usize,
}

impl HeatSolver {
    /// The parameters that the solver was made from.
    pub closed spec fn parameters(&self) -> SimulationParameters {
        self.params
    }

    /// The mesh of the solver.
    pub closed spec fn grid(&self) -> CylindricalMesh {
        self.mesh
    }

    /// The number of steps taken so far.
    pub closed spec fn steps(&self) -> nat {
        self.steps_done as nat
    }

    /// The temperature field after the last step.
    pub closed spec fn field(&self) -> Field2 {
        self.temperature
    }

    /// The temperature history.
    pub closed spec fn history(&self) -> Field3 {
        self.temperature_history
    }

    /// The current melt fraction, where phases are followed.
    pub closed spec fn melt(&self) -> Option<Field2> {
        self.melt_fraction
    }

    /// The melt fraction history, where phases are followed.
    pub closed spec fn melt_history(&self) -> Option<Field3> {
        self.melt_fraction_history
    }

    /// The current vapor fraction, where phases are followed.
    pub closed spec fn vapor(&self) -> Option<Field2> {
        self.vapor_fraction
    }

    /// The vapor fraction history, where phases are followed.
    pub closed spec fn vapor_history(&self) -> Option<Field3> {
        self.vapor_fraction_history
    }

    /// Latent energy absorbed so far.
    pub closed spec fn absorbed(&self) -> Scalar {
        self.total_phase_change_energy
    }

    /// The fields of the present moment.
    pub open spec fn planes(&self) -> Planes {
        Planes {
            temperature: self.field(),
            melt: self.melt(),
            vapor: self.vapor(),
            absorbed: self.absorbed(),
        }
    }

    /// The solver is at rest between two steps: the last recorded plane of
    /// every history holds the current field.
    pub open spec fn at_rest(&self) -> bool {
        planes_at(
            &self.history(),
            self.melt_history(),
            self.vapor_history(),
            self.steps() as int,
            &self.planes(),
        )
    }

    /// The solver is consistent and at rest.
    pub open spec fn wf(&self) -> bool {
        self.sound() && self.at_rest()
    }

    /// The solver is consistent: its parameters are admissible, its fields
    /// have the shape of the mesh, the history has one plane for the initial
    /// condition and one for each step, plane `0` holds the initial
    /// temperature, and the phase fractions, where followed, are sound.
    pub open spec fn sound(&self) -> bool {
        let p = self.parameters();
        &&& p.valid()
        &&& self.grid().nr == p.nr
        &&& self.grid().nz == p.nz
        &&& self.grid().ntheta == p.ntheta
        &&& self.grid().height == p.height
        &&& self.grid().radius == p.radius
        &&& same_zones(self.grid().zones, p.zone_map)
        &&& self.field().rows() == p.nr
        &&& self.field().cols() == p.nz
        &&& self.history().rows() == p.nr
        &&& self.history().cols() == p.nz
        &&& self.history().depth() == p.time_steps + 1
        &&& self.steps() <= p.time_steps
        &&& forall|i: int, j: int|
            0 <= i < p.nr && 0 <= j < p.nz ==> #[trigger] self.history().at(i, j, 0)
                == p.initial_temperature
        &&& self.melt() is Some <==> tracks_phases(&p)
        &&& self.melt_history() is Some <==> tracks_phases(&p)
        &&& self.vapor() is Some <==> tracks_phases(&p)
        &&& self.vapor_history() is Some <==> tracks_phases(&p)
        &&& tracks_phases(&p) ==> {
            &&& self.melt().unwrap().rows() == p.nr
            &&& self.melt().unwrap().cols() == p.nz
            &&& self.melt_history().unwrap().depth() == p.time_steps + 1
            &&& fraction_history_sound(
                &self.melt().unwrap(),
                &self.melt_history().unwrap(),
                self.steps() as int,
            )
            &&& self.vapor().unwrap().rows() == p.nr
            &&& self.vapor().unwrap().cols() == p.nz
            &&& self.vapor_history().unwrap().depth() == p.time_steps + 1
            &&& fraction_history_sound(
                &self.vapor().unwrap(),
                &self.vapor_history().unwrap(),
                self.steps() as int,
            )
        }
        &&& (Scalar { bits: 0 }).at_most(self.absorbed())
        &&& self.absorbed().finite()
    }

    /// A solver for `params`, at step `0` with the initial temperature in
    /// every node, or the reason why there is none.
    pub fn new(params: SimulationParameters) -> (r: Result<HeatSolver, SolverError>)
        ensures
            r is Ok <==> refusal(&params) is None,
            r matches Err(e) ==> refusal(&params) == Some(e),
            r matches Ok(s) ==> {
                &&& s.wf()
                &&& s.parameters() == params
                &&& s.steps() == 0
                &&& s.field().uniform(params.initial_temperature)
                &&& s.absorbed().bits == 0
                &&& tracks_phases(&params) ==> s.melt().unwrap().uniform(Scalar { bits: 0 })
                    && s.vapor().unwrap().uniform(Scalar { bits: 0 })
            },
    {
        match params.validate() {
            Err(e) => {
                return Err(SolverError::Invalid(e));
            },
            Ok(()) => {},
        }
        proof {
            violation_none_iff_valid(params);
        }
        let nr = params.nr;
        let nz = params.nz;
        if params.time_steps == usize::MAX {
            proof {
                assert(nr * nz * (params.time_steps + 1) >= params.time_steps + 1)
                    by (nonlinear_arith)
                    requires
                        nr >= 2,
                        nz >= 2,
                        params.time_steps + 1 >= 1,
                ;
            }
            return Err(SolverError::TooLarge);
        }
        let slots = params.time_steps + 1;
        if !can_address(nr, nz, slots) {
            return Err(SolverError::TooLarge);
        }
        proof {
            assert(nr * nz <= nr * nz * slots) by (nonlinear_arith)
                requires
                    nr >= 2,
                    nz >= 2,
                    slots >= 1,
            ;
        }
        let zero = Scalar::zero();
        let temperature = match Field2::filled(nr, nz, params.initial_temperature) {
            Some(f) => f,
            None => {
                return Err(SolverError::TooLarge);
            },
        };
        let mut temperature_history = match Field3::filled(nr, nz, slots, zero) {
            Some(f) => f,
            None => {
                return Err(SolverError::TooLarge);
            },
        };
        temperature_history.store_plane(0, &temperature);
        let tracking = params.enable_phase_changes && (params.material.melting_point.is_some()
            || params.material.vaporization_point.is_some());
        let mut melt_fraction: Option<Field2> = None;
        let mut melt_fraction_history: Option<Field3> = None;
        let mut vapor_fraction: Option<Field2> = None;
        let mut vapor_fraction_history: Option<Field3> = None;
        if tracking {
            melt_fraction = Field2::filled(nr, nz, zero);
            melt_fraction_history = Field3::filled(nr, nz, slots, zero);
            vapor_fraction = Field2::filled(nr, nz, zero);
            vapor_fraction_history = Field3::filled(nr, nz, slots, zero);
        }
        let mut mesh = CylindricalMesh::new(params.height, params.radius, nr, nz, params.ntheta);
        match &params.zone_map {
            None => {},
            Some(map) => {
                let rows = map.row_count();
                let cols = map.col_count();
                match mesh.set_zones(map.duplicate()) {
                    Ok(()) => {},
                    Err(_) => {
                        return Err(SolverError::ZoneShape { rows, cols });
                    },
                }
            },
        }
        Ok(
            HeatSolver {
                params,
                mesh,
                temperature,
                temperature_history,
                melt_fraction,
                melt_fraction_history,
                vapor_fraction,
                vapor_fraction_history,
                total_phase_change_energy: zero,
                steps_done: 0,
            },
        )
    }
}

impl HeatSolver {
    /// The source fields of the current temperature field.
    fn calculate_sources<R, C, K, P>(&self, kernels: &Kernels<R, C, K, P>) -> (sources:
        HeatSources) where
        R: Fn(usize, usize, Scalar) -> Scalar,
        C: Fn(usize, usize, Scalar) -> Scalar,
        K: Fn(CellStencil) -> Scalar,
        P: Fn(PhaseCell) -> PhaseUpdate,

        requires
            self.sound(),
            kernels.total(),
        ensures
            sources_of(
                &sources,
                &self.field(),
                self.parameters().nr as int,
                self.parameters().nz as int,
                self.parameters().enable_radiation,
                self.parameters().enable_convection,
                kernels.radiation,
                kernels.convection,
            ),
    {
        let nr = self.params.nr;
        let nz = self.params.nz;
        let zero = Scalar::zero();
        let mut radiation = self.temperature.duplicate();
        let mut convection = self.temperature.duplicate();
        let with_radiation = self.params.enable_radiation;
        let with_convection = self.params.enable_convection;
        let mut i: usize = 0;
        while i < nr
            invariant
                i <= nr,
                self.sound(),
                kernels.total(),
                nr == self.params.nr,
                nz == self.params.nz,
                zero.bits == 0,
                with_radiation == self.params.enable_radiation,
                with_convection == self.params.enable_convection,
                radiation.rows() == nr,
                radiation.cols() == nz,
                convection.rows() == nr,
                convection.cols() == nz,
                forall|a: int, b: int|
                    0 <= a < i && 0 <= b < nz ==> if with_radiation {
                        call_ensures(
                            kernels.radiation,
                            (a as usize, b as usize, self.temperature.at(a, b)),
                            #[trigger] radiation.at(a, b),
                        )
                    } else {
                        radiation.at(a, b).bits == 0
                    },
                forall|a: int, b: int|
                    0 <= a < i && 0 <= b < nz ==> if with_convection && gas_exposed(
                        a,
                        b,
                        nr as int,
                        nz as int,
                    ) {
                        call_ensures(
                            kernels.convection,
                            (a as usize, b as usize, self.temperature.at(a, b)),
                            #[trigger] convection.at(a, b),
                        )
                    } else {
                        convection.at(a, b).bits == 0
                    },
            decreases nr - i,
        {
            let mut j: usize = 0;
            while j < nz
                invariant
                    i < nr,
                    j <= nz,
                    self.sound(),
                    kernels.total(),
                    nr == self.params.nr,
                    nz == self.params.nz,
                    zero.bits == 0,
                    with_radiation == self.params.enable_radiation,
                    with_convection == self.params.enable_convection,
                    radiation.rows() == nr,
                    radiation.cols() == nz,
                    convection.rows() == nr,
                    convection.cols() == nz,
                    forall|a: int, b: int|
                        (0 <= a < i && 0 <= b < nz) || (a == i && 0 <= b < j) ==> if with_radiation {
                            call_ensures(
                                kernels.radiation,
                                (a as usize, b as usize, self.temperature.at(a, b)),
                                #[trigger] radiation.at(a, b),
                            )
                        } else {
                            radiation.at(a, b).bits == 0
                        },
                    forall|a: int, b: int|
                        (0 <= a < i && 0 <= b < nz) || (a == i && 0 <= b < j) ==> if with_convection
                            && gas_exposed(a, b, nr as int, nz as int) {
                            call_ensures(
                                kernels.convection,
                                (a as usize, b as usize, self.temperature.at(a, b)),
                                #[trigger] convection.at(a, b),
                            )
                        } else {
                            convection.at(a, b).bits == 0
                        },
                decreases nz - j,
            {
                let t = self.temperature.get(i, j);
                let q_rad = if with_radiation {
                    (kernels.radiation)(i, j, t)
                } else {
                    zero
                };
                radiation.set(i, j, q_rad);
                let exposed = i == nr - 1 || j == 0 || j == nz - 1;
                let q_conv = if with_convection && exposed {
                    (kernels.convection)(i, j, t)
                } else {
                    zero
                };
                convection.set(i, j, q_conv);
                j += 1;
            }
            i += 1;
        }
        HeatSources { radiation, convection }
    }

    /// Takes one step of the temperature field: every node gets what the
    /// conduction kernel gives for its stencil in the field before the
    /// step.  The step is reported as unstable when it leaves a value that
    /// is not finite in some node.
    fn solve_time_step<R, C, K, P>(
        &mut self,
        sources: &HeatSources,
        kernels: &Kernels<R, C, K, P>,
    ) -> (r: Result<(), SolverError>) where
        R: Fn(usize, usize, Scalar) -> Scalar,
        C: Fn(usize, usize, Scalar) -> Scalar,
        K: Fn(CellStencil) -> Scalar,
        P: Fn(PhaseCell) -> PhaseUpdate,

        requires
            old(self).sound(),
            kernels.total(),
            sources.radiation.rows() == old(self).parameters().nr,
            sources.radiation.cols() == old(self).parameters().nz,
            sources.convection.rows() == old(self).parameters().nr,
            sources.convection.cols() == old(self).parameters().nz,
        ensures
            final(self).sound(),
            final(self).unchanged_but_field(old(self)),
            stepped_from(
                &final(self).field(),
                &old(self).field(),
                sources,
                old(self).parameters().ambient_temperature,
                kernels.conduction,
            ),
            r is Ok <==> all_finite(&final(self).field()),
            r matches Err(e) ==> e == (SolverError::NumericalInstability {
                step: old(self).steps() as usize,
            }),
    {
        let nr = self.params.nr;
        let nz = self.params.nz;
        let ambient = self.params.ambient_temperature;
        let mut next = self.temperature.duplicate();
        let mut i: usize = 0;
        while i < nr
            invariant
                i <= nr,
                *self == *old(self),
                self.sound(),
                kernels.total(),
                nr == self.params.nr,
                nz == self.params.nz,
                ambient == self.params.ambient_temperature,
                sources.radiation.rows() == nr,
                sources.radiation.cols() == nz,
                sources.convection.rows() == nr,
                sources.convection.cols() == nz,
                next.rows() == nr,
                next.cols() == nz,
                forall|a: int, b: int|
                    0 <= a < i && 0 <= b < nz ==> call_ensures(
                        kernels.conduction,
                        (stencil_of(&self.temperature, sources, ambient, a, b),),
                        #[trigger] next.at(a, b),
                    ),
            decreases nr - i,
        {
            let mut j: usize = 0;
            while j < nz
                invariant
                    i < nr,
                    j <= nz,
                    *self == *old(self),
                    self.sound(),
                    kernels.total(),
                    nr == self.params.nr,
                    nz == self.params.nz,
                    ambient == self.params.ambient_temperature,
                    sources.radiation.rows() == nr,
                    sources.radiation.cols() == nz,
                    sources.convection.rows() == nr,
                    sources.convection.cols() == nz,
                    next.rows() == nr,
                    next.cols() == nz,
                    forall|a: int, b: int|
                        (0 <= a < i && 0 <= b < nz) || (a == i && 0 <= b < j) ==> call_ensures(
                            kernels.conduction,
                            (stencil_of(&self.temperature, sources, ambient, a, b),),
                            #[trigger] next.at(a, b),
                        ),
                decreases nz - j,
            {
                let stencil = gather_stencil(&self.temperature, sources, ambient, i, j);
                let value = (kernels.conduction)(stencil);
                next.set(i, j, value);
                j += 1;
            }
            i += 1;
        }
        let stable = is_all_finite(&next);
        self.temperature = next;
        if stable {
            Ok(())
        } else {
            Err(SolverError::NumericalInstability { step: self.steps_done })
        }
    }

    /// Everything but the temperature field is as in `before`.
    pub open spec fn unchanged_but_field(&self, before: &HeatSolver) -> bool {
        &&& self.parameters() == before.parameters()
        &&& self.grid() == before.grid()
        &&& self.steps() == before.steps()
        &&& self.history() == before.history()
        &&& self.melt() == before.melt()
        &&& self.melt_history() == before.melt_history()
        &&& self.vapor() == before.vapor()
        &&& self.vapor_history() == before.vapor_history()
        &&& self.absorbed() == before.absorbed()
    }

    /// Everything but the temperature field, the two current phase
    /// fractions and the latent energy is as in `before`.
    pub open spec fn unchanged_but_phases(&self, before: &HeatSolver) -> bool {
        &&& self.parameters() == before.parameters()
        &&& self.grid() == before.grid()
        &&& self.steps() == before.steps()
        &&& self.history() == before.history()
        &&& self.melt_history() == before.melt_history()
        &&& self.vapor_history() == before.vapor_history()
        &&& self.melt() is Some == before.melt() is Some
        &&& self.vapor() is Some == before.vapor() is Some
    }
}

/// A cooler field of finite temperatures is still a field of finite
/// temperatures.
pub proof fn finite_after_cooling(after: &Field2, before: &Field2)
    requires
        none_heated(after, before),
        all_finite(before),
    ensures
        all_finite(after),
{
    assert forall|i: int, j: int| 0 <= i < after.rows() && 0 <= j < after.cols() implies (
    #[trigger] after.at(i, j)).finite() by {
        assert(before.at(i, j).finite());
    }
}

/// Cooling after cooling is cooling.
pub proof fn cooling_composes(after: &Field2, mid: &Field2, before: &Field2)
    requires
        none_heated(after, mid),
        none_heated(mid, before),
    ensures
        none_heated(after, before),
{
    assert forall|i: int, j: int| 0 <= i < before.rows() && 0 <= j < before.cols() implies {
        ||| #[trigger] after.at(i, j) == before.at(i, j)
        ||| after.at(i, j).at_most(before.at(i, j)) && after.at(i, j).finite()
    } by {
        assert(after.at(i, j) == mid.at(i, j) || (after.at(i, j).at_most(mid.at(i, j))
            && after.at(i, j).finite()));
        assert(mid.at(i, j) == before.at(i, j) || (mid.at(i, j).at_most(before.at(i, j))
            && mid.at(i, j).finite()));
    }
}

/// What the sweeps make of the fields does not depend on the temperature
/// before the temperature step: the sweeps that lead from `middle` lead
/// from every moment with the fractions and the energy of `middle`.
pub proof fn phases_settled_for<P>(
    after: &Planes,
    before: &Planes,
    middle: &Planes,
    stepped: &Field2,
    rule: StepRule,
    phase: P,
) where P: Fn(PhaseCell) -> PhaseUpdate
    requires
        phases_settled(after, middle, stepped, rule, phase),
        before.melt == middle.melt,
        before.vapor == middle.vapor,
        before.absorbed == middle.absorbed,
    ensures
        phases_settled(after, before, stepped, rule, phase),
{
}

/// A sweep that is refused from `middle` is refused from every moment with
/// the fractions and the energy of `middle`.
pub proof fn phases_refused_for<P>(
    before: &Planes,
    middle: &Planes,
    stepped: &Field2,
    rule: StepRule,
    phase: P,
) where P: Fn(PhaseCell) -> PhaseUpdate
    requires
        phases_refused(middle, stepped, rule, phase),
        before.melt == middle.melt,
        before.vapor == middle.vapor,
        before.absorbed == middle.absorbed,
    ensures
        phases_refused(before, stepped, rule, phase),
{
}

/// Fields hold what they hold.
pub proof fn held_by_itself(planes: &Planes)
    ensures
        planes.held_by(planes),
{
}

impl HeatSolver {
    /// Advances the phase fractions after a temperature step.
    ///
    /// With phase changes enabled, the melt fraction of a material that
    /// melts is swept first and the vapor fraction of a material that
    /// vaporizes second; a cell vaporizes only once it has melted, where
    /// the material has a melting point.  No fraction ever decreases or
    /// leaves `[0, 1]`, the absorbed latent energy never decreases, and no
    /// cell is heated.
    fn update_phase_change_fractions<R, C, K, P>(
        &mut self,
        kernels: &Kernels<R, C, K, P>,
    ) -> (r: Result<(), SolverError>) where
        R: Fn(usize, usize, Scalar) -> Scalar,
        C: Fn(usize, usize, Scalar) -> Scalar,
        K: Fn(CellStencil) -> Scalar,
        P: Fn(PhaseCell) -> PhaseUpdate,

        requires
            old(self).sound(),
            kernels.total(),
        ensures
            final(self).sound(),
            final(self).unchanged_but_phases(old(self)),
            none_heated(&final(self).field(), &old(self).field()),
            all_finite(&old(self).field()) ==> all_finite(&final(self).field()),
            old(self).absorbed().at_most(final(self).absorbed()),
            !tracks_phases(&old(self).parameters()) ==> {
                &&& r is Ok
                &&& final(self).field() == old(self).field()
                &&& final(self).melt() == old(self).melt()
                &&& final(self).vapor() == old(self).vapor()
                &&& final(self).absorbed() == old(self).absorbed()
            },
            tracks_phases(&old(self).parameters()) ==> {
                &&& none_decreased(&final(self).melt().unwrap(), &old(self).melt().unwrap())
                &&& none_decreased(&final(self).vapor().unwrap(), &old(self).vapor().unwrap())
            },
            tracks_phases(&old(self).parameters()) && r is Ok ==> phases_settled(
                &final(self).planes(),
                &old(self).planes(),
                &old(self).field(),
                rule_of(&old(self).parameters()),
                kernels.phase,
            ),
            !old(self).parameters().material.melts() && !old(
                self,
            ).parameters().material.vaporizes() ==> {
                &&& r is Ok
                &&& final(self).field() == old(self).field()
                &&& final(self).melt() == old(self).melt()
                &&& final(self).vapor() == old(self).vapor()
                &&& final(self).absorbed() == old(self).absorbed()
            },
            r matches Err(e) ==> {
                &&& e == (SolverError::NumericalInstability { step: old(self).steps() as usize })
                &&& tracks_phases(&old(self).parameters())
                &&& phases_refused(
                    &old(self).planes(),
                    &old(self).field(),
                    rule_of(&old(self).parameters()),
                    kernels.phase,
                )
            },
    {
        if !self.params.enable_phase_changes {
            return Ok(());
        }
        let tracking = self.params.material.melting_point.is_some()
            || self.params.material.vaporization_point.is_some();
        if !tracking {
            return Ok(());
        }
        let step = self.steps_done;
        let mut energy = self.total_phase_change_energy;
        let ghost steps = self.steps_done as int;
        let ghost rule = rule_of(&self.params);
        let ghost before = self.planes();
        let ghost temperature_before = self.temperature;
        let mut melt = self.melt_fraction.take().unwrap();
        let ghost melt_before = melt;
        let mut failed = false;
        match (self.params.material.melting_point, self.params.material.latent_heat_fusion) {
            (Some(point), Some(latent_heat)) => {
                match sweep_transition(
                    &mut melt,
                    &mut self.temperature,
                    None,
                    PhaseTransition::Melting,
                    point,
                    latent_heat,
                    energy,
                    &kernels.phase,
                ) {
                    Ok(e) => {
                        energy = e;
                    },
                    Err(stop) => {
                        failed = true;
                        proof {
                            assert(melting_sweep(
                                &melt,
                                &melt_before,
                                &self.temperature,
                                &temperature_before,
                                before.absorbed,
                                rule,
                            ).refused_at(kernels.phase, stop.i as int, stop.j as int));
                            assert(melting_refused(
                                &before,
                                &temperature_before,
                                rule,
                                kernels.phase,
                            ));
                        }
                    },
                }
            },
            _ => {},
        }
        proof {
            sound_after_growth(
                &melt_before,
                &melt,
                &self.melt_fraction_history.unwrap(),
                steps,
            );
            if all_finite(&temperature_before) {
                finite_after_cooling(&self.temperature, &temperature_before);
            }
        }
        self.melt_fraction = Some(melt);
        if failed {
            return Err(SolverError::NumericalInstability { step });
        }
        let ghost temperature_mid = self.temperature;
        let ghost energy_mid = energy;
        proof {
            assert(melt_stage(
                &self.melt_fraction.unwrap(),
                &melt_before,
                &temperature_mid,
                &temperature_before,
                energy_mid,
                before.absorbed,
                rule,
                kernels.phase,
            ));
        }
        let mut vapor = self.vapor_fraction.take().unwrap();
        let ghost vapor_before = vapor;
        match (
            self.params.material.vaporization_point,
            self.params.material.latent_heat_vaporization,
        ) {
            (Some(point), Some(latent_heat)) => {
                let prior: Option<&Field2> = if self.params.material.melting_point.is_some() {
                    self.melt_fraction.as_ref()
                } else {
                    None
                };
                match sweep_transition(
                    &mut vapor,
                    &mut self.temperature,
                    prior,
                    PhaseTransition::Vaporization,
                    point,
                    latent_heat,
                    energy,
                    &kernels.phase,
                ) {
                    Ok(e) => {
                        energy = e;
                    },
                    Err(stop) => {
                        failed = true;
                        proof {
                            assert(vaporization_sweep(
                                &vapor,
                                &vapor_before,
                                &self.temperature,
                                &temperature_mid,
                                &self.melt_fraction.unwrap(),
                                energy_mid,
                                rule,
                            ).refused_at(kernels.phase, stop.i as int, stop.j as int));
                            assert(vaporization_refused(
                                &before,
                                &temperature_before,
                                rule,
                                kernels.phase,
                            ));
                        }
                    },
                }
            },
            _ => {},
        }
        proof {
            sound_after_growth(
                &vapor_before,
                &vapor,
                &self.vapor_fraction_history.unwrap(),
                steps,
            );
            cooling_composes(&self.temperature, &temperature_mid, &temperature_before);
            if all_finite(&temperature_before) {
                finite_after_cooling(&self.temperature, &temperature_before);
            }
        }
        self.vapor_fraction = Some(vapor);
        if failed {
            return Err(SolverError::NumericalInstability { step });
        }
        self.total_phase_change_energy = energy;
        proof {
            assert(vapor_stage(
                &self.vapor_fraction.unwrap(),
                &vapor_before,
                &self.temperature,
                &temperature_mid,
                &self.melt_fraction.unwrap(),
                energy,
                energy_mid,
                rule,
                kernels.phase,
            ));
            assert(phases_settled(&self.planes(), &before, &temperature_before, rule, kernels.phase));
        }
        Ok(())
    }
}

/// A copy of a sound history is sound.
pub proof fn copy_is_sound(copy: &Field3, history: &Field3, current: &Field2, steps: int)
    requires
        copy.agrees(history),
        fraction_history_sound(current, history, steps),
        0 <= steps,
    ensures
        fractions_sound(copy, history.rows() as int, history.cols() as int, steps),
{
    assert forall|i: int, j: int, k: int|
        0 <= i < history.rows() && 0 <= j < history.cols() && 0 <= k <= steps implies (
    #[trigger] copy.at(i, j, k)).unit() by {
        assert(history.at(i, j, k).unit());
    }
    assert forall|i: int, j: int, k: int|
        0 <= i < history.rows() && 0 <= j < history.cols() && 0 <= k < steps implies (
    #[trigger] copy.at(i, j, k)).at_most(copy.at(i, j, k + 1)) by {
        assert(history.at(i, j, k).at_most(history.at(i, j, k + 1)));
        assert(copy.at(i, j, k + 1) == history.at(i, j, k + 1));
    }
}

impl HeatSolver {
    /// The results `results` are a copy of what the solver holds.
    pub open spec fn held_in(&self, results: &SimulationResults) -> bool {
        &&& results.parameters.same_as(&self.parameters())
        &&& results.mesh.same_geometry(&self.grid())
        &&& results.temperature.agrees(&self.history())
        &&& results.phase_change_info is Some <==> tracks_phases(&self.parameters())
        &&& results.phase_change_info matches Some(info) ==> {
            &&& info.melt_fraction is Some
            &&& info.vapor_fraction is Some
            &&& info.melt_fraction.unwrap().agrees(&self.melt_history().unwrap())
            &&& info.vapor_fraction.unwrap().agrees(&self.vapor_history().unwrap())
            &&& info.total_phase_change_energy == self.absorbed()
        }
    }

    /// From plane `from` on, every recorded plane of the histories of the
    /// solver is one step on from the plane before it.
    pub open spec fn stepped_since<R, C, K, P>(&self, from: int, kernels: &Kernels<R, C, K, P>) -> bool where
        R: Fn(usize, usize, Scalar) -> Scalar,
        C: Fn(usize, usize, Scalar) -> Scalar,
        K: Fn(CellStencil) -> Scalar,
        P: Fn(PhaseCell) -> PhaseUpdate,
     {
        stepwise(
            &self.history(),
            self.melt_history(),
            self.vapor_history(),
            from,
            self.steps() as int,
            rule_of(&self.parameters()),
            kernels,
        )
    }

    /// From plane `from` on, the histories of the solver are a trace of the
    /// run from the fields `start`: every recorded plane holds the fields
    /// that many steps on, phase fractions and absorbed energy carried from
    /// step to step.
    pub open spec fn traced_since<R, C, K, P>(
        &self,
        from: int,
        start: &Planes,
        kernels: &Kernels<R, C, K, P>,
    ) -> bool where
        R: Fn(usize, usize, Scalar) -> Scalar,
        C: Fn(usize, usize, Scalar) -> Scalar,
        K: Fn(CellStencil) -> Scalar,
        P: Fn(PhaseCell) -> PhaseUpdate,
     {
        traced(
            &self.history(),
            self.melt_history(),
            self.vapor_history(),
            from,
            self.steps() as int,
            start,
            rule_of(&self.parameters()),
            kernels,
        )
    }

    /// Up to plane `steps`, the three histories are those of `before`.
    pub open spec fn same_record(&self, before: &HeatSolver, steps: int) -> bool {
        &&& same_planes_up_to(&self.history(), &before.history(), steps)
        &&& self.melt_history() is Some <==> before.melt_history() is Some
        &&& self.vapor_history() is Some <==> before.vapor_history() is Some
        &&& self.melt_history() is Some ==> same_planes_up_to(
            &self.melt_history().unwrap(),
            &before.melt_history().unwrap(),
            steps,
        )
        &&& self.vapor_history() is Some ==> same_planes_up_to(
            &self.vapor_history().unwrap(),
            &before.vapor_history().unwrap(),
            steps,
        )
    }

    /// The solver stands where `before` stood: the same step, the same
    /// histories, the same latent energy, and current fields that hold what
    /// those of `before` held.
    pub open spec fn same_moment(&self, before: &HeatSolver) -> bool {
        &&& self.steps() == before.steps()
        &&& self.history() == before.history()
        &&& self.melt_history() == before.melt_history()
        &&& self.vapor_history() == before.vapor_history()
        &&& self.absorbed() == before.absorbed()
        &&& self.field().agrees(&before.field())
        &&& self.melt() is Some <==> before.melt() is Some
        &&& self.vapor() is Some <==> before.vapor() is Some
        &&& self.melt() is Some ==> self.melt().unwrap().agrees(&before.melt().unwrap())
        &&& self.vapor() is Some ==> self.vapor().unwrap().agrees(&before.vapor().unwrap())
    }

    /// Records the current fields as the plane after the last recorded one
    /// and counts the step.
    fn record_step(&mut self)
        requires
            old(self).sound(),
            old(self).steps() < old(self).parameters().time_steps,
        ensures
            final(self).wf(),
            final(self).parameters() == old(self).parameters(),
            final(self).grid() == old(self).grid(),
            final(self).field() == old(self).field(),
            final(self).melt() == old(self).melt(),
            final(self).vapor() == old(self).vapor(),
            final(self).absorbed() == old(self).absorbed(),
            final(self).steps() == old(self).steps() + 1,
            final(self).same_record(old(self), old(self).steps() as int),
    {
        let plane = self.steps_done + 1;
        let ghost steps = self.steps_done as int;
        let ghost melt_before = self.melt_fraction_history;
        let ghost vapor_before = self.vapor_fraction_history;
        self.temperature_history.store_plane(plane, &self.temperature);
        if let Some(current) = &self.melt_fraction {
            if let Some(history) = &mut self.melt_fraction_history {
                history.store_plane(plane, current);
            }
        }
        if let Some(current) = &self.vapor_fraction {
            if let Some(history) = &mut self.vapor_fraction_history {
                history.store_plane(plane, current);
            }
        }
        self.steps_done = plane;
        proof {
            if tracks_phases(&self.params) {
                sound_after_record(
                    &self.melt_fraction.unwrap(),
                    &melt_before.unwrap(),
                    &self.melt_fraction_history.unwrap(),
                    steps,
                );
                sound_after_record(
                    &self.vapor_fraction.unwrap(),
                    &vapor_before.unwrap(),
                    &self.vapor_fraction_history.unwrap(),
                    steps,
                );
            }
        }
    }

    /// Takes the current fields back to the last recorded plane, and the
    /// latent energy to `energy`.
    fn restore(&mut self, energy: Scalar)
        requires
            old(self).sound(),
            (Scalar { bits: 0 }).at_most(energy),
            energy.finite(),
        ensures
            final(self).wf(),
            final(self).parameters() == old(self).parameters(),
            final(self).grid() == old(self).grid(),
            final(self).steps() == old(self).steps(),
            final(self).history() == old(self).history(),
            final(self).melt_history() == old(self).melt_history(),
            final(self).vapor_history() == old(self).vapor_history(),
            final(self).absorbed() == energy,
    {
        let plane = self.steps_done;
        self.temperature = self.temperature_history.plane(plane);
        let melt = match &self.melt_fraction_history {
            Some(history) => Some(history.plane(plane)),
            None => None,
        };
        let vapor = match &self.vapor_fraction_history {
            Some(history) => Some(history.plane(plane)),
            None => None,
        };
        self.melt_fraction = melt;
        self.vapor_fraction = vapor;
        self.total_phase_change_energy = energy;
        proof {
            if tracks_phases(&self.params) {
                let current = self.melt_fraction.unwrap();
                let history = self.melt_fraction_history.unwrap();
                assert forall|i: int, j: int|
                    0 <= i < current.rows() && 0 <= j < current.cols() implies {
                    &&& (#[trigger] current.at(i, j)).unit()
                    &&& history.at(i, j, plane as int).at_most(current.at(i, j))
                } by {
                    assert(history.at(i, j, plane as int).unit());
                    assert(history.at(i, j, plane as int) == current.at(i, j));
                }
                let current = self.vapor_fraction.unwrap();
                let history = self.vapor_fraction_history.unwrap();
                assert forall|i: int, j: int|
                    0 <= i < current.rows() && 0 <= j < current.cols() implies {
                    &&& (#[trigger] current.at(i, j)).unit()
                    &&& history.at(i, j, plane as int).at_most(current.at(i, j))
                } by {
                    assert(history.at(i, j, plane as int).unit());
                    assert(history.at(i, j, plane as int) == current.at(i, j));
                }
            }
        }
    }

    /// Two solvers at rest on the same histories at the same step hold the
    /// same current fields.
    proof fn back_where_it_stood(&self, before: &HeatSolver)
        requires
            self.wf(),
            before.wf(),
            self.parameters() == before.parameters(),
            self.steps() == before.steps(),
            self.history() == before.history(),
            self.melt_history() == before.melt_history(),
            self.vapor_history() == before.vapor_history(),
            self.absorbed() == before.absorbed(),
        ensures
            self.same_moment(before),
    {
        let k = self.steps() as int;
        assert forall|i: int, j: int|
            0 <= i < self.field().rows() && 0 <= j < self.field().cols() implies #[trigger] self.field().at(
            i,
            j,
        ) == before.field().at(i, j) by {
            assert(self.history().at(i, j, k) == self.field().at(i, j));
            assert(before.history().at(i, j, k) == before.field().at(i, j));
        }
        if self.melt() is Some {
            let now = self.melt().unwrap();
            let then = before.melt().unwrap();
            let history = self.melt_history().unwrap();
            assert forall|i: int, j: int|
                0 <= i < now.rows() && 0 <= j < now.cols() implies #[trigger] now.at(i, j) == then.at(
                i,
                j,
            ) by {
                assert(history.at(i, j, k) == now.at(i, j));
                assert(history.at(i, j, k) == then.at(i, j));
            }
        }
        if self.vapor() is Some {
            let now = self.vapor().unwrap();
            let then = before.vapor().unwrap();
            let history = self.vapor_history().unwrap();
            assert forall|i: int, j: int|
                0 <= i < now.rows() && 0 <= j < now.cols() implies #[trigger] now.at(i, j) == then.at(
                i,
                j,
            ) by {
                assert(history.at(i, j, k) == now.at(i, j));
                assert(history.at(i, j, k) == then.at(i, j));
            }
        }
    }

    /// Takes one whole step: sources, temperature, phase fractions, and
    /// the record of all three.  The result is the progress of the run
    /// after the step.
    ///
    /// A step that turns out unstable is taken back: the solver stands
    /// where it stood.
    pub fn advance<R, C, K, P>(&mut self, kernels: &Kernels<R, C, K, P>) -> (r: Result<
        Progress,
        SolverError,
    >) where
        R: Fn(usize, usize, Scalar) -> Scalar,
        C: Fn(usize, usize, Scalar) -> Scalar,
        K: Fn(CellStencil) -> Scalar,
        P: Fn(PhaseCell) -> PhaseUpdate,

        requires
            old(self).wf(),
            old(self).steps() < old(self).parameters().time_steps,
            kernels.total(),
        ensures
            final(self).wf(),
            final(self).parameters() == old(self).parameters(),
            final(self).grid() == old(self).grid(),
            final(self).same_record(old(self), old(self).steps() as int),
            r matches Ok(p) ==> {
                &&& p == (Progress {
                    completed: (old(self).steps() + 1) as usize,
                    total: old(self).parameters().time_steps,
                })
                &&& final(self).steps() == old(self).steps() + 1
                &&& one_step(
                    &final(self).planes(),
                    &old(self).planes(),
                    rule_of(&old(self).parameters()),
                    kernels,
                )
                &&& recorded_step(
                    &final(self).history(),
                    final(self).melt_history(),
                    final(self).vapor_history(),
                    old(self).steps() as int,
                    rule_of(&old(self).parameters()),
                    kernels,
                )
                &&& all_finite(&final(self).field())
                &&& old(self).absorbed().at_most(final(self).absorbed())
            },
            r matches Err(e) ==> {
                &&& e == (SolverError::NumericalInstability { step: old(self).steps() as usize })
                &&& final(self).same_moment(old(self))
                &&& step_fails(&old(self).planes(), rule_of(&old(self).parameters()), kernels)
            },
    {
        let energy = self.total_phase_change_energy;
        let ghost before = self.planes();
        let ghost rule = rule_of(&self.params);
        let sources = self.calculate_sources(kernels);
        match self.solve_time_step(&sources, kernels) {
            Err(e) => {
                proof {
                    assert(conducted(&self.temperature, &sources, &before, rule, kernels));
                    assert(step_fails(&before, rule, kernels));
                }
                self.restore(energy);
                proof {
                    self.back_where_it_stood(old(self));
                }
                return Err(e);
            },
            Ok(()) => {},
        }
        let ghost stepped = self.temperature;
        proof {
            assert(conducted(&stepped, &sources, &before, rule, kernels));
        }
        if self.params.enable_phase_changes {
            let ghost middle = self.planes();
            match self.update_phase_change_fractions(kernels) {
                Err(e) => {
                    proof {
                        assert(phases_refused(&middle, &stepped, rule, kernels.phase));
                        phases_refused_for(&before, &middle, &stepped, rule, kernels.phase);
                        assert(step_fails(&before, rule, kernels));
                    }
                    self.restore(energy);
                    proof {
                        self.back_where_it_stood(old(self));
                    }
                    return Err(e);
                },
                Ok(()) => {},
            }
            proof {
                if tracks_phases(&self.params) {
                    phases_settled_for(&self.planes(), &before, &middle, &stepped, rule, kernels.phase);
                }
            }
        }
        proof {
            assert(one_step(&self.planes(), &before, rule, kernels));
        }
        let ghost after = self.planes();
        self.record_step();
        proof {
            assert(planes_at(
                &self.history(),
                self.melt_history(),
                self.vapor_history(),
                old(self).steps() as int,
                &before,
            ));
            assert(planes_at(
                &self.history(),
                self.melt_history(),
                self.vapor_history(),
                old(self).steps() as int + 1,
                &after,
            ));
        }
        Ok(Progress { completed: self.steps_done, total: self.params.time_steps })
    }

    /// A copy of the history as it stands, with the time that the run took.
    pub fn collect(&self, execution_time: Elapsed) -> (results: SimulationResults)
        requires
            self.wf(),
        ensures
            self.held_in(&results),
            results.sound(self.steps() as int),
            results.execution_time == execution_time,
    {
        let phase_change_info = match (&self.melt_fraction_history, &self.vapor_fraction_history) {
            (Some(melt), Some(vapor)) => {
                let melt_copy = melt.duplicate();
                let vapor_copy = vapor.duplicate();
                proof {
                    copy_is_sound(
                        &melt_copy,
                        melt,
                        &self.melt_fraction.unwrap(),
                        self.steps_done as int,
                    );
                    copy_is_sound(
                        &vapor_copy,
                        vapor,
                        &self.vapor_fraction.unwrap(),
                        self.steps_done as int,
                    );
                }
                Some(
                    PhaseChangeInfo {
                        melt_fraction: Some(melt_copy),
                        vapor_fraction: Some(vapor_copy),
                        total_phase_change_energy: self.total_phase_change_energy,
                    },
                )
            },
            _ => None,
        };
        let parameters = self.params.duplicate();
        let temperature = self.temperature_history.duplicate();
        SimulationResults {
            parameters,
            mesh: self.mesh.duplicate(),
            temperature,
            execution_time,
            phase_change_info,
        }
    }

    /// What was stepped in the solver is stepped in the results that hold a
    /// copy of it.
    pub proof fn stepwise_in_results<R, C, K, P>(
        &self,
        results: &SimulationResults,
        from: int,
        kernels: &Kernels<R, C, K, P>,
    ) where
        R: Fn(usize, usize, Scalar) -> Scalar,
        C: Fn(usize, usize, Scalar) -> Scalar,
        K: Fn(CellStencil) -> Scalar,
        P: Fn(PhaseCell) -> PhaseUpdate,

        requires
            self.wf(),
            self.held_in(results),
            0 <= from,
            self.stepped_since(from, kernels),
        ensures
            results.stepwise(from, self.steps() as int, kernels),
    {
        assert forall|k: int| from <= k < self.steps() implies #[trigger] recorded_step(
            &results.temperature,
            melt_history_of(results.phase_change_info),
            vapor_history_of(results.phase_change_info),
            k,
            rule_of(&results.parameters),
            kernels,
        ) by {
            assert(recorded_step(
                &self.history(),
                self.melt_history(),
                self.vapor_history(),
                k,
                rule_of(&self.parameters()),
                kernels,
            ));
            recorded_step_carries(
                (
                    &results.temperature,
                    melt_history_of(results.phase_change_info),
                    vapor_history_of(results.phase_change_info),
                ),
                (&self.history(), self.melt_history(), self.vapor_history()),
                k,
                rule_of(&self.parameters()),
                kernels,
            );
            assert(rule_of(&results.parameters) == rule_of(&self.parameters()));
        }
    }

    /// Runs the steps that are left.
    ///
    /// After every step the observer is handed the progress of the run;
    /// when it answers [`Signal::Cancel`] the run ends there and hands out the
    /// history up to that step.  A run with no step left is complete
    /// without a call of any kernel.  A step that turns out unstable ends
    /// the run; the solver then stands after the last stable step.
    pub fn run<R, C, K, P, O>(&mut self, kernels: &Kernels<R, C, K, P>, observer: &O) -> (r: Result<
        RunOutcome,
        SolverError,
    >) where
        R: Fn(usize, usize, Scalar) -> Scalar,
        C: Fn(usize, usize, Scalar) -> Scalar,
        K: Fn(CellStencil) -> Scalar,
        P: Fn(PhaseCell) -> PhaseUpdate,
        O: Fn(Progress) -> Signal,

        requires
            old(self).wf(),
            kernels.total(),
            forall|p: Progress| p.proper() ==> call_requires(*observer, (p,)),
        ensures
            final(self).wf(),
            final(self).parameters() == old(self).parameters(),
            old(self).steps() <= final(self).steps(),
            final(self).same_record(old(self), old(self).steps() as int),
            final(self).stepped_since(old(self).steps() as int, kernels),
            final(self).traced_since(old(self).steps() as int, &old(self).planes(), kernels),
            reached(
                &final(self).planes(),
                &old(self).planes(),
                (final(self).steps() - old(self).steps()) as nat,
                rule_of(&old(self).parameters()),
                kernels,
            ),
            r is Ok ==> chained(
                &final(self).planes(),
                &old(self).planes(),
                (final(self).steps() - old(self).steps()) as nat,
                rule_of(&old(self).parameters()),
                kernels,
            ),
            r matches Ok(RunOutcome::Completed(results)) ==> {
                &&& final(self).steps() == old(self).parameters().time_steps
                &&& final(self).held_in(&results)
                &&& results.sound(final(self).steps() as int)
                &&& results.stepwise(old(self).steps() as int, final(self).steps() as int, kernels)
                &&& results.traced(
                    old(self).steps() as int,
                    final(self).steps() as int,
                    &old(self).planes(),
                    kernels,
                )
            },
            r matches Ok(RunOutcome::Cancelled { steps, partial }) ==> {
                &&& steps == final(self).steps()
                &&& old(self).steps() < steps
                &&& final(self).held_in(&partial)
                &&& partial.sound(steps as int)
                &&& partial.stepwise(old(self).steps() as int, steps as int, kernels)
                &&& partial.traced(old(self).steps() as int, steps as int, &old(self).planes(), kernels)
                &&& call_ensures(
                    *observer,
                    (Progress { completed: steps, total: old(self).parameters().time_steps },),
                    Signal::Cancel,
                )
            },
            r matches Err(e) ==> {
                &&& e == (SolverError::NumericalInstability { step: final(self).steps() as usize })
                &&& final(self).steps() < old(self).parameters().time_steps
                &&& step_fails_at(&final(self).planes(), rule_of(&old(self).parameters()), kernels)
            },
            old(self).steps() == old(self).parameters().time_steps ==> {
                &&& r matches Ok(RunOutcome::Completed(_))
                &&& final(self).same_moment(old(self))
            },
    {
        let total = self.params.time_steps;
        let start = now();
        proof {
            assert(chained(&self.planes(), &self.planes(), 0, rule_of(&self.parameters()), kernels));
            assert(plane_reached(
                &self.history(),
                self.melt_history(),
                self.vapor_history(),
                self.steps() as int,
                &self.planes(),
                0,
                rule_of(&self.parameters()),
                kernels,
            ));
        }
        while self.steps_done < total
            invariant
                self.wf(),
                self.traced_since(old(self).steps() as int, &old(self).planes(), kernels),
                self.parameters() == old(self).parameters(),
                total == self.parameters().time_steps,
                old(self).steps() <= self.steps(),
                old(self).steps() == total ==> *self == *old(self),
                self.same_record(old(self), old(self).steps() as int),
                self.stepped_since(old(self).steps() as int, kernels),
                chained(
                    &self.planes(),
                    &old(self).planes(),
                    (self.steps() - old(self).steps()) as nat,
                    rule_of(&old(self).parameters()),
                    kernels,
                ),
                kernels.total(),
                forall|p: Progress| p.proper() ==> call_requires(*observer, (p,)),
            decreases total - self.steps_done,
        {
            let ghost previous = *self;
            let progress = match self.advance(kernels) {
                Err(e) => {
                    proof {
                        self.still_stepped(&previous, old(self).steps() as int, kernels);
                        self.still_traced(
                            &previous,
                            old(self).steps() as int,
                            &old(self).planes(),
                            kernels,
                        );
                        assert(previous.planes().held_by(&self.planes()));
                        assert(reached(
                            &self.planes(),
                            &old(self).planes(),
                            (self.steps() - old(self).steps()) as nat,
                            rule_of(&old(self).parameters()),
                            kernels,
                        ));
                    }
                    return Err(e);
                },
                Ok(p) => p,
            };
            proof {
                self.still_stepped(&previous, old(self).steps() as int, kernels);
                assert(one_step(
                    &self.planes(),
                    &previous.planes(),
                    rule_of(&old(self).parameters()),
                    kernels,
                ));
                assert(chained(
                    &self.planes(),
                    &old(self).planes(),
                    (self.steps() - old(self).steps()) as nat,
                    rule_of(&old(self).parameters()),
                    kernels,
                ));
                held_by_itself(&self.planes());
                self.still_traced(&previous, old(self).steps() as int, &old(self).planes(), kernels);
            }
            assert(progress.proper());
            match observer(progress) {
                Signal::Cancel => {
                    let partial = self.collect(Elapsed::since(&start));
                    proof {
                        self.stepwise_in_results(&partial, old(self).steps() as int, kernels);
                        self.traced_in_results(
                            &partial,
                            old(self).steps() as int,
                            &old(self).planes(),
                            kernels,
                        );
                    }
                    return Ok(RunOutcome::Cancelled { steps: self.steps_done, partial });
                },
                Signal::Continue => {},
            }
        }
        let results = self.collect(Elapsed::since(&start));
        proof {
            self.stepwise_in_results(&results, old(self).steps() as int, kernels);
            self.traced_in_results(&results, old(self).steps() as int, &old(self).planes(), kernels);
            held_by_itself(&self.planes());
        }
        Ok(RunOutcome::Completed(results))
    }

    /// Without sources and without phase changes, a solver that was stepped
    /// from a flat start at a finite ambient temperature holds that
    /// temperature in every node, and its next step does not fail, provided
    /// that the conduction kernel leaves a node alone whose surroundings
    /// are as warm as it is.  A run of such a solver ends as completed or
    /// as cancelled, never as failed.
    pub proof fn flat_run_does_not_fail<R, C, K, P>(&self, kernels: &Kernels<R, C, K, P>) where
        R: Fn(usize, usize, Scalar) -> Scalar,
        C: Fn(usize, usize, Scalar) -> Scalar,
        K: Fn(CellStencil) -> Scalar,
        P: Fn(PhaseCell) -> PhaseUpdate,

        requires
            self.wf(),
            self.stepped_since(0, kernels),
            !self.parameters().enable_radiation,
            !self.parameters().enable_convection,
            !tracks_phases(&self.parameters()),
            self.parameters().initial_temperature == self.parameters().ambient_temperature,
            self.parameters().ambient_temperature.finite(),
            keeps_flat(kernels.conduction, self.parameters().ambient_temperature),
        ensures
            self.field().uniform(self.parameters().initial_temperature),
            !step_fails_at(&self.planes(), rule_of(&self.parameters()), kernels),
    {
        let rule = rule_of(&self.parameters());
        flat_history_stays_flat(&self.history(), self.steps() as int, rule, kernels, self.steps() as int);
        assert forall|i: int, j: int|
            0 <= i < self.field().rows() && 0 <= j < self.field().cols() implies #[trigger] self.field().at(
            i,
            j,
        ) == self.parameters().initial_temperature by {
            assert(self.history().at(i, j, self.steps() as int) == self.field().at(i, j));
        }
        flat_step_does_not_fail(&self.planes(), rule, kernels);
    }

    /// What was traced in the solver is traced in the results that hold a
    /// copy of it.
    pub proof fn traced_in_results<R, C, K, P>(
        &self,
        results: &SimulationResults,
        from: int,
        start: &Planes,
        kernels: &Kernels<R, C, K, P>,
    ) where
        R: Fn(usize, usize, Scalar) -> Scalar,
        C: Fn(usize, usize, Scalar) -> Scalar,
        K: Fn(CellStencil) -> Scalar,
        P: Fn(PhaseCell) -> PhaseUpdate,

        requires
            self.wf(),
            self.held_in(results),
            0 <= from,
            self.traced_since(from, start, kernels),
        ensures
            results.traced(from, self.steps() as int, start, kernels),
    {
        assert(rule_of(&results.parameters) == rule_of(&self.parameters()));
        assert forall|k: int| from <= k <= self.steps() implies #[trigger] plane_reached(
            &results.temperature,
            melt_history_of(results.phase_change_info),
            vapor_history_of(results.phase_change_info),
            k,
            start,
            (k - from) as nat,
            rule_of(&results.parameters),
            kernels,
        ) by {
            assert(plane_reached(
                &self.history(),
                self.melt_history(),
                self.vapor_history(),
                k,
                start,
                (k - from) as nat,
                rule_of(&self.parameters()),
                kernels,
            ));
            plane_reached_carries(
                (
                    &results.temperature,
                    melt_history_of(results.phase_change_info),
                    vapor_history_of(results.phase_change_info),
                ),
                (&self.history(), self.melt_history(), self.vapor_history()),
                k,
                start,
                (k - from) as nat,
                rule_of(&self.parameters()),
                kernels,
            );
        }
    }

    /// The planes that were traced in `previous` from plane `from` on are
    /// traced in a solver that has kept the planes of `previous`, and so is
    /// the plane of the step that it has taken since, if it has taken one.
    proof fn still_traced<R, C, K, P>(
        &self,
        previous: &HeatSolver,
        from: int,
        start: &Planes,
        kernels: &Kernels<R, C, K, P>,
    ) where
        R: Fn(usize, usize, Scalar) -> Scalar,
        C: Fn(usize, usize, Scalar) -> Scalar,
        K: Fn(CellStencil) -> Scalar,
        P: Fn(PhaseCell) -> PhaseUpdate,

        requires
            previous.wf(),
            self.wf(),
            self.parameters() == previous.parameters(),
            0 <= from <= previous.steps(),
            previous.traced_since(from, start, kernels),
            self.same_record(previous, previous.steps() as int),
            self.steps() == previous.steps() || (self.steps() == previous.steps() + 1 && chained(
                &self.planes(),
                start,
                (self.steps() - from) as nat,
                rule_of(&self.parameters()),
                kernels,
            )),
        ensures
            self.traced_since(from, start, kernels),
    {
        assert forall|k: int| from <= k <= self.steps() implies #[trigger] plane_reached(
            &self.history(),
            self.melt_history(),
            self.vapor_history(),
            k,
            start,
            (k - from) as nat,
            rule_of(&self.parameters()),
            kernels,
        ) by {
            if k <= previous.steps() {
                assert(plane_reached(
                    &previous.history(),
                    previous.melt_history(),
                    previous.vapor_history(),
                    k,
                    start,
                    (k - from) as nat,
                    rule_of(&previous.parameters()),
                    kernels,
                ));
                plane_reached_carries(
                    (&self.history(), self.melt_history(), self.vapor_history()),
                    (&previous.history(), previous.melt_history(), previous.vapor_history()),
                    k,
                    start,
                    (k - from) as nat,
                    rule_of(&self.parameters()),
                    kernels,
                );
            }
        }
    }

    /// The steps that were recorded in `previous` from plane `from` on are
    /// recorded in a solver that has kept the planes of `previous`, and so
    /// is the step that it has taken since, if it has taken one.
    proof fn still_stepped<R, C, K, P>(
        &self,
        previous: &HeatSolver,
        from: int,
        kernels: &Kernels<R, C, K, P>,
    ) where
        R: Fn(usize, usize, Scalar) -> Scalar,
        C: Fn(usize, usize, Scalar) -> Scalar,
        K: Fn(CellStencil) -> Scalar,
        P: Fn(PhaseCell) -> PhaseUpdate,

        requires
            previous.wf(),
            self.wf(),
            self.parameters() == previous.parameters(),
            0 <= from <= previous.steps(),
            previous.stepped_since(from, kernels),
            self.same_record(previous, previous.steps() as int),
            self.steps() == previous.steps() || (self.steps() == previous.steps() + 1
                && recorded_step(
                &self.history(),
                self.melt_history(),
                self.vapor_history(),
                previous.steps() as int,
                rule_of(&self.parameters()),
                kernels,
            )),
        ensures
            self.stepped_since(from, kernels),
    {
        assert forall|k: int| from <= k < self.steps() implies #[trigger] recorded_step(
            &self.history(),
            self.melt_history(),
            self.vapor_history(),
            k,
            rule_of(&self.parameters()),
            kernels,
        ) by {
            if k < previous.steps() {
                assert(recorded_step(
                    &previous.history(),
                    previous.melt_history(),
                    previous.vapor_history(),
                    k,
                    rule_of(&previous.parameters()),
                    kernels,
                ));
                recorded_step_carries(
                    (&self.history(), self.melt_history(), self.vapor_history()),
                    (&previous.history(), previous.melt_history(), previous.vapor_history()),
                    k,
                    rule_of(&self.parameters()),
                    kernels,
                );
            }
        }
    }

    /// The number of steps taken so far.
    pub fn current_step(&self) -> (n: usize)
        ensures
            n == self.steps(),
    {
        self.steps_done
    }

    /// The progress of the run, or `None` for a run of no steps.
    pub fn progress(&self) -> (r: Option<Progress>)
        requires
            self.wf(),
        ensures
            r == if self.parameters().time_steps == 0 {
                None
            } else {
                Some(
                    Progress {
                        completed: self.steps() as usize,
                        total: self.parameters().time_steps,
                    },
                )
            },
    {
        Progress::of(self.steps_done, self.params.time_steps)
    }

    /// The parameters that the solver was made from.
    pub fn get_parameters(&self) -> (p: &SimulationParameters)
        ensures
            *p == self.parameters(),
    {
        &self.params
    }

    /// The temperature field after the last step.
    pub fn get_temperature(&self) -> (field: &Field2)
        ensures
            *field == self.field(),
    {
        &self.temperature
    }

    /// The temperature history: plane `0` is the initial condition and plane
    /// `k` the field after `k` steps.
    pub fn get_temperature_history(&self) -> (history: &Field3)
        ensures
            *history == self.history(),
    {
        &self.temperature_history
    }

    /// Latent energy absorbed so far, in joules.
    pub fn get_phase_change_energy(&self) -> (energy: Scalar)
        ensures
            energy == self.absorbed(),
    {
        self.total_phase_change_energy
    }

    /// The temperature field after `step` steps, unless that step has not
    /// been taken yet.
    pub fn get_temperature_at_step(&self, step: usize) -> (r: Result<Field2, SolverError>)
        requires
            self.wf(),
        ensures
            r is Ok <==> step <= self.steps(),
            r matches Ok(field) ==> self.history().plane_is(step as int, &field),
            r matches Err(e) ==> e == (SolverError::StepUnavailable {
                step,
                available: self.steps() as usize,
            }),
    {
        if step > self.steps_done {
            return Err(SolverError::StepUnavailable { step, available: self.steps_done });
        }
        Ok(self.temperature_history.plane(step))
    }
}

} // verus!
