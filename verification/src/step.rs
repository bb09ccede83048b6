//! What one step makes of the fields, and what a history of steps is.
//!
//! The solver never says what a temperature is: that is for the kernels.
//! It says how the fields of one moment follow from those of the moment
//! before ([`one_step`]), when a step fails ([`step_fails`]), that every
//! plane of a history follows from the plane before it ([`stepwise`]), and
//! that a history is the trace of a chain of steps ([`traced`]).  With
//! kernels that have one answer for every argument such a trace is the
//! only one ([`traces_agree`]).

use vstd::prelude::*;
use crate::field::{Field2, Field3};
use crate::kernels::{all_finite, flat_field_stays_flat, keeps_flat, sources_of, stencil_of, stepped_from, CellStencil, HeatSources, Kernels, PhaseCell, PhaseTransition, PhaseUpdate};
use crate::mesh::gas_exposed;
use crate::params::SimulationParameters;
use crate::phase::{single_valued, sweeps_agree, Sweep};
use crate::results::{tracks_phases, PhaseChangeInfo, SimulationResults};
use crate::scalar::Scalar;

verus! {

/// The fields of one moment: the temperature, the latent energy absorbed
/// so far and, where phases are followed, the melt and the vapor fraction.
pub struct Planes {
    pub temperature: Field2,
    pub melt: Option<Field2>,
    pub vapor: Option<Field2>,
    pub absorbed: Scalar,
}

/// What a step reads of a parameter set.
pub struct StepRule {
    pub nr: usize,
    pub nz: usize,
    pub enable_radiation: bool,
    pub enable_convection: bool,
    pub ambient: Scalar,
    /// Phase fractions are followed.
    pub follows_phases: bool,
    /// Melting point and latent heat of fusion, where the material has
    /// both.
    pub melting: Option<(Scalar, Scalar)>,
    /// Vaporization point and latent heat of vaporization, where the
    /// material has both.
    pub vaporizing: Option<(Scalar, Scalar)>,
    /// The material has a melting point, so that a cell vaporizes only once
    /// it has melted.
    pub melts_first: bool,
}

/// What a step reads of the parameter set `p`.
pub open spec fn rule_of(p: &SimulationParameters) -> StepRule {
    StepRule {
        nr: p.nr,
        nz: p.nz,
        enable_radiation: p.enable_radiation,
        enable_convection: p.enable_convection,
        ambient: p.ambient_temperature,
        follows_phases: tracks_phases(p),
        melting: if p.material.melts() {
            Some((p.material.melting_point.unwrap(), p.material.latent_heat_fusion.unwrap()))
        } else {
            None
        },
        vaporizing: if p.material.vaporizes() {
            Some(
                (
                    p.material.vaporization_point.unwrap(),
                    p.material.latent_heat_vaporization.unwrap(),
                ),
            )
        } else {
            None
        },
        melts_first: p.material.melting_point is Some,
    }
}

/// The melting sweep from the fractions, the temperature and the absorbed
/// energy before it.
pub open spec fn melting_sweep<'a>(
    fractions_after: &'a Field2,
    fractions_before: &'a Field2,
    temperature_after: &'a Field2,
    temperature_before: &'a Field2,
    absorbed: Scalar,
    rule: StepRule,
) -> Sweep<'a> {
    Sweep {
        fractions_before,
        fractions_after,
        temperature_before,
        temperature_after,
        prior: None,
        transition: PhaseTransition::Melting,
        point: rule.melting.unwrap().0,
        latent_heat: rule.melting.unwrap().1,
        absorbed,
    }
}

/// The field that holds vaporization back: the melt fraction where the
/// material has a melting point, and none where it has not.
pub open spec fn vapor_prior<'a>(melt: &'a Field2, rule: StepRule) -> Option<&'a Field2> {
    if rule.melts_first {
        Some(melt)
    } else {
        None
    }
}

/// The vaporization sweep from the fractions, the temperature and the
/// absorbed energy before it, held back by the melt fraction `melt`.
pub open spec fn vaporization_sweep<'a>(
    fractions_after: &'a Field2,
    fractions_before: &'a Field2,
    temperature_after: &'a Field2,
    temperature_before: &'a Field2,
    melt: &'a Field2,
    absorbed: Scalar,
    rule: StepRule,
) -> Sweep<'a> {
    Sweep {
        fractions_before,
        fractions_after,
        temperature_before,
        temperature_after,
        prior: vapor_prior(melt, rule),
        transition: PhaseTransition::Vaporization,
        point: rule.vaporizing.unwrap().0,
        latent_heat: rule.vaporizing.unwrap().1,
        absorbed,
    }
}

/// The melt fraction, the temperature and the absorbed energy after the
/// melting sweep are settled against what they were: cell by cell when the
/// material melts, and unchanged otherwise.
pub open spec fn melt_stage<P>(
    fractions_after: &Field2,
    fractions_before: &Field2,
    temperature_after: &Field2,
    temperature_before: &Field2,
    absorbed_after: Scalar,
    absorbed_before: Scalar,
    rule: StepRule,
    phase: P,
) -> bool where P: Fn(PhaseCell) -> PhaseUpdate {
    if rule.melting is Some {
        melting_sweep(
            fractions_after,
            fractions_before,
            temperature_after,
            temperature_before,
            absorbed_before,
            rule,
        ).finished(phase, absorbed_after)
    } else {
        &&& fractions_after == fractions_before
        &&& temperature_after == temperature_before
        &&& absorbed_after == absorbed_before
    }
}

/// The vapor fraction, the temperature and the absorbed energy after the
/// vaporization sweep are settled against what they were: cell by cell
/// when the material vaporizes, and unchanged otherwise.
pub open spec fn vapor_stage<P>(
    fractions_after: &Field2,
    fractions_before: &Field2,
    temperature_after: &Field2,
    temperature_before: &Field2,
    melt: &Field2,
    absorbed_after: Scalar,
    absorbed_before: Scalar,
    rule: StepRule,
    phase: P,
) -> bool where P: Fn(PhaseCell) -> PhaseUpdate {
    if rule.vaporizing is Some {
        vaporization_sweep(
            fractions_after,
            fractions_before,
            temperature_after,
            temperature_before,
            melt,
            absorbed_before,
            rule,
        ).finished(phase, absorbed_after)
    } else {
        &&& fractions_after == fractions_before
        &&& temperature_after == temperature_before
        &&& absorbed_after == absorbed_before
    }
}

/// The phase fractions, the temperature and the absorbed energy of `after`
/// are those of `before` with the temperature `stepped`, after the melting
/// sweep and then the vaporization sweep.
pub open spec fn phases_settled<P>(
    after: &Planes,
    before: &Planes,
    stepped: &Field2,
    rule: StepRule,
    phase: P,
) -> bool where P: Fn(PhaseCell) -> PhaseUpdate {
    &&& before.melt is Some
    &&& before.vapor is Some
    &&& after.melt is Some
    &&& after.vapor is Some
    &&& exists|mid: Field2, absorbed: Scalar|
        {
            &&& #[trigger] melt_stage(
                &after.melt.unwrap(),
                &before.melt.unwrap(),
                &mid,
                stepped,
                absorbed,
                before.absorbed,
                rule,
                phase,
            )
            &&& vapor_stage(
                &after.vapor.unwrap(),
                &before.vapor.unwrap(),
                &after.temperature,
                &mid,
                &after.melt.unwrap(),
                after.absorbed,
                absorbed,
                rule,
                phase,
            )
        }
}

/// The melting sweep from the fractions of `before` and the temperature
/// `stepped` stops at a cell for which the phase kernel gives an answer
/// that is not admissible.
pub open spec fn melting_refused<P>(before: &Planes, stepped: &Field2, rule: StepRule, phase: P) -> bool where
    P: Fn(PhaseCell) -> PhaseUpdate,
 {
    &&& rule.melting is Some
    &&& before.melt is Some
    &&& exists|fractions: Field2, temperature: Field2, i: int, j: int|
        #[trigger] melting_sweep(
            &fractions,
            &before.melt.unwrap(),
            &temperature,
            stepped,
            before.absorbed,
            rule,
        ).refused_at(phase, i, j)
}

/// The melting sweep from the fractions of `before` and the temperature
/// `stepped` goes through, and the vaporization sweep after it stops at a
/// cell for which the phase kernel gives an answer that is not admissible.
pub open spec fn vaporization_refused<P>(
    before: &Planes,
    stepped: &Field2,
    rule: StepRule,
    phase: P,
) -> bool where P: Fn(PhaseCell) -> PhaseUpdate {
    &&& rule.vaporizing is Some
    &&& before.melt is Some
    &&& before.vapor is Some
    &&& exists|melt: Field2, mid: Field2, absorbed: Scalar|
        {
            &&& #[trigger] melt_stage(
                &melt,
                &before.melt.unwrap(),
                &mid,
                stepped,
                absorbed,
                before.absorbed,
                rule,
                phase,
            )
            &&& exists|fractions: Field2, temperature: Field2, i: int, j: int|
                #[trigger] vaporization_sweep(
                    &fractions,
                    &before.vapor.unwrap(),
                    &temperature,
                    &mid,
                    &melt,
                    absorbed,
                    rule,
                ).refused_at(phase, i, j)
        }
}

/// One of the two sweeps from the fractions of `before` and the
/// temperature `stepped` is refused.
pub open spec fn phases_refused<P>(before: &Planes, stepped: &Field2, rule: StepRule, phase: P) -> bool where
    P: Fn(PhaseCell) -> PhaseUpdate,
 {
    melting_refused(before, stepped, rule, phase) || vaporization_refused(
        before,
        stepped,
        rule,
        phase,
    )
}

/// The field `stepped` is what the conduction kernel gives, node for node,
/// for the temperature of `before` and source fields of it.
pub open spec fn conducted<R, C, K, P>(
    stepped: &Field2,
    sources: &HeatSources,
    before: &Planes,
    rule: StepRule,
    kernels: &Kernels<R, C, K, P>,
) -> bool where
    R: Fn(usize, usize, Scalar) -> Scalar,
    C: Fn(usize, usize, Scalar) -> Scalar,
    K: Fn(CellStencil) -> Scalar,
    P: Fn(PhaseCell) -> PhaseUpdate,
 {
    &&& sources_of(
        sources,
        &before.temperature,
        rule.nr as int,
        rule.nz as int,
        rule.enable_radiation,
        rule.enable_convection,
        kernels.radiation,
        kernels.convection,
    )
    &&& stepped_from(stepped, &before.temperature, sources, rule.ambient, kernels.conduction)
}

/// Where phases are not followed, the fractions and the absorbed energy of
/// `after` are those of `before`.
pub open spec fn unfollowed(after: &Planes, before: &Planes) -> bool {
    &&& after.melt == before.melt
    &&& after.vapor == before.vapor
    &&& after.absorbed == before.absorbed
}

/// The fields `after` are one step on from the fields `before`.
///
/// There are source fields of the temperature before the step from which
/// the conduction kernel gives a field of finite temperatures, node for
/// node.  Where phases are not followed that field is the temperature
/// after the step, and the absorbed energy is what it was; where they are,
/// the melting sweep and then the vaporization sweep lead from it and the
/// fractions and energy before the step to the temperature, the fractions
/// and the energy after it.
pub open spec fn one_step<R, C, K, P>(
    after: &Planes,
    before: &Planes,
    rule: StepRule,
    kernels: &Kernels<R, C, K, P>,
) -> bool where
    R: Fn(usize, usize, Scalar) -> Scalar,
    C: Fn(usize, usize, Scalar) -> Scalar,
    K: Fn(CellStencil) -> Scalar,
    P: Fn(PhaseCell) -> PhaseUpdate,
 {
    exists|sources: HeatSources, stepped: Field2|
        {
            &&& #[trigger] conducted(&stepped, &sources, before, rule, kernels)
            &&& all_finite(&stepped)
            &&& if rule.follows_phases {
                phases_settled(after, before, &stepped, rule, kernels.phase)
            } else {
                after.temperature == stepped && unfollowed(after, before)
            }
        }
}

/// The step from the fields `before` fails: there are source fields of the
/// temperature from which the conduction kernel gives a field with a value
/// that is not finite, or a field from which one of the two phase sweeps is
/// refused.
pub open spec fn step_fails<R, C, K, P>(
    before: &Planes,
    rule: StepRule,
    kernels: &Kernels<R, C, K, P>,
) -> bool where
    R: Fn(usize, usize, Scalar) -> Scalar,
    C: Fn(usize, usize, Scalar) -> Scalar,
    K: Fn(CellStencil) -> Scalar,
    P: Fn(PhaseCell) -> PhaseUpdate,
 {
    exists|sources: HeatSources, stepped: Field2|
        {
            &&& #[trigger] conducted(&stepped, &sources, before, rule, kernels)
            &&& {
                ||| !all_finite(&stepped)
                ||| rule.follows_phases && phases_refused(before, &stepped, rule, kernels.phase)
            }
        }
}

impl Planes {
    /// The fields of `other` hold what the fields of `self` hold, and the
    /// same energy is absorbed.
    pub open spec fn held_by(&self, other: &Planes) -> bool {
        &&& other.temperature.agrees(&self.temperature)
        &&& other.melt is Some <==> self.melt is Some
        &&& other.vapor is Some <==> self.vapor is Some
        &&& other.melt is Some ==> other.melt.unwrap().agrees(&self.melt.unwrap())
        &&& other.vapor is Some ==> other.vapor.unwrap().agrees(&self.vapor.unwrap())
        &&& other.absorbed == self.absorbed
    }
}

/// The step from fields that hold what `planes` hold fails.
pub open spec fn step_fails_at<R, C, K, P>(
    planes: &Planes,
    rule: StepRule,
    kernels: &Kernels<R, C, K, P>,
) -> bool where
    R: Fn(usize, usize, Scalar) -> Scalar,
    C: Fn(usize, usize, Scalar) -> Scalar,
    K: Fn(CellStencil) -> Scalar,
    P: Fn(PhaseCell) -> PhaseUpdate,
 {
    exists|before: Planes| #[trigger] before.held_by(planes) && step_fails(&before, rule, kernels)
}

/// With kernels that have one answer for every argument, the conduction
/// kernel gives fields that hold the same for temperatures that hold the
/// same.
pub proof fn conduction_is_single_valued<R, C, K, P>(
    stepped: (&Field2, &Field2),
    sources: (&HeatSources, &HeatSources),
    before: (&Planes, &Planes),
    rule: StepRule,
    kernels: &Kernels<R, C, K, P>,
) where
    R: Fn(usize, usize, Scalar) -> Scalar,
    C: Fn(usize, usize, Scalar) -> Scalar,
    K: Fn(CellStencil) -> Scalar,
    P: Fn(PhaseCell) -> PhaseUpdate,

    requires
        kernels.single_valued(),
        rule.nr >= 2,
        rule.nz >= 2,
        before.0.temperature.rows() == rule.nr,
        before.0.temperature.cols() == rule.nz,
        before.0.temperature.agrees(&before.1.temperature),
        conducted(stepped.0, sources.0, before.0, rule, kernels),
        conducted(stepped.1, sources.1, before.1, rule, kernels),
    ensures
        stepped.0.agrees(stepped.1),
{
    let t0 = before.0.temperature;
    let t1 = before.1.temperature;
    assert forall|i: int, j: int| 0 <= i < rule.nr && 0 <= j < rule.nz implies {
        &&& sources.0.radiation.at(i, j) == sources.1.radiation.at(i, j)
        &&& sources.0.convection.at(i, j) == sources.1.convection.at(i, j)
        &&& #[trigger] t0.at(i, j) == t1.at(i, j)
    } by {
        assert(t0.at(i, j) == t1.at(i, j));
        let a = sources.0.radiation.at(i, j);
        let b = sources.1.radiation.at(i, j);
        if rule.enable_radiation {
            assert(call_ensures(kernels.radiation, (i as usize, j as usize, t0.at(i, j)), a));
            assert(call_ensures(kernels.radiation, (i as usize, j as usize, t0.at(i, j)), b));
        }
        let c = sources.0.convection.at(i, j);
        let d = sources.1.convection.at(i, j);
        if rule.enable_convection && gas_exposed(i, j, rule.nr as int, rule.nz as int) {
            assert(call_ensures(kernels.convection, (i as usize, j as usize, t0.at(i, j)), c));
            assert(call_ensures(kernels.convection, (i as usize, j as usize, t0.at(i, j)), d));
        }
    }
    assert forall|i: int, j: int|
        0 <= i < stepped.0.rows() && 0 <= j < stepped.0.cols() implies #[trigger] stepped.0.at(i, j)
        == stepped.1.at(i, j) by {
        assert(t0.at(i, j) == t1.at(i, j));
        if i == 0 {
            assert(t0.at(1, j) == t1.at(1, j));
        } else {
            assert(t0.at(i - 1, j) == t1.at(i - 1, j));
        }
        if i < rule.nr - 1 {
            assert(t0.at(i + 1, j) == t1.at(i + 1, j));
        }
        if j > 0 {
            assert(t0.at(i, j - 1) == t1.at(i, j - 1));
        }
        if j < rule.nz - 1 {
            assert(t0.at(i, j + 1) == t1.at(i, j + 1));
        }
        let one = stencil_of(&t0, sources.0, rule.ambient, i, j);
        let other = stencil_of(&t1, sources.1, rule.ambient, i, j);
        assert(one == other);
        assert(call_ensures(kernels.conduction, (one,), stepped.0.at(i, j)));
        assert(call_ensures(kernels.conduction, (other,), stepped.1.at(i, j)));
    }
}

/// With a phase kernel that has one answer for every cell, the two sweeps
/// lead from fractions, temperatures and energy that are the same to
/// fractions, temperatures and energy that are the same.
pub proof fn phases_are_single_valued<P>(
    after: (&Planes, &Planes),
    before: (&Planes, &Planes),
    stepped: (&Field2, &Field2),
    rule: StepRule,
    phase: P,
) where P: Fn(PhaseCell) -> PhaseUpdate
    requires
        single_valued(phase),
        before.0.held_by(before.1),
        stepped.0.agrees(stepped.1),
        phases_settled(after.0, before.0, stepped.0, rule, phase),
        phases_settled(after.1, before.1, stepped.1, rule, phase),
    ensures
        after.1.held_by(after.0),
{
    let (mid0, e0) = choose|mid: Field2, absorbed: Scalar|
        {
            &&& #[trigger] melt_stage(
                &after.0.melt.unwrap(),
                &before.0.melt.unwrap(),
                &mid,
                stepped.0,
                absorbed,
                before.0.absorbed,
                rule,
                phase,
            )
            &&& vapor_stage(
                &after.0.vapor.unwrap(),
                &before.0.vapor.unwrap(),
                &after.0.temperature,
                &mid,
                &after.0.melt.unwrap(),
                after.0.absorbed,
                absorbed,
                rule,
                phase,
            )
        };
    let (mid1, e1) = choose|mid: Field2, absorbed: Scalar|
        {
            &&& #[trigger] melt_stage(
                &after.1.melt.unwrap(),
                &before.1.melt.unwrap(),
                &mid,
                stepped.1,
                absorbed,
                before.1.absorbed,
                rule,
                phase,
            )
            &&& vapor_stage(
                &after.1.vapor.unwrap(),
                &before.1.vapor.unwrap(),
                &after.1.temperature,
                &mid,
                &after.1.melt.unwrap(),
                after.1.absorbed,
                absorbed,
                rule,
                phase,
            )
        };
    let m0 = after.0.melt.unwrap();
    let m1 = after.1.melt.unwrap();
    let mb0 = before.0.melt.unwrap();
    let mb1 = before.1.melt.unwrap();
    swap_agreement(&mb1, &mb0);
    if rule.melting is Some {
        sweeps_agree(
            melting_sweep(&m0, &mb0, &mid0, stepped.0, before.0.absorbed, rule),
            melting_sweep(&m1, &mb1, &mid1, stepped.1, before.1.absorbed, rule),
            phase,
            e0,
            e1,
        );
    }
    assert(m0.agrees(&m1));
    assert(mid0.agrees(&mid1));
    assert(e0 == e1);
    let v0 = after.0.vapor.unwrap();
    let v1 = after.1.vapor.unwrap();
    let vb0 = before.0.vapor.unwrap();
    let vb1 = before.1.vapor.unwrap();
    swap_agreement(&vb1, &vb0);
    if rule.vaporizing is Some {
        sweeps_agree(
            vaporization_sweep(&v0, &vb0, &after.0.temperature, &mid0, &m0, e0, rule),
            vaporization_sweep(&v1, &vb1, &after.1.temperature, &mid1, &m1, e1, rule),
            phase,
            after.0.absorbed,
            after.1.absorbed,
        );
    }
    assert(v0.agrees(&v1));
    assert(after.0.temperature.agrees(&after.1.temperature));
}

/// Fields that hold the same hold the same whichever is named first.
pub proof fn swap_agreement(one: &Field2, other: &Field2)
    requires
        one.agrees(other),
    ensures
        other.agrees(one),
{
    assert forall|i: int, j: int|
        0 <= i < other.rows() && 0 <= j < other.cols() implies #[trigger] other.at(i, j) == one.at(
        i,
        j,
    ) by {
        assert(one.at(i, j) == other.at(i, j));
    }
}

/// A step computes one thing: with kernels that have one answer for every
/// argument, the fields one step on from fields that hold the same hold
/// the same, whenever and however often the step is taken.
pub proof fn step_is_single_valued<R, C, K, P>(
    after: (&Planes, &Planes),
    before: (&Planes, &Planes),
    rule: StepRule,
    kernels: &Kernels<R, C, K, P>,
) where
    R: Fn(usize, usize, Scalar) -> Scalar,
    C: Fn(usize, usize, Scalar) -> Scalar,
    K: Fn(CellStencil) -> Scalar,
    P: Fn(PhaseCell) -> PhaseUpdate,

    requires
        kernels.single_valued(),
        rule.nr >= 2,
        rule.nz >= 2,
        before.0.temperature.rows() == rule.nr,
        before.0.temperature.cols() == rule.nz,
        before.0.held_by(before.1),
        one_step(after.0, before.0, rule, kernels),
        one_step(after.1, before.1, rule, kernels),
    ensures
        after.1.held_by(after.0),
{
    let (sources0, stepped0) = choose|sources: HeatSources, stepped: Field2|
        {
            &&& #[trigger] conducted(&stepped, &sources, before.0, rule, kernels)
            &&& all_finite(&stepped)
            &&& if rule.follows_phases {
                phases_settled(after.0, before.0, &stepped, rule, kernels.phase)
            } else {
                after.0.temperature == stepped && unfollowed(after.0, before.0)
            }
        };
    let (sources1, stepped1) = choose|sources: HeatSources, stepped: Field2|
        {
            &&& #[trigger] conducted(&stepped, &sources, before.1, rule, kernels)
            &&& all_finite(&stepped)
            &&& if rule.follows_phases {
                phases_settled(after.1, before.1, &stepped, rule, kernels.phase)
            } else {
                after.1.temperature == stepped && unfollowed(after.1, before.1)
            }
        };
    swap_agreement(&before.1.temperature, &before.0.temperature);
    conduction_is_single_valued(
        (&stepped0, &stepped1),
        (&sources0, &sources1),
        before,
        rule,
        kernels,
    );
    if rule.follows_phases {
        phases_are_single_valued(after, before, (&stepped0, &stepped1), rule, kernels.phase);
    } else {
        if before.0.melt is Some {
            swap_agreement(&before.1.melt.unwrap(), &before.0.melt.unwrap());
        }
        if before.0.vapor is Some {
            swap_agreement(&before.1.vapor.unwrap(), &before.0.vapor.unwrap());
        }
    }
}

/// The fields `end` are `steps` steps on from the fields `start`: each
/// step leads from the fields, fractions and absorbed energy that the step
/// before it has left.
pub open spec fn chained<R, C, K, P>(
    end: &Planes,
    start: &Planes,
    steps: nat,
    rule: StepRule,
    kernels: &Kernels<R, C, K, P>,
) -> bool where
    R: Fn(usize, usize, Scalar) -> Scalar,
    C: Fn(usize, usize, Scalar) -> Scalar,
    K: Fn(CellStencil) -> Scalar,
    P: Fn(PhaseCell) -> PhaseUpdate,

    decreases steps,
{
    if steps == 0 {
        end == start
    } else {
        exists|mid: Planes|
            #[trigger] one_step(end, &mid, rule, kernels) && chained(
                &mid,
                start,
                (steps - 1) as nat,
                rule,
                kernels,
            )
    }
}

/// The fields `planes` hold what fields hold that are `steps` steps on from
/// the fields `start`.
pub open spec fn reached<R, C, K, P>(
    planes: &Planes,
    start: &Planes,
    steps: nat,
    rule: StepRule,
    kernels: &Kernels<R, C, K, P>,
) -> bool where
    R: Fn(usize, usize, Scalar) -> Scalar,
    C: Fn(usize, usize, Scalar) -> Scalar,
    K: Fn(CellStencil) -> Scalar,
    P: Fn(PhaseCell) -> PhaseUpdate,
 {
    exists|end: Planes| #[trigger] end.held_by(planes) && chained(&end, start, steps, rule, kernels)
}

/// Fields that hold what others hold are held by them in turn.
pub proof fn held_both_ways(one: &Planes, other: &Planes)
    requires
        one.held_by(other),
    ensures
        other.held_by(one),
{
    swap_agreement(&other.temperature, &one.temperature);
    if one.melt is Some {
        swap_agreement(&other.melt.unwrap(), &one.melt.unwrap());
    }
    if one.vapor is Some {
        swap_agreement(&other.vapor.unwrap(), &one.vapor.unwrap());
    }
}

/// What is held by fields that are held by a third is held by the third.
pub proof fn held_through(one: &Planes, between: &Planes, other: &Planes)
    requires
        one.held_by(between),
        between.held_by(other),
    ensures
        one.held_by(other),
{
    assert forall|i: int, j: int|
        0 <= i < other.temperature.rows() && 0 <= j < other.temperature.cols() implies #[trigger] other.temperature.at(
        i,
        j,
    ) == one.temperature.at(i, j) by {
        assert(between.temperature.at(i, j) == one.temperature.at(i, j));
    }
    if one.melt is Some {
        let (a, b, c) = (one.melt.unwrap(), between.melt.unwrap(), other.melt.unwrap());
        assert forall|i: int, j: int| 0 <= i < c.rows() && 0 <= j < c.cols() implies #[trigger] c.at(
            i,
            j,
        ) == a.at(i, j) by {
            assert(b.at(i, j) == a.at(i, j));
        }
    }
    if one.vapor is Some {
        let (a, b, c) = (one.vapor.unwrap(), between.vapor.unwrap(), other.vapor.unwrap());
        assert forall|i: int, j: int| 0 <= i < c.rows() && 0 <= j < c.cols() implies #[trigger] c.at(
            i,
            j,
        ) == a.at(i, j) by {
            assert(b.at(i, j) == a.at(i, j));
        }
    }
}

/// A step leaves the temperature field its shape.
pub proof fn step_keeps_the_shape<R, C, K, P>(
    after: &Planes,
    before: &Planes,
    rule: StepRule,
    kernels: &Kernels<R, C, K, P>,
) where
    R: Fn(usize, usize, Scalar) -> Scalar,
    C: Fn(usize, usize, Scalar) -> Scalar,
    K: Fn(CellStencil) -> Scalar,
    P: Fn(PhaseCell) -> PhaseUpdate,

    requires
        one_step(after, before, rule, kernels),
    ensures
        after.temperature.rows() == before.temperature.rows(),
        after.temperature.cols() == before.temperature.cols(),
{
    let (sources, stepped) = choose|sources: HeatSources, stepped: Field2|
        {
            &&& #[trigger] conducted(&stepped, &sources, before, rule, kernels)
            &&& all_finite(&stepped)
            &&& if rule.follows_phases {
                phases_settled(after, before, &stepped, rule, kernels.phase)
            } else {
                after.temperature == stepped && unfollowed(after, before)
            }
        };
    if rule.follows_phases {
        let (mid, absorbed) = choose|mid: Field2, absorbed: Scalar|
            {
                &&& #[trigger] melt_stage(
                    &after.melt.unwrap(),
                    &before.melt.unwrap(),
                    &mid,
                    &stepped,
                    absorbed,
                    before.absorbed,
                    rule,
                    kernels.phase,
                )
                &&& vapor_stage(
                    &after.vapor.unwrap(),
                    &before.vapor.unwrap(),
                    &after.temperature,
                    &mid,
                    &after.melt.unwrap(),
                    after.absorbed,
                    absorbed,
                    rule,
                    kernels.phase,
                )
            };
        assert(mid.rows() == stepped.rows() && mid.cols() == stepped.cols());
        assert(after.temperature.rows() == mid.rows() && after.temperature.cols() == mid.cols());
    }
}

/// A run computes one thing: with kernels that have one answer for every
/// argument, two chains of as many steps from fields that hold the same
/// end in fields that hold the same, phase fractions and absorbed energy
/// included, whenever the steps were taken and whatever happened between
/// them.
pub proof fn chains_agree<R, C, K, P>(
    end: (&Planes, &Planes),
    start: (&Planes, &Planes),
    steps: nat,
    rule: StepRule,
    kernels: &Kernels<R, C, K, P>,
) where
    R: Fn(usize, usize, Scalar) -> Scalar,
    C: Fn(usize, usize, Scalar) -> Scalar,
    K: Fn(CellStencil) -> Scalar,
    P: Fn(PhaseCell) -> PhaseUpdate,

    requires
        kernels.single_valued(),
        rule.nr >= 2,
        rule.nz >= 2,
        start.0.temperature.rows() == rule.nr,
        start.0.temperature.cols() == rule.nz,
        start.0.held_by(start.1),
        chained(end.0, start.0, steps, rule, kernels),
        chained(end.1, start.1, steps, rule, kernels),
    ensures
        end.0.held_by(end.1),
        end.0.temperature.rows() == rule.nr,
        end.0.temperature.cols() == rule.nz,
    decreases steps,
{
    if steps > 0 {
        let mid0 = choose|mid: Planes|
            #[trigger] one_step(end.0, &mid, rule, kernels) && chained(
                &mid,
                start.0,
                (steps - 1) as nat,
                rule,
                kernels,
            );
        let mid1 = choose|mid: Planes|
            #[trigger] one_step(end.1, &mid, rule, kernels) && chained(
                &mid,
                start.1,
                (steps - 1) as nat,
                rule,
                kernels,
            );
        chains_agree((&mid0, &mid1), start, (steps - 1) as nat, rule, kernels);
        step_is_single_valued(end, (&mid0, &mid1), rule, kernels);
        held_both_ways(end.1, end.0);
        step_keeps_the_shape(end.0, &mid0, rule, kernels);
    }
}

/// The same of fields that hold what the ends of two such chains hold: two
/// solvers that have taken as many steps from the same start hold the
/// same, however the one was held up and the other was not.
pub proof fn reached_fields_agree<R, C, K, P>(
    held: (&Planes, &Planes),
    start: (&Planes, &Planes),
    steps: nat,
    rule: StepRule,
    kernels: &Kernels<R, C, K, P>,
) where
    R: Fn(usize, usize, Scalar) -> Scalar,
    C: Fn(usize, usize, Scalar) -> Scalar,
    K: Fn(CellStencil) -> Scalar,
    P: Fn(PhaseCell) -> PhaseUpdate,

    requires
        kernels.single_valued(),
        rule.nr >= 2,
        rule.nz >= 2,
        start.0.temperature.rows() == rule.nr,
        start.0.temperature.cols() == rule.nz,
        start.0.held_by(start.1),
        reached(held.0, start.0, steps, rule, kernels),
        reached(held.1, start.1, steps, rule, kernels),
    ensures
        held.0.held_by(held.1),
{
    let end0 = choose|end: Planes| #[trigger]
        end.held_by(held.0) && chained(&end, start.0, steps, rule, kernels);
    let end1 = choose|end: Planes| #[trigger]
        end.held_by(held.1) && chained(&end, start.1, steps, rule, kernels);
    chains_agree((&end0, &end1), start, steps, rule, kernels);
    held_both_ways(&end0, held.0);
    held_through(held.0, &end0, &end1);
    held_through(held.0, &end1, held.1);
}

/// The planes `k` of the three histories hold the fields `planes`.
pub open spec fn planes_at(
    temperature: &Field3,
    melt: Option<Field3>,
    vapor: Option<Field3>,
    k: int,
    planes: &Planes,
) -> bool {
    &&& temperature.plane_is(k, &planes.temperature)
    &&& melt is Some <==> planes.melt is Some
    &&& vapor is Some <==> planes.vapor is Some
    &&& melt is Some ==> melt.unwrap().plane_is(k, &planes.melt.unwrap())
    &&& vapor is Some ==> vapor.unwrap().plane_is(k, &planes.vapor.unwrap())
}

/// The planes `k + 1` of the three histories are one step on from their
/// planes `k`, for some absorbed energy before the step and some after it.
pub open spec fn recorded_step<R, C, K, P>(
    temperature: &Field3,
    melt: Option<Field3>,
    vapor: Option<Field3>,
    k: int,
    rule: StepRule,
    kernels: &Kernels<R, C, K, P>,
) -> bool where
    R: Fn(usize, usize, Scalar) -> Scalar,
    C: Fn(usize, usize, Scalar) -> Scalar,
    K: Fn(CellStencil) -> Scalar,
    P: Fn(PhaseCell) -> PhaseUpdate,
 {
    exists|before: Planes, after: Planes|
        {
            &&& planes_at(temperature, melt, vapor, k, &before)
            &&& planes_at(temperature, melt, vapor, k + 1, &after)
            &&& #[trigger] one_step(&after, &before, rule, kernels)
        }
}

/// From plane `from` to plane `to`, every plane of the three histories is
/// one step on from the plane before it.
pub open spec fn stepwise<R, C, K, P>(
    temperature: &Field3,
    melt: Option<Field3>,
    vapor: Option<Field3>,
    from: int,
    to: int,
    rule: StepRule,
    kernels: &Kernels<R, C, K, P>,
) -> bool where
    R: Fn(usize, usize, Scalar) -> Scalar,
    C: Fn(usize, usize, Scalar) -> Scalar,
    K: Fn(CellStencil) -> Scalar,
    P: Fn(PhaseCell) -> PhaseUpdate,
 {
    forall|k: int|
        from <= k < to ==> #[trigger] recorded_step(temperature, melt, vapor, k, rule, kernels)
}

/// The history `copy` holds in its planes `k` and `k + 1` what the history
/// `source` holds there.
pub open spec fn same_two_planes(copy: &Field3, source: &Field3, k: int) -> bool {
    &&& copy.rows() == source.rows()
    &&& copy.cols() == source.cols()
    &&& forall|i: int, j: int|
        0 <= i < source.rows() && 0 <= j < source.cols() ==> {
            &&& #[trigger] copy.at(i, j, k) == source.at(i, j, k)
            &&& copy.at(i, j, k + 1) == source.at(i, j, k + 1)
        }
}

/// Both histories are absent, or both are present and the one holds in its
/// planes `k` and `k + 1` what the other holds there.
pub open spec fn same_two_planes_if_any(copy: Option<Field3>, source: Option<Field3>, k: int) -> bool {
    match (copy, source) {
        (Some(c), Some(s)) => same_two_planes(&c, &s, k),
        (None, None) => true,
        _ => false,
    }
}

/// A step that is recorded in three histories is recorded in every copy of
/// their planes.
pub proof fn recorded_step_carries<R, C, K, P>(
    copy: (&Field3, Option<Field3>, Option<Field3>),
    source: (&Field3, Option<Field3>, Option<Field3>),
    k: int,
    rule: StepRule,
    kernels: &Kernels<R, C, K, P>,
) where
    R: Fn(usize, usize, Scalar) -> Scalar,
    C: Fn(usize, usize, Scalar) -> Scalar,
    K: Fn(CellStencil) -> Scalar,
    P: Fn(PhaseCell) -> PhaseUpdate,

    requires
        recorded_step(source.0, source.1, source.2, k, rule, kernels),
        same_two_planes(copy.0, source.0, k),
        same_two_planes_if_any(copy.1, source.1, k),
        same_two_planes_if_any(copy.2, source.2, k),
    ensures
        recorded_step(copy.0, copy.1, copy.2, k, rule, kernels),
{
    let (before, after) = choose|before: Planes, after: Planes|
        {
            &&& planes_at(source.0, source.1, source.2, k, &before)
            &&& planes_at(source.0, source.1, source.2, k + 1, &after)
            &&& #[trigger] one_step(&after, &before, rule, kernels)
        };
    assert forall|i: int, j: int|
        0 <= i < copy.0.rows() && 0 <= j < copy.0.cols() implies #[trigger] copy.0.at(i, j, k)
        == before.temperature.at(i, j) by {
        assert(source.0.at(i, j, k) == before.temperature.at(i, j));
    }
    assert forall|i: int, j: int|
        0 <= i < copy.0.rows() && 0 <= j < copy.0.cols() implies #[trigger] copy.0.at(i, j, k + 1)
        == after.temperature.at(i, j) by {
        assert(copy.0.at(i, j, k) == source.0.at(i, j, k));
        assert(source.0.at(i, j, k + 1) == after.temperature.at(i, j));
    }
    if copy.1 is Some {
        let c = copy.1.unwrap();
        let s = source.1.unwrap();
        assert forall|i: int, j: int| 0 <= i < c.rows() && 0 <= j < c.cols() implies #[trigger] c.at(
            i,
            j,
            k,
        ) == before.melt.unwrap().at(i, j) by {
            assert(s.at(i, j, k) == before.melt.unwrap().at(i, j));
        }
        assert forall|i: int, j: int| 0 <= i < c.rows() && 0 <= j < c.cols() implies #[trigger] c.at(
            i,
            j,
            k + 1,
        ) == after.melt.unwrap().at(i, j) by {
            assert(c.at(i, j, k) == s.at(i, j, k));
            assert(s.at(i, j, k + 1) == after.melt.unwrap().at(i, j));
        }
    }
    if copy.2 is Some {
        let c = copy.2.unwrap();
        let s = source.2.unwrap();
        assert forall|i: int, j: int| 0 <= i < c.rows() && 0 <= j < c.cols() implies #[trigger] c.at(
            i,
            j,
            k,
        ) == before.vapor.unwrap().at(i, j) by {
            assert(s.at(i, j, k) == before.vapor.unwrap().at(i, j));
        }
        assert forall|i: int, j: int| 0 <= i < c.rows() && 0 <= j < c.cols() implies #[trigger] c.at(
            i,
            j,
            k + 1,
        ) == after.vapor.unwrap().at(i, j) by {
            assert(c.at(i, j, k) == s.at(i, j, k));
            assert(s.at(i, j, k + 1) == after.vapor.unwrap().at(i, j));
        }
    }
    assert(planes_at(copy.0, copy.1, copy.2, k, &before));
    assert(planes_at(copy.0, copy.1, copy.2, k + 1, &after));
}

/// Where phases are not followed, two histories that start from the same
/// plane and are stepped by the same kernels, each with one answer for
/// every argument, hold the same in every plane: when the steps were
/// taken, and what happened between them, leaves no trace.
pub proof fn histories_agree<R, C, K, P>(
    one: &Field3,
    other: &Field3,
    steps: int,
    rule: StepRule,
    kernels: &Kernels<R, C, K, P>,
    k: int,
) where
    R: Fn(usize, usize, Scalar) -> Scalar,
    C: Fn(usize, usize, Scalar) -> Scalar,
    K: Fn(CellStencil) -> Scalar,
    P: Fn(PhaseCell) -> PhaseUpdate,

    requires
        kernels.single_valued(),
        rule.nr >= 2,
        rule.nz >= 2,
        !rule.follows_phases,
        one.rows() == rule.nr,
        one.cols() == rule.nz,
        other.rows() == rule.nr,
        other.cols() == rule.nz,
        forall|i: int, j: int|
            0 <= i < rule.nr && 0 <= j < rule.nz ==> #[trigger] one.at(i, j, 0) == other.at(i, j, 0),
        stepwise(one, None, None, 0, steps, rule, kernels),
        stepwise(other, None, None, 0, steps, rule, kernels),
        0 <= k <= steps,
    ensures
        forall|i: int, j: int|
            0 <= i < rule.nr && 0 <= j < rule.nz ==> #[trigger] one.at(i, j, k) == other.at(i, j, k),
    decreases k,
{
    if k > 0 {
        histories_agree(one, other, steps, rule, kernels, k - 1);
        assert(recorded_step(one, None, None, k - 1, rule, kernels));
        assert(recorded_step(other, None, None, k - 1, rule, kernels));
        let (before0, after0) = choose|before: Planes, after: Planes|
            {
                &&& planes_at(one, None, None, k - 1, &before)
                &&& planes_at(one, None, None, k - 1 + 1, &after)
                &&& #[trigger] one_step(&after, &before, rule, kernels)
            };
        let (before1, after1) = choose|before: Planes, after: Planes|
            {
                &&& planes_at(other, None, None, k - 1, &before)
                &&& planes_at(other, None, None, k - 1 + 1, &after)
                &&& #[trigger] one_step(&after, &before, rule, kernels)
            };
        let (sources0, stepped0) = choose|sources: HeatSources, stepped: Field2|
            {
                &&& #[trigger] conducted(&stepped, &sources, &before0, rule, kernels)
                &&& all_finite(&stepped)
                &&& if rule.follows_phases {
                    phases_settled(&after0, &before0, &stepped, rule, kernels.phase)
                } else {
                    after0.temperature == stepped && unfollowed(&after0, &before0)
                }
            };
        let (sources1, stepped1) = choose|sources: HeatSources, stepped: Field2|
            {
                &&& #[trigger] conducted(&stepped, &sources, &before1, rule, kernels)
                &&& all_finite(&stepped)
                &&& if rule.follows_phases {
                    phases_settled(&after1, &before1, &stepped, rule, kernels.phase)
                } else {
                    after1.temperature == stepped && unfollowed(&after1, &before1)
                }
            };
        assert forall|i: int, j: int|
            0 <= i < before0.temperature.rows() && 0 <= j < before0.temperature.cols() implies #[trigger] before0.temperature.at(
            i,
            j,
        ) == before1.temperature.at(i, j) by {
            assert(one.at(i, j, k - 1) == before0.temperature.at(i, j));
            assert(other.at(i, j, k - 1) == before1.temperature.at(i, j));
        }
        conduction_is_single_valued(
            (&stepped0, &stepped1),
            (&sources0, &sources1),
            (&before0, &before1),
            rule,
            kernels,
        );
        assert forall|i: int, j: int| 0 <= i < rule.nr && 0 <= j < rule.nz implies #[trigger] one.at(
            i,
            j,
            k,
        ) == other.at(i, j, k) by {
            assert(one.at(i, j, k) == after0.temperature.at(i, j));
            assert(other.at(i, j, k) == after1.temperature.at(i, j));
            assert(stepped0.at(i, j) == stepped1.at(i, j));
        }
    }
}

/// From a field that is flat at the ambient temperature, without sources,
/// the conduction kernel gives the same field, provided that it leaves a
/// node alone whose surroundings are as warm as it is.
pub proof fn flat_field_is_conducted_flat<R, C, K, P>(
    stepped: &Field2,
    sources: &HeatSources,
    before: &Planes,
    rule: StepRule,
    kernels: &Kernels<R, C, K, P>,
) where
    R: Fn(usize, usize, Scalar) -> Scalar,
    C: Fn(usize, usize, Scalar) -> Scalar,
    K: Fn(CellStencil) -> Scalar,
    P: Fn(PhaseCell) -> PhaseUpdate,

    requires
        rule.nr >= 2,
        rule.nz >= 2,
        before.temperature.rows() == rule.nr,
        before.temperature.cols() == rule.nz,
        !rule.enable_radiation,
        !rule.enable_convection,
        before.temperature.uniform(rule.ambient),
        keeps_flat(kernels.conduction, rule.ambient),
        conducted(stepped, sources, before, rule, kernels),
    ensures
        stepped.rows() == rule.nr,
        stepped.cols() == rule.nz,
        stepped.uniform(rule.ambient),
{
    assert forall|i: int, j: int|
        0 <= i < sources.radiation.rows() && 0 <= j < sources.radiation.cols() implies #[trigger] sources.radiation.at(
        i,
        j,
    ) == (Scalar { bits: 0 }) by {
        assert(sources.radiation.at(i, j).bits == 0);
    }
    assert forall|i: int, j: int|
        0 <= i < sources.convection.rows() && 0 <= j < sources.convection.cols() implies #[trigger] sources.convection.at(
        i,
        j,
    ) == (Scalar { bits: 0 }) by {
        assert(sources.convection.at(i, j).bits == 0);
    }
    flat_field_stays_flat(stepped, &before.temperature, sources, kernels.conduction, rule.ambient);
}

/// Without sources and without phase changes, a field that is flat at the
/// ambient temperature is the same field one step on, provided that the
/// conduction kernel leaves a node alone whose surroundings are as warm as
/// it is.
pub proof fn conserved_without_sources<R, C, K, P>(
    after: &Planes,
    before: &Planes,
    rule: StepRule,
    kernels: &Kernels<R, C, K, P>,
) where
    R: Fn(usize, usize, Scalar) -> Scalar,
    C: Fn(usize, usize, Scalar) -> Scalar,
    K: Fn(CellStencil) -> Scalar,
    P: Fn(PhaseCell) -> PhaseUpdate,

    requires
        rule.nr >= 2,
        rule.nz >= 2,
        before.temperature.rows() == rule.nr,
        before.temperature.cols() == rule.nz,
        !rule.enable_radiation,
        !rule.enable_convection,
        !rule.follows_phases,
        before.temperature.uniform(rule.ambient),
        keeps_flat(kernels.conduction, rule.ambient),
        one_step(after, before, rule, kernels),
    ensures
        after.temperature.rows() == rule.nr,
        after.temperature.cols() == rule.nz,
        after.temperature.uniform(rule.ambient),
{
    let (sources, stepped) = choose|sources: HeatSources, stepped: Field2|
        {
            &&& #[trigger] conducted(&stepped, &sources, before, rule, kernels)
            &&& all_finite(&stepped)
            &&& if rule.follows_phases {
                phases_settled(after, before, &stepped, rule, kernels.phase)
            } else {
                after.temperature == stepped && unfollowed(after, before)
            }
        };
    flat_field_is_conducted_flat(&stepped, &sources, before, rule, kernels);
}

/// Without sources and without phase changes, the step from a field that
/// is flat at a finite ambient temperature does not fail, provided that the
/// conduction kernel leaves a node alone whose surroundings are as warm as
/// it is.
pub proof fn flat_step_does_not_fail<R, C, K, P>(
    before: &Planes,
    rule: StepRule,
    kernels: &Kernels<R, C, K, P>,
) where
    R: Fn(usize, usize, Scalar) -> Scalar,
    C: Fn(usize, usize, Scalar) -> Scalar,
    K: Fn(CellStencil) -> Scalar,
    P: Fn(PhaseCell) -> PhaseUpdate,

    requires
        rule.nr >= 2,
        rule.nz >= 2,
        before.temperature.rows() == rule.nr,
        before.temperature.cols() == rule.nz,
        !rule.enable_radiation,
        !rule.enable_convection,
        !rule.follows_phases,
        rule.ambient.finite(),
        before.temperature.uniform(rule.ambient),
        keeps_flat(kernels.conduction, rule.ambient),
    ensures
        !step_fails(before, rule, kernels),
        !step_fails_at(before, rule, kernels),
{
    if step_fails_at(before, rule, kernels) {
        let same = choose|same: Planes| #[trigger]
            same.held_by(before) && step_fails(&same, rule, kernels);
        assert forall|i: int, j: int|
            0 <= i < same.temperature.rows() && 0 <= j < same.temperature.cols() implies #[trigger] same.temperature.at(
            i,
            j,
        ) == rule.ambient by {
            assert(before.temperature.at(i, j) == same.temperature.at(i, j));
        }
        flat_step_fails_nowhere(&same, rule, kernels);
    }
    flat_step_fails_nowhere(before, rule, kernels);
}

/// The same, of the fields themselves.
proof fn flat_step_fails_nowhere<R, C, K, P>(
    before: &Planes,
    rule: StepRule,
    kernels: &Kernels<R, C, K, P>,
) where
    R: Fn(usize, usize, Scalar) -> Scalar,
    C: Fn(usize, usize, Scalar) -> Scalar,
    K: Fn(CellStencil) -> Scalar,
    P: Fn(PhaseCell) -> PhaseUpdate,

    requires
        rule.nr >= 2,
        rule.nz >= 2,
        before.temperature.rows() == rule.nr,
        before.temperature.cols() == rule.nz,
        !rule.enable_radiation,
        !rule.enable_convection,
        !rule.follows_phases,
        rule.ambient.finite(),
        before.temperature.uniform(rule.ambient),
        keeps_flat(kernels.conduction, rule.ambient),
    ensures
        !step_fails(before, rule, kernels),
{
    if step_fails(before, rule, kernels) {
        let (sources, stepped) = choose|sources: HeatSources, stepped: Field2|
            {
                &&& #[trigger] conducted(&stepped, &sources, before, rule, kernels)
                &&& {
                    ||| !all_finite(&stepped)
                    ||| rule.follows_phases && phases_refused(
                        before,
                        &stepped,
                        rule,
                        kernels.phase,
                    )
                }
            };
        flat_field_is_conducted_flat(&stepped, &sources, before, rule, kernels);
        assert forall|i: int, j: int|
            0 <= i < stepped.rows() && 0 <= j < stepped.cols() implies (#[trigger] stepped.at(
            i,
            j,
        )).finite() by {}
    }
}

/// Without sources and without phase changes, a history that starts flat
/// at the ambient temperature is flat at that temperature in every plane,
/// provided that the conduction kernel leaves a node alone whose
/// surroundings are as warm as it is.
pub proof fn flat_history_stays_flat<R, C, K, P>(
    temperature: &Field3,
    steps: int,
    rule: StepRule,
    kernels: &Kernels<R, C, K, P>,
    k: int,
) where
    R: Fn(usize, usize, Scalar) -> Scalar,
    C: Fn(usize, usize, Scalar) -> Scalar,
    K: Fn(CellStencil) -> Scalar,
    P: Fn(PhaseCell) -> PhaseUpdate,

    requires
        rule.nr >= 2,
        rule.nz >= 2,
        temperature.rows() == rule.nr,
        temperature.cols() == rule.nz,
        !rule.enable_radiation,
        !rule.enable_convection,
        !rule.follows_phases,
        forall|i: int, j: int|
            0 <= i < rule.nr && 0 <= j < rule.nz ==> #[trigger] temperature.at(i, j, 0)
                == rule.ambient,
        keeps_flat(kernels.conduction, rule.ambient),
        stepwise(temperature, None, None, 0, steps, rule, kernels),
        0 <= k <= steps,
    ensures
        forall|i: int, j: int|
            0 <= i < rule.nr && 0 <= j < rule.nz ==> #[trigger] temperature.at(i, j, k)
                == rule.ambient,
    decreases k,
{
    if k > 0 {
        flat_history_stays_flat(temperature, steps, rule, kernels, k - 1);
        assert(recorded_step(temperature, None, None, k - 1, rule, kernels));
        let (before, after) = choose|before: Planes, after: Planes|
            {
                &&& planes_at(temperature, None, None, k - 1, &before)
                &&& planes_at(temperature, None, None, k - 1 + 1, &after)
                &&& #[trigger] one_step(&after, &before, rule, kernels)
            };
        assert forall|i: int, j: int|
            0 <= i < before.temperature.rows() && 0 <= j < before.temperature.cols() implies #[trigger] before.temperature.at(
            i,
            j,
        ) == rule.ambient by {
            assert(temperature.at(i, j, k - 1) == before.temperature.at(i, j));
        }
        conserved_without_sources(&after, &before, rule, kernels);
        assert forall|i: int, j: int| 0 <= i < rule.nr && 0 <= j < rule.nz implies #[trigger] temperature.at(
            i,
            j,
            k,
        ) == rule.ambient by {
            assert(temperature.at(i, j, k) == after.temperature.at(i, j));
        }
    }
}

/// Plane `k` of the three histories holds fields that are `steps` steps on
/// from the fields `start`, phase fractions and absorbed energy carried
/// from step to step.
pub open spec fn plane_reached<R, C, K, P>(
    temperature: &Field3,
    melt: Option<Field3>,
    vapor: Option<Field3>,
    k: int,
    start: &Planes,
    steps: nat,
    rule: StepRule,
    kernels: &Kernels<R, C, K, P>,
) -> bool where
    R: Fn(usize, usize, Scalar) -> Scalar,
    C: Fn(usize, usize, Scalar) -> Scalar,
    K: Fn(CellStencil) -> Scalar,
    P: Fn(PhaseCell) -> PhaseUpdate,
 {
    exists|end: Planes|
        planes_at(temperature, melt, vapor, k, &end) && #[trigger] chained(
            &end,
            start,
            steps,
            rule,
            kernels,
        )
}

/// The three histories are a trace of the run from the fields `start`:
/// plane `from` holds `start`, and every plane up to plane `to` holds the
/// fields that many steps on.
pub open spec fn traced<R, C, K, P>(
    temperature: &Field3,
    melt: Option<Field3>,
    vapor: Option<Field3>,
    from: int,
    to: int,
    start: &Planes,
    rule: StepRule,
    kernels: &Kernels<R, C, K, P>,
) -> bool where
    R: Fn(usize, usize, Scalar) -> Scalar,
    C: Fn(usize, usize, Scalar) -> Scalar,
    K: Fn(CellStencil) -> Scalar,
    P: Fn(PhaseCell) -> PhaseUpdate,
 {
    forall|k: int|
        from <= k <= to ==> #[trigger] plane_reached(
            temperature,
            melt,
            vapor,
            k,
            start,
            (k - from) as nat,
            rule,
            kernels,
        )
}

/// The history `copy` holds in its plane `k` what the history `source`
/// holds there.
pub open spec fn same_plane(copy: &Field3, source: &Field3, k: int) -> bool {
    &&& copy.rows() == source.rows()
    &&& copy.cols() == source.cols()
    &&& forall|i: int, j: int|
        0 <= i < source.rows() && 0 <= j < source.cols() ==> #[trigger] copy.at(i, j, k)
            == source.at(i, j, k)
}

/// Both histories are absent, or both are present and the one holds in its
/// plane `k` what the other holds there.
pub open spec fn same_plane_if_any(copy: Option<Field3>, source: Option<Field3>, k: int) -> bool {
    match (copy, source) {
        (Some(c), Some(s)) => same_plane(&c, &s, k),
        (None, None) => true,
        _ => false,
    }
}

/// A plane that holds the fields of a run in three histories holds them in
/// every copy of that plane.
pub proof fn plane_reached_carries<R, C, K, P>(
    copy: (&Field3, Option<Field3>, Option<Field3>),
    source: (&Field3, Option<Field3>, Option<Field3>),
    k: int,
    start: &Planes,
    steps: nat,
    rule: StepRule,
    kernels: &Kernels<R, C, K, P>,
) where
    R: Fn(usize, usize, Scalar) -> Scalar,
    C: Fn(usize, usize, Scalar) -> Scalar,
    K: Fn(CellStencil) -> Scalar,
    P: Fn(PhaseCell) -> PhaseUpdate,

    requires
        plane_reached(source.0, source.1, source.2, k, start, steps, rule, kernels),
        same_plane(copy.0, source.0, k),
        same_plane_if_any(copy.1, source.1, k),
        same_plane_if_any(copy.2, source.2, k),
    ensures
        plane_reached(copy.0, copy.1, copy.2, k, start, steps, rule, kernels),
{
    let end = choose|end: Planes|
        planes_at(source.0, source.1, source.2, k, &end) && #[trigger] chained(
            &end,
            start,
            steps,
            rule,
            kernels,
        );
    assert forall|i: int, j: int|
        0 <= i < copy.0.rows() && 0 <= j < copy.0.cols() implies #[trigger] copy.0.at(i, j, k)
        == end.temperature.at(i, j) by {
        assert(source.0.at(i, j, k) == end.temperature.at(i, j));
    }
    if copy.1 is Some {
        let c = copy.1.unwrap();
        let s = source.1.unwrap();
        assert forall|i: int, j: int| 0 <= i < c.rows() && 0 <= j < c.cols() implies #[trigger] c.at(
            i,
            j,
            k,
        ) == end.melt.unwrap().at(i, j) by {
            assert(s.at(i, j, k) == end.melt.unwrap().at(i, j));
        }
    }
    if copy.2 is Some {
        let c = copy.2.unwrap();
        let s = source.2.unwrap();
        assert forall|i: int, j: int| 0 <= i < c.rows() && 0 <= j < c.cols() implies #[trigger] c.at(
            i,
            j,
            k,
        ) == end.vapor.unwrap().at(i, j) by {
            assert(s.at(i, j, k) == end.vapor.unwrap().at(i, j));
        }
    }
    assert(planes_at(copy.0, copy.1, copy.2, k, &end));
}

/// Two traces of runs from the same start, stepped by the same kernels,
/// each with one answer for every argument, hold the same in every plane,
/// temperature and phase fractions alike: when the steps were taken, and
/// what happened between them, leaves no trace.
pub proof fn traces_agree<R, C, K, P>(
    one: (&Field3, Option<Field3>, Option<Field3>),
    other: (&Field3, Option<Field3>, Option<Field3>),
    from: (int, int),
    to: (int, int),
    start: (&Planes, &Planes),
    rule: StepRule,
    kernels: &Kernels<R, C, K, P>,
    steps: nat,
) where
    R: Fn(usize, usize, Scalar) -> Scalar,
    C: Fn(usize, usize, Scalar) -> Scalar,
    K: Fn(CellStencil) -> Scalar,
    P: Fn(PhaseCell) -> PhaseUpdate,

    requires
        kernels.single_valued(),
        rule.nr >= 2,
        rule.nz >= 2,
        start.0.temperature.rows() == rule.nr,
        start.0.temperature.cols() == rule.nz,
        start.0.held_by(start.1),
        traced(one.0, one.1, one.2, from.0, to.0, start.0, rule, kernels),
        traced(other.0, other.1, other.2, from.1, to.1, start.1, rule, kernels),
        from.0 + steps <= to.0,
        from.1 + steps <= to.1,
    ensures
        forall|i: int, j: int|
            0 <= i < rule.nr && 0 <= j < rule.nz ==> #[trigger] one.0.at(i, j, from.0 + steps)
                == other.0.at(i, j, from.1 + steps),
        one.1 is Some <==> other.1 is Some,
        one.2 is Some <==> other.2 is Some,
        one.1 matches Some(melt) ==> {
            &&& melt.rows() == other.1.unwrap().rows()
            &&& melt.cols() == other.1.unwrap().cols()
            &&& forall|i: int, j: int|
                0 <= i < melt.rows() && 0 <= j < melt.cols() ==> #[trigger] melt.at(
                    i,
                    j,
                    from.0 + steps,
                ) == other.1.unwrap().at(i, j, from.1 + steps)
        },
        one.2 matches Some(vapor) ==> {
            &&& vapor.rows() == other.2.unwrap().rows()
            &&& vapor.cols() == other.2.unwrap().cols()
            &&& forall|i: int, j: int|
                0 <= i < vapor.rows() && 0 <= j < vapor.cols() ==> #[trigger] vapor.at(
                    i,
                    j,
                    from.0 + steps,
                ) == other.2.unwrap().at(i, j, from.1 + steps)
        },
{
    let k0 = from.0 + steps;
    let k1 = from.1 + steps;
    assert(plane_reached(one.0, one.1, one.2, k0, start.0, (k0 - from.0) as nat, rule, kernels));
    assert(plane_reached(
        other.0,
        other.1,
        other.2,
        k1,
        start.1,
        (k1 - from.1) as nat,
        rule,
        kernels,
    ));
    let end0 = choose|end: Planes|
        planes_at(one.0, one.1, one.2, k0, &end) && #[trigger] chained(
            &end,
            start.0,
            steps,
            rule,
            kernels,
        );
    let end1 = choose|end: Planes|
        planes_at(other.0, other.1, other.2, k1, &end) && #[trigger] chained(
            &end,
            start.1,
            steps,
            rule,
            kernels,
        );
    chains_agree((&end0, &end1), start, steps, rule, kernels);
    assert forall|i: int, j: int| 0 <= i < rule.nr && 0 <= j < rule.nz implies #[trigger] one.0.at(
        i,
        j,
        k0,
    ) == other.0.at(i, j, k1) by {
        assert(one.0.at(i, j, k0) == end0.temperature.at(i, j));
        assert(other.0.at(i, j, k1) == end1.temperature.at(i, j));
        assert(end1.temperature.at(i, j) == end0.temperature.at(i, j));
    }
    if one.1 is Some {
        let (a, b) = (one.1.unwrap(), other.1.unwrap());
        assert forall|i: int, j: int| 0 <= i < a.rows() && 0 <= j < a.cols() implies #[trigger] a.at(
            i,
            j,
            k0,
        ) == b.at(i, j, k1) by {
            assert(a.at(i, j, k0) == end0.melt.unwrap().at(i, j));
            assert(b.at(i, j, k1) == end1.melt.unwrap().at(i, j));
            assert(end1.melt.unwrap().at(i, j) == end0.melt.unwrap().at(i, j));
        }
    }
    if one.2 is Some {
        let (a, b) = (one.2.unwrap(), other.2.unwrap());
        assert forall|i: int, j: int| 0 <= i < a.rows() && 0 <= j < a.cols() implies #[trigger] a.at(
            i,
            j,
            k0,
        ) == b.at(i, j, k1) by {
            assert(a.at(i, j, k0) == end0.vapor.unwrap().at(i, j));
            assert(b.at(i, j, k1) == end1.vapor.unwrap().at(i, j));
            assert(end1.vapor.unwrap().at(i, j) == end0.vapor.unwrap().at(i, j));
        }
    }
}

/// Up to plane `steps` the history `after` is the history `before`.
pub open spec fn same_planes_up_to(after: &Field3, before: &Field3, steps: int) -> bool {
    &&& after.rows() == before.rows()
    &&& after.cols() == before.cols()
    &&& after.depth() == before.depth()
    &&& forall|i: int, j: int, k: int|
        0 <= i < before.rows() && 0 <= j < before.cols() && 0 <= k <= steps && k < before.depth()
            ==> #[trigger] after.at(i, j, k) == before.at(i, j, k)
}

impl SimulationResults {
    /// From plane `from` to plane `to`, every plane of the histories of the
    /// results is one step on from the plane before it.
    pub open spec fn stepwise<R, C, K, P>(
        &self,
        from: int,
        to: int,
        kernels: &Kernels<R, C, K, P>,
    ) -> bool where
        R: Fn(usize, usize, Scalar) -> Scalar,
        C: Fn(usize, usize, Scalar) -> Scalar,
        K: Fn(CellStencil) -> Scalar,
        P: Fn(PhaseCell) -> PhaseUpdate,
     {
        stepwise(
            &self.temperature,
            melt_history_of(self.phase_change_info),
            vapor_history_of(self.phase_change_info),
            from,
            to,
            rule_of(&self.parameters),
            kernels,
        )
    }
}

impl SimulationResults {
    /// The histories of the results are a trace of the run from the fields
    /// `start`, from plane `from` to plane `to`.
    pub open spec fn traced<R, C, K, P>(
        &self,
        from: int,
        to: int,
        start: &Planes,
        kernels: &Kernels<R, C, K, P>,
    ) -> bool where
        R: Fn(usize, usize, Scalar) -> Scalar,
        C: Fn(usize, usize, Scalar) -> Scalar,
        K: Fn(CellStencil) -> Scalar,
        P: Fn(PhaseCell) -> PhaseUpdate,
     {
        traced(
            &self.temperature,
            melt_history_of(self.phase_change_info),
            vapor_history_of(self.phase_change_info),
            from,
            to,
            start,
            rule_of(&self.parameters),
            kernels,
        )
    }
}

/// The melt fraction history of the results, if they have one.
pub open spec fn melt_history_of(info: Option<PhaseChangeInfo>) -> Option<Field3> {
    match info {
        Some(info) => info.melt_fraction,
        None => None,
    }
}

/// The vapor fraction history of the results, if they have one.
pub open spec fn vapor_history_of(info: Option<PhaseChangeInfo>) -> Option<Field3> {
    match info {
        Some(info) => info.vapor_fraction,
        None => None,
    }
}

} // verus!
