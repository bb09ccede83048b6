//! Melting and vaporization, cell by cell.
//!
//! After a temperature step every cell that has overshot a transition
//! point and has not completed the transition is handed to the phase
//! kernel.  The kernel answers with the new fraction of the cell, the
//! temperature that is left to it once the latent heat is taken out, and
//! the latent energy absorbed so far.  The answer is taken only when it is
//! admissible: fractions and absorbed energy never decrease, a fraction
//! never exceeds one, and a cell is never heated nor cooled below the
//! transition point.

use vstd::prelude::*;
use crate::field::{Field2, Field3};
use crate::kernels::{PhaseCell, PhaseTransition, PhaseUpdate};
use crate::scalar::{unit_interval_bounds, Scalar, ONE_BITS};

verus! {

/// Why a sweep stopped: the phase kernel gave an update that is not
/// admissible.
#[derive(Clone, Copy, Debug, PartialEq, Eq, Structural)]
pub struct Inadmissible {
    pub i: usize,
    pub j: usize,
}

/// A cell is in transition: it is hotter than the transition point, its
/// fraction is below one, and the transition before it, if there is one,
/// is complete.
pub open spec fn in_transition(
    temperature: Scalar,
    point: Scalar,
    fraction: Scalar,
    prior: Option<Scalar>,
) -> bool {
    &&& point.below(temperature)
    &&& fraction.below(Scalar { bits: ONE_BITS })
    &&& prior matches Some(g) ==> (Scalar { bits: ONE_BITS }).at_most(g)
}

/// Whether a cell is in transition.
pub fn is_in_transition(
    temperature: Scalar,
    point: Scalar,
    fraction: Scalar,
    prior: Option<Scalar>,
) -> (r: bool)
    ensures
        r == in_transition(temperature, point, fraction, prior),
{
    let one = Scalar::one();
    if !(point.lt(temperature) && fraction.lt(one)) {
        return false;
    }
    match prior {
        Some(g) => one.le(g),
        None => true,
    }
}

/// The update may be taken for the cell: the fraction does not decrease
/// and stays at most one, the absorbed energy does not decrease and stays
/// finite, and the temperature is finite and lies between the transition
/// point and what it was.
pub open spec fn admissible(cell: PhaseCell, update: PhaseUpdate) -> bool {
    &&& cell.fraction.at_most(update.fraction)
    &&& update.fraction.at_most(Scalar { bits: ONE_BITS })
    &&& cell.absorbed.at_most(update.absorbed)
    &&& update.absorbed.finite()
    &&& cell.transition_point.at_most(update.temperature)
    &&& update.temperature.at_most(cell.temperature)
    &&& update.temperature.finite()
}

/// Whether the update may be taken for the cell.
pub fn is_admissible(cell: PhaseCell, update: PhaseUpdate) -> (r: bool)
    ensures
        r == admissible(cell, update),
{
    let one = Scalar::one();
    cell.fraction.le(update.fraction) && update.fraction.le(one) && cell.absorbed.le(
        update.absorbed,
    ) && update.absorbed.is_finite() && cell.transition_point.le(update.temperature)
        && update.temperature.le(cell.temperature) && update.temperature.is_finite()
}

/// The fraction of the transition that comes first, at `(i, j)`, if there is
/// such a transition.
pub open spec fn prior_at(prior: Option<&Field2>, i: int, j: int) -> Option<Scalar> {
    match prior {
        Some(g) => Some(g.at(i, j)),
        None => None,
    }
}

/// Cell `(a, b)` comes before cell `(i, j)` in the order of the sweep, row
/// by row.
pub open spec fn precedes(a: int, b: int, i: int, j: int) -> bool {
    a < i || (a == i && b < j)
}

/// The fields of one transition before and after a sweep, with the latent
/// energy absorbed before it.
///
/// A sweep visits the cells row by row and hands the absorbed energy from
/// cell to cell.  The energies are held in a map: `energies[(i, j)]` is the
/// energy absorbed once cell `(i, j)` is done.
pub struct Sweep<'a> {
    pub fractions_before: &'a Field2,
    pub fractions_after: &'a Field2,
    pub temperature_before: &'a Field2,
    pub temperature_after: &'a Field2,
    pub prior: Option<&'a Field2>,
    pub transition: PhaseTransition,
    pub point: Scalar,
    pub latent_heat: Scalar,
    pub absorbed: Scalar,
}

impl<'a> Sweep<'a> {
    /// Cell `(i, j)` is a cell of the field.
    pub open spec fn within(&self, i: int, j: int) -> bool {
        0 <= i < self.fractions_before.rows() && 0 <= j < self.fractions_before.cols()
    }

    /// The fields of the sweep have one shape.
    pub open spec fn shaped(&self) -> bool {
        &&& self.fractions_after.rows() == self.fractions_before.rows()
        &&& self.fractions_after.cols() == self.fractions_before.cols()
        &&& self.temperature_before.rows() == self.fractions_before.rows()
        &&& self.temperature_before.cols() == self.fractions_before.cols()
        &&& self.temperature_after.rows() == self.fractions_before.rows()
        &&& self.temperature_after.cols() == self.fractions_before.cols()
        &&& self.prior matches Some(g) ==> g.rows() == self.fractions_before.rows() && g.cols()
            == self.fractions_before.cols()
    }

    /// The sweep starts from what `other` starts from: fields that hold the
    /// same, the same transition, and the same energy.
    pub open spec fn same_start(&self, other: &Sweep) -> bool {
        &&& self.fractions_before.agrees(other.fractions_before)
        &&& self.temperature_before.agrees(other.temperature_before)
        &&& match (self.prior, other.prior) {
            (Some(g), Some(h)) => g.agrees(h),
            (None, None) => true,
            _ => false,
        }
        &&& self.transition == other.transition
        &&& self.point == other.point
        &&& self.latent_heat == other.latent_heat
        &&& self.absorbed == other.absorbed
    }

    /// Cell `(i, j)` was in transition before the sweep.
    pub open spec fn active(&self, i: int, j: int) -> bool {
        in_transition(
            self.temperature_before.at(i, j),
            self.point,
            self.fractions_before.at(i, j),
            prior_at(self.prior, i, j),
        )
    }

    /// What the phase kernel is handed for cell `(i, j)` when `absorbed` is
    /// the energy absorbed so far.
    pub open spec fn cell(&self, i: int, j: int, absorbed: Scalar) -> PhaseCell {
        PhaseCell {
            i: i as usize,
            j: j as usize,
            transition: self.transition,
            temperature: self.temperature_before.at(i, j),
            transition_point: self.point,
            latent_heat: self.latent_heat,
            fraction: self.fractions_before.at(i, j),
            absorbed,
        }
    }

    /// What cell `(i, j)` holds after the sweep, with `absorbed` for the
    /// energy absorbed once the cell is done.
    pub open spec fn outcome(&self, i: int, j: int, absorbed: Scalar) -> PhaseUpdate {
        PhaseUpdate {
            fraction: self.fractions_after.at(i, j),
            temperature: self.temperature_after.at(i, j),
            absorbed,
        }
    }

    /// The energy absorbed when the sweep comes to cell `(i, j)`: what was
    /// absorbed once the cell before it was done, and before the first
    /// cell what was absorbed before the sweep.
    pub open spec fn energy_before(&self, energies: Map<(int, int), Scalar>, i: int, j: int) -> Scalar {
        if j > 0 {
            energies[(i, j - 1)]
        } else if i > 0 && self.fractions_before.cols() > 0 {
            energies[(i - 1, self.fractions_before.cols() - 1)]
        } else {
            self.absorbed
        }
    }

    /// The energy absorbed once the whole sweep is done.
    pub open spec fn energy_after(&self, energies: Map<(int, int), Scalar>) -> Scalar {
        self.energy_before(energies, self.fractions_before.rows() as int, 0)
    }

    /// Cell `(i, j)` is as it was.
    pub open spec fn kept(&self, i: int, j: int) -> bool {
        &&& self.fractions_after.at(i, j) == self.fractions_before.at(i, j)
        &&& self.temperature_after.at(i, j) == self.temperature_before.at(i, j)
    }

    /// Cell `(i, j)` is settled: outside a transition it is as it was and
    /// has absorbed nothing; in a transition it holds, with the energy
    /// after it, an admissible answer of the phase kernel to the cell as it
    /// was, with the energy before it.
    pub open spec fn settled<P>(
        &self,
        phase: P,
        energies: Map<(int, int), Scalar>,
        i: int,
        j: int,
    ) -> bool where P: Fn(PhaseCell) -> PhaseUpdate {
        if self.active(i, j) {
            &&& call_ensures(
                phase,
                (self.cell(i, j, self.energy_before(energies, i, j)),),
                self.outcome(i, j, energies[(i, j)]),
            )
            &&& admissible(
                self.cell(i, j, self.energy_before(energies, i, j)),
                self.outcome(i, j, energies[(i, j)]),
            )
        } else {
            &&& self.kept(i, j)
            &&& energies[(i, j)] == self.energy_before(energies, i, j)
        }
    }

    /// The sweep has come to cell `(i, j)`: every cell before it is
    /// settled, and every cell from it on is as it was.
    pub open spec fn come_to<P>(
        &self,
        phase: P,
        energies: Map<(int, int), Scalar>,
        i: int,
        j: int,
    ) -> bool where P: Fn(PhaseCell) -> PhaseUpdate {
        forall|a: int, b: int|
            #[trigger] self.within(a, b) ==> if precedes(a, b, i, j) {
                self.settled(phase, energies, a, b)
            } else {
                self.kept(a, b)
            }
    }

    /// The sweep is done: every cell is settled, and `absorbed` is the
    /// energy absorbed once the last cell was done.
    pub open spec fn finished<P>(&self, phase: P, absorbed: Scalar) -> bool where
        P: Fn(PhaseCell) -> PhaseUpdate,
     {
        &&& self.shaped()
        &&& exists|energies: Map<(int, int), Scalar>|
            {
                &&& #[trigger] self.come_to(
                    phase,
                    energies,
                    self.fractions_before.rows() as int,
                    0,
                )
                &&& absorbed == self.energy_after(energies)
            }
    }

    /// The sweep stopped at cell `(i, j)`: the cell was in transition, the
    /// sweep had come to it, and the phase kernel gave for it an answer
    /// that is not admissible.
    pub open spec fn refused_at<P>(&self, phase: P, i: int, j: int) -> bool where
        P: Fn(PhaseCell) -> PhaseUpdate,
     {
        &&& self.shaped()
        &&& self.within(i, j)
        &&& self.active(i, j)
        &&& exists|energies: Map<(int, int), Scalar>, update: PhaseUpdate|
            {
                &&& self.come_to(phase, energies, i, j)
                &&& #[trigger] call_ensures(
                    phase,
                    (self.cell(i, j, self.energy_before(energies, i, j)),),
                    update,
                )
                &&& !admissible(self.cell(i, j, self.energy_before(energies, i, j)), update)
            }
    }

    /// No cell was in transition before the sweep.
    pub open spec fn dormant(&self) -> bool {
        forall|i: int, j: int| self.within(i, j) ==> !#[trigger] self.active(i, j)
    }
}

/// Every fraction of the field is in `[0, 1]`.
pub open spec fn all_unit(fractions: &Field2) -> bool {
    forall|i: int, j: int|
        0 <= i < fractions.rows() && 0 <= j < fractions.cols() ==> (#[trigger] fractions.at(
            i,
            j,
        )).unit()
}

/// No fraction of `after` is below that of `before`.
pub open spec fn none_decreased(after: &Field2, before: &Field2) -> bool {
    &&& after.rows() == before.rows()
    &&& after.cols() == before.cols()
    &&& forall|i: int, j: int|
        0 <= i < before.rows() && 0 <= j < before.cols() ==> (#[trigger] before.at(i, j)).at_most(
            after.at(i, j),
        )
}

/// No node of `after` is hotter than in `before`: it holds what it held,
/// or a finite temperature that is not above it.
pub open spec fn none_heated(after: &Field2, before: &Field2) -> bool {
    &&& after.rows() == before.rows()
    &&& after.cols() == before.cols()
    &&& forall|i: int, j: int|
        0 <= i < before.rows() && 0 <= j < before.cols() ==> {
            ||| #[trigger] after.at(i, j) == before.at(i, j)
            ||| after.at(i, j).at_most(before.at(i, j)) && after.at(i, j).finite()
        }
}

/// Where a sweep has come to a cell, no fraction has decreased or left
/// `[0, 1]` and no cell was heated.
pub proof fn bounds_of_a_sweep<P>(
    sweep: Sweep,
    phase: P,
    energies: Map<(int, int), Scalar>,
    i: int,
    j: int,
) where P: Fn(PhaseCell) -> PhaseUpdate
    requires
        sweep.come_to(phase, energies, i, j),
        sweep.fractions_after.rows() == sweep.fractions_before.rows(),
        sweep.fractions_after.cols() == sweep.fractions_before.cols(),
        sweep.temperature_before.rows() == sweep.fractions_before.rows(),
        sweep.temperature_before.cols() == sweep.fractions_before.cols(),
        sweep.temperature_after.rows() == sweep.fractions_before.rows(),
        sweep.temperature_after.cols() == sweep.fractions_before.cols(),
        all_unit(sweep.fractions_before),
    ensures
        none_decreased(sweep.fractions_after, sweep.fractions_before),
        all_unit(sweep.fractions_after),
        none_heated(sweep.temperature_after, sweep.temperature_before),
{
    unit_interval_bounds();
    assert forall|a: int, b: int| sweep.within(a, b) implies (#[trigger] sweep.fractions_before.at(
        a,
        b,
    )).at_most(sweep.fractions_after.at(a, b)) by {
        assert(sweep.fractions_before.at(a, b).unit());
        if precedes(a, b, i, j) {
            assert(sweep.settled(phase, energies, a, b));
        }
    }
    assert forall|a: int, b: int| sweep.within(a, b) implies (#[trigger] sweep.fractions_after.at(
        a,
        b,
    )).unit() by {
        assert(sweep.fractions_before.at(a, b).unit());
        if precedes(a, b, i, j) {
            assert(sweep.settled(phase, energies, a, b));
        }
    }
    assert forall|a: int, b: int| sweep.within(a, b) implies {
        ||| #[trigger] sweep.temperature_after.at(a, b) == sweep.temperature_before.at(a, b)
        ||| sweep.temperature_after.at(a, b).at_most(sweep.temperature_before.at(a, b))
            && sweep.temperature_after.at(a, b).finite()
    } by {
        if precedes(a, b, i, j) {
            assert(sweep.settled(phase, energies, a, b));
        }
    }
}

/// The phase kernel has one answer for every cell.
pub open spec fn single_valued<P>(phase: P) -> bool where P: Fn(PhaseCell) -> PhaseUpdate {
    forall|cell: PhaseCell, a: PhaseUpdate, b: PhaseUpdate|
        #[trigger] call_ensures(phase, (cell,), a) && #[trigger] call_ensures(phase, (cell,), b)
            ==> a == b
}

/// Two sweeps that are done, from the same start and with a phase kernel
/// that has one answer for every cell, have left the same in cell
/// `(i, j)`, and the same energy after it.
pub proof fn same_cell<P>(
    one: Sweep,
    other: Sweep,
    phase: P,
    energies: Map<(int, int), Scalar>,
    others: Map<(int, int), Scalar>,
    i: int,
    j: int,
) where P: Fn(PhaseCell) -> PhaseUpdate
    requires
        one.same_start(&other),
        one.shaped(),
        other.shaped(),
        one.come_to(phase, energies, one.fractions_before.rows() as int, 0),
        other.come_to(phase, others, other.fractions_before.rows() as int, 0),
        single_valued(phase),
        one.within(i, j),
    ensures
        one.fractions_after.at(i, j) == other.fractions_after.at(i, j),
        one.temperature_after.at(i, j) == other.temperature_after.at(i, j),
        energies[(i, j)] == others[(i, j)],
    decreases i, j,
{
    let cols = one.fractions_before.cols() as int;
    if j > 0 {
        same_cell(one, other, phase, energies, others, i, j - 1);
    } else if i > 0 && cols > 0 {
        same_cell(one, other, phase, energies, others, i - 1, cols - 1);
    }
    assert(one.energy_before(energies, i, j) == other.energy_before(others, i, j));
    assert(other.within(i, j));
    assert(one.fractions_before.at(i, j) == other.fractions_before.at(i, j));
    assert(one.temperature_before.at(i, j) == other.temperature_before.at(i, j));
    match (one.prior, other.prior) {
        (Some(g), Some(h)) => {
            assert(g.at(i, j) == h.at(i, j));
        },
        _ => {},
    }
    assert(one.active(i, j) == other.active(i, j));
    assert(precedes(i, j, one.fractions_before.rows() as int, 0));
    assert(one.settled(phase, energies, i, j));
    assert(other.settled(phase, others, i, j));
    if one.active(i, j) {
        let cell = one.cell(i, j, one.energy_before(energies, i, j));
        assert(cell == other.cell(i, j, other.energy_before(others, i, j)));
        assert(call_ensures(phase, (cell,), one.outcome(i, j, energies[(i, j)])));
        assert(call_ensures(phase, (cell,), other.outcome(i, j, others[(i, j)])));
    }
}

/// Two sweeps that are done, from the same start and with a phase kernel
/// that has one answer for every cell, have left fields that hold the
/// same, and have absorbed the same energy.
pub proof fn sweeps_agree<P>(one: Sweep, other: Sweep, phase: P, absorbed: Scalar, others: Scalar) where
    P: Fn(PhaseCell) -> PhaseUpdate,

    requires
        one.same_start(&other),
        one.finished(phase, absorbed),
        other.finished(phase, others),
        single_valued(phase),
    ensures
        one.fractions_after.agrees(other.fractions_after),
        one.temperature_after.agrees(other.temperature_after),
        absorbed == others,
{
    let energies = choose|energies: Map<(int, int), Scalar>|
        {
            &&& #[trigger] one.come_to(phase, energies, one.fractions_before.rows() as int, 0)
            &&& absorbed == one.energy_after(energies)
        };
    let more = choose|energies: Map<(int, int), Scalar>|
        {
            &&& #[trigger] other.come_to(phase, energies, other.fractions_before.rows() as int, 0)
            &&& others == other.energy_after(energies)
        };
    let rows = one.fractions_before.rows() as int;
    let cols = one.fractions_before.cols() as int;
    assert forall|i: int, j: int|
        0 <= i < one.fractions_after.rows() && 0 <= j < one.fractions_after.cols() implies #[trigger] one.fractions_after.at(
        i,
        j,
    ) == other.fractions_after.at(i, j) by {
        same_cell(one, other, phase, energies, more, i, j);
    }
    assert forall|i: int, j: int|
        0 <= i < one.temperature_after.rows() && 0 <= j < one.temperature_after.cols() implies #[trigger] one.temperature_after.at(
        i,
        j,
    ) == other.temperature_after.at(i, j) by {
        same_cell(one, other, phase, energies, more, i, j);
    }
    if rows > 0 && cols > 0 {
        same_cell(one, other, phase, energies, more, rows - 1, cols - 1);
    }
}

/// Advances one transition over all cells.
///
/// Every cell in transition is handed to the phase kernel together with
/// the latent energy absorbed so far; the update that comes back is taken
/// when it is admissible, and otherwise the sweep stops at that cell.
/// Either way no fraction has decreased or left `[0, 1]` and no cell was
/// heated.  The result on success is the latent energy absorbed after the
/// sweep.
pub fn sweep_transition<P>(
    fractions: &mut Field2,
    temperature: &mut Field2,
    prior: Option<&Field2>,
    transition: PhaseTransition,
    point: Scalar,
    latent_heat: Scalar,
    absorbed: Scalar,
    phase: &P,
) -> (r: Result<Scalar, Inadmissible>) where P: Fn(PhaseCell) -> PhaseUpdate
    requires
        old(temperature).rows() == old(fractions).rows(),
        old(temperature).cols() == old(fractions).cols(),
        prior matches Some(g) ==> g.rows() == old(fractions).rows() && g.cols() == old(
            fractions,
        ).cols(),
        all_unit(old(fractions)),
        !absorbed.nan(),
        forall|c: PhaseCell| call_requires(*phase, (c,)),
    ensures
        none_decreased(final(fractions), old(fractions)),
        all_unit(final(fractions)),
        none_heated(final(temperature), old(temperature)),
        r matches Ok(e) ==> {
            &&& absorbed.at_most(e)
            &&& absorbed.finite() ==> e.finite()
            &&& (Sweep {
                fractions_before: old(fractions),
                fractions_after: final(fractions),
                temperature_before: old(temperature),
                temperature_after: final(temperature),
                prior,
                transition,
                point,
                latent_heat,
                absorbed,
            }).finished(*phase, e)
        },
        r matches Err(e) ==> (Sweep {
            fractions_before: old(fractions),
            fractions_after: final(fractions),
            temperature_before: old(temperature),
            temperature_after: final(temperature),
            prior,
            transition,
            point,
            latent_heat,
            absorbed,
        }).refused_at(*phase, e.i as int, e.j as int),
        (Sweep {
            fractions_before: old(fractions),
            fractions_after: old(fractions),
            temperature_before: old(temperature),
            temperature_after: old(temperature),
            prior,
            transition,
            point,
            latent_heat,
            absorbed,
        }).dormant() ==> r == Ok::<Scalar, Inadmissible>(absorbed),
{
    let rows = fractions.row_count();
    let cols = fractions.col_count();
    let mut energy = absorbed;
    let ghost start = Sweep {
        fractions_before: old(fractions),
        fractions_after: old(fractions),
        temperature_before: old(temperature),
        temperature_after: old(temperature),
        prior,
        transition,
        point,
        latent_heat,
        absorbed,
    };
    let ghost mut energies: Map<(int, int), Scalar> = Map::new(
        |k: (int, int)| true,
        |k: (int, int)| absorbed,
    );
    proof {
        unit_interval_bounds();
    }
    let mut i: usize = 0;
    while i < rows
        invariant
            i <= rows,
            rows == old(fractions).rows(),
            cols == old(fractions).cols(),
            fractions.rows() == rows,
            fractions.cols() == cols,
            temperature.rows() == rows,
            temperature.cols() == cols,
            old(temperature).rows() == rows,
            old(temperature).cols() == cols,
            prior matches Some(g) ==> g.rows() == rows && g.cols() == cols,
            all_unit(old(fractions)),
            forall|c: PhaseCell| call_requires(*phase, (c,)),
            absorbed.at_most(energy) || (energy == absorbed),
            !absorbed.nan(),
            absorbed.finite() ==> energy.finite(),
            start == (Sweep {
                fractions_before: old(fractions),
                fractions_after: old(fractions),
                temperature_before: old(temperature),
                temperature_after: old(temperature),
                prior,
                transition,
                point,
                latent_heat,
                absorbed,
            }),
            start.dormant() ==> energy == absorbed,
            (Sweep {
                fractions_before: old(fractions),
                fractions_after: fractions,
                temperature_before: old(temperature),
                temperature_after: temperature,
                prior,
                transition,
                point,
                latent_heat,
                absorbed,
            }).come_to(*phase, energies, i as int, 0),
            energy == start.energy_before(energies, i as int, 0),
        decreases rows - i,
    {
        let mut j: usize = 0;
        while j < cols
            invariant
                i < rows,
                j <= cols,
                rows == old(fractions).rows(),
                cols == old(fractions).cols(),
                fractions.rows() == rows,
                fractions.cols() == cols,
                temperature.rows() == rows,
                temperature.cols() == cols,
                old(temperature).rows() == rows,
                old(temperature).cols() == cols,
                prior matches Some(g) ==> g.rows() == rows && g.cols() == cols,
                all_unit(old(fractions)),
                forall|c: PhaseCell| call_requires(*phase, (c,)),
                absorbed.at_most(energy) || (energy == absorbed),
                !absorbed.nan(),
                absorbed.finite() ==> energy.finite(),
                start == (Sweep {
                    fractions_before: old(fractions),
                    fractions_after: old(fractions),
                    temperature_before: old(temperature),
                    temperature_after: old(temperature),
                    prior,
                    transition,
                    point,
                    latent_heat,
                    absorbed,
                }),
                start.dormant() ==> energy == absorbed,
                (Sweep {
                    fractions_before: old(fractions),
                    fractions_after: fractions,
                    temperature_before: old(temperature),
                    temperature_after: temperature,
                    prior,
                    transition,
                    point,
                    latent_heat,
                    absorbed,
                }).come_to(*phase, energies, i as int, j as int),
                energy == start.energy_before(energies, i as int, j as int),
            decreases cols - j,
        {
            let ghost mid = Sweep {
                fractions_before: old(fractions),
                fractions_after: fractions,
                temperature_before: old(temperature),
                temperature_after: temperature,
                prior,
                transition,
                point,
                latent_heat,
                absorbed,
            };
            let ghost fractions_mid = *fractions;
            let ghost temperature_mid = *temperature;
            let ghost energies_mid = energies;
            let t = temperature.get(i, j);
            let fraction = fractions.get(i, j);
            let prior_value = match prior {
                Some(g) => Some(g.get(i, j)),
                None => None,
            };
            proof {
                assert(mid.within(i as int, j as int));
                assert(mid.kept(i as int, j as int));
                assert(start.active(i as int, j as int) == in_transition(
                    t,
                    point,
                    fraction,
                    prior_value,
                ));
            }
            if is_in_transition(t, point, fraction, prior_value) {
                let cell = PhaseCell {
                    i,
                    j,
                    transition,
                    temperature: t,
                    transition_point: point,
                    latent_heat,
                    fraction,
                    absorbed: energy,
                };
                let update = phase(cell);
                proof {
                    assert(cell == mid.cell(
                        i as int,
                        j as int,
                        mid.energy_before(energies, i as int, j as int),
                    ));
                    assert(call_ensures(*phase, (cell,), update));
                }
                if !is_admissible(cell, update) {
                    proof {
                        bounds_of_a_sweep(mid, *phase, energies, i as int, j as int);
                    }
                    return Err(Inadmissible { i, j });
                }
                fractions.set(i, j, update.fraction);
                temperature.set(i, j, update.temperature);
                energy = update.absorbed;
                proof {
                    energies = energies.insert((i as int, j as int), update.absorbed);
                }
            } else {
                proof {
                    energies = energies.insert((i as int, j as int), energy);
                }
            }
            proof {
                let now = Sweep {
                    fractions_before: old(fractions),
                    fractions_after: fractions,
                    temperature_before: old(temperature),
                    temperature_after: temperature,
                    prior,
                    transition,
                    point,
                    latent_heat,
                    absorbed,
                };
                assert forall|a: int, b: int| #[trigger] now.within(a, b) implies if precedes(
                    a,
                    b,
                    i as int,
                    j + 1,
                ) {
                    now.settled(*phase, energies, a, b)
                } else {
                    now.kept(a, b)
                } by {
                    assert(mid.within(a, b));
                    if a == i && b == j {
                        assert(now.energy_before(energies, a, b) == mid.energy_before(
                            energies_mid,
                            a,
                            b,
                        ));
                    } else if precedes(a, b, i as int, j as int) {
                        assert(mid.settled(*phase, energies_mid, a, b));
                        assert(fractions.at(a, b) == fractions_mid.at(a, b));
                        assert(temperature.at(a, b) == temperature_mid.at(a, b));
                        assert(energies[(a, b)] == energies_mid[(a, b)]);
                        assert(now.energy_before(energies, a, b) == mid.energy_before(
                            energies_mid,
                            a,
                            b,
                        ));
                    } else {
                        assert(mid.kept(a, b));
                        assert(fractions.at(a, b) == fractions_mid.at(a, b));
                        assert(temperature.at(a, b) == temperature_mid.at(a, b));
                    }
                }
            }
            j += 1;
        }
        proof {
            let now = Sweep {
                fractions_before: old(fractions),
                fractions_after: fractions,
                temperature_before: old(temperature),
                temperature_after: temperature,
                prior,
                transition,
                point,
                latent_heat,
                absorbed,
            };
            assert forall|a: int, b: int| #[trigger] now.within(a, b) implies if precedes(
                a,
                b,
                i + 1,
                0,
            ) {
                now.settled(*phase, energies, a, b)
            } else {
                now.kept(a, b)
            } by {
                assert(precedes(a, b, i + 1, 0) == precedes(a, b, i as int, cols as int));
            }
        }
        i += 1;
    }
    proof {
        let now = Sweep {
            fractions_before: old(fractions),
            fractions_after: fractions,
            temperature_before: old(temperature),
            temperature_after: temperature,
            prior,
            transition,
            point,
            latent_heat,
            absorbed,
        };
        bounds_of_a_sweep(now, *phase, energies, rows as int, 0);
        assert(now.come_to(*phase, energies, now.fractions_before.rows() as int, 0));
        assert(energy == now.energy_after(energies));
    }
    Ok(energy)
}

/// Up to plane `steps`, the history of a phase fraction stays in `[0, 1]`
/// and never decreases from one plane to the next; the current fraction is
/// in `[0, 1]` too and not below the last recorded plane.
pub open spec fn fraction_history_sound(current: &Field2, history: &Field3, steps: int) -> bool {
    &&& current.rows() == history.rows()
    &&& current.cols() == history.cols()
    &&& steps < history.depth()
    &&& forall|i: int, j: int, k: int|
        0 <= i < history.rows() && 0 <= j < history.cols() && 0 <= k <= steps
            ==> (#[trigger] history.at(i, j, k)).unit()
    &&& forall|i: int, j: int, k: int|
        0 <= i < history.rows() && 0 <= j < history.cols() && 0 <= k < steps
            ==> (#[trigger] history.at(i, j, k)).at_most(history.at(i, j, k + 1))
    &&& forall|i: int, j: int|
        0 <= i < current.rows() && 0 <= j < current.cols() ==> {
            &&& (#[trigger] current.at(i, j)).unit()
            &&& history.at(i, j, steps).at_most(current.at(i, j))
        }
}

/// A current fraction that has grown within `[0, 1]` is still sound against
/// the history.
pub proof fn sound_after_growth(before: &Field2, after: &Field2, history: &Field3, steps: int)
    requires
        fraction_history_sound(before, history, steps),
        none_decreased(after, before),
        all_unit(after),
    ensures
        fraction_history_sound(after, history, steps),
{
    assert forall|i: int, j: int| 0 <= i < after.rows() && 0 <= j < after.cols() implies {
        &&& (#[trigger] after.at(i, j)).unit()
        &&& history.at(i, j, steps).at_most(after.at(i, j))
    } by {
        assert(before.at(i, j).unit());
        assert(before.at(i, j).at_most(after.at(i, j)));
    }
}

/// Once the current fraction is recorded as plane `steps + 1`, the history
/// is sound up to that plane.
pub proof fn sound_after_record(current: &Field2, before: &Field3, after: &Field3, steps: int)
    requires
        0 <= steps,
        steps + 1 < before.depth(),
        fraction_history_sound(current, before, steps),
        after.rows() == before.rows(),
        after.cols() == before.cols(),
        after.depth() == before.depth(),
        after.plane_is(steps + 1, current),
        forall|i: int, j: int, k: int|
            0 <= i < before.rows() && 0 <= j < before.cols() && 0 <= k < before.depth() && k
                != steps + 1 ==> #[trigger] after.at(i, j, k) == before.at(i, j, k),
    ensures
        fraction_history_sound(current, after, steps + 1),
{
    assert forall|i: int, j: int, k: int|
        0 <= i < after.rows() && 0 <= j < after.cols() && 0 <= k <= steps + 1 implies (
    #[trigger] after.at(i, j, k)).unit() by {
        if k == steps + 1 {
            assert(current.at(i, j).unit());
        } else {
            assert(before.at(i, j, k).unit());
        }
    }
    assert forall|i: int, j: int, k: int|
        0 <= i < after.rows() && 0 <= j < after.cols() && 0 <= k < steps + 1 implies (
    #[trigger] after.at(i, j, k)).at_most(after.at(i, j, k + 1)) by {
        if k == steps {
            assert(current.at(i, j).unit());
            assert(after.at(i, j, k) == before.at(i, j, k));
        } else {
            assert(before.at(i, j, k).at_most(before.at(i, j, k + 1)));
            assert(after.at(i, j, k + 1) == before.at(i, j, k + 1));
        }
    }
    assert forall|i: int, j: int| 0 <= i < current.rows() && 0 <= j < current.cols() implies {
        &&& (#[trigger] current.at(i, j)).unit()
        &&& after.at(i, j, steps + 1).at_most(current.at(i, j))
    } by {
        assert(current.at(i, j).unit());
    }
}

} // verus!
