//! What a run leaves behind.

use vstd::prelude::*;
use crate::clock::Elapsed;
use crate::field::{addressable, extent, Field3};
use crate::mesh::CylindricalMesh;
use crate::params::SimulationParameters;
use crate::scalar::Scalar;

verus! {

/// Why a history could not be read.
#[derive(Clone, Copy, Debug, PartialEq, Eq, Structural)]
pub enum ResultsError {
    /// Step `step` was asked for and the history ends with step `limit`.
    StepOutOfRange { step: usize, limit: usize },
    /// A field of `nr * ntheta * nz` cells cannot be addressed.
    TooLarge,
}

/// History of the phase fractions.
#[derive(Debug)]
pub struct PhaseChangeInfo {
    /// Melt fraction of every cell at every recorded step.
    pub melt_fraction: Option<Field3>,
    /// Vapor fraction of every cell at every recorded step.
    pub vapor_fraction: Option<Field3>,
    /// Latent energy absorbed in all, in joules.
    pub total_phase_change_energy: Scalar,
}

/// What a run leaves behind.
#[derive(Debug)]
pub struct SimulationResults {
    pub parameters: SimulationParameters,
    pub mesh: CylindricalMesh,
    /// Temperature of every node at every step; plane `0` is the initial
    /// condition and plane `k` the field after `k` steps.
    pub temperature: Field3,
    /// Time that the run took.
    pub execution_time: Elapsed,
    pub phase_change_info: Option<PhaseChangeInfo>,
}

/// How a run ended, with the history up to its last completed step.
#[derive(Debug)]
pub enum RunOutcome {
    /// Every step was taken.
    Completed(SimulationResults),
    /// The observer cancelled the run after step `steps`.
    Cancelled { steps: usize, partial: SimulationResults },
}

/// The parameter set asks for phase fractions to be followed.
pub open spec fn tracks_phases(p: &SimulationParameters) -> bool {
    p.enable_phase_changes && (p.material.melting_point is Some || p.material.vaporization_point
        is Some)
}

impl SimulationResults {
    /// The results are those of `steps` steps: the history has the shape
    /// `(nr, nz, time_steps + 1)`, its plane `0` holds the initial
    /// temperature in every node, and up to plane `steps` every recorded
    /// phase fraction lies in `[0, 1]` and none decreases from one plane to
    /// the next.
    pub open spec fn sound(&self, steps: int) -> bool {
        let p = self.parameters;
        &&& 0 <= steps <= p.time_steps
        &&& self.temperature.rows() == p.nr
        &&& self.temperature.cols() == p.nz
        &&& self.temperature.depth() == p.time_steps + 1
        &&& forall|i: int, j: int|
            0 <= i < p.nr && 0 <= j < p.nz ==> #[trigger] self.temperature.at(i, j, 0)
                == p.initial_temperature
        &&& self.phase_change_info is Some <==> tracks_phases(&p)
        &&& self.phase_change_info matches Some(info) ==> {
            &&& info.melt_fraction is Some
            &&& info.vapor_fraction is Some
            &&& fractions_sound(&info.melt_fraction.unwrap(), p.nr as int, p.nz as int, steps)
            &&& fractions_sound(&info.vapor_fraction.unwrap(), p.nr as int, p.nz as int, steps)
            &&& (Scalar { bits: 0 }).at_most(info.total_phase_change_energy)
        }
    }
}

/// Up to plane `steps` every fraction of the history lies in `[0, 1]` and
/// none decreases from one plane to the next.
pub open spec fn fractions_sound(history: &Field3, nr: int, nz: int, steps: int) -> bool {
    &&& history.rows() == nr
    &&& history.cols() == nz
    &&& steps < history.depth()
    &&& forall|i: int, j: int, k: int|
        0 <= i < nr && 0 <= j < nz && 0 <= k <= steps ==> (#[trigger] history.at(i, j, k)).unit()
    &&& forall|i: int, j: int, k: int|
        0 <= i < nr && 0 <= j < nz && 0 <= k < steps ==> (#[trigger] history.at(i, j, k)).at_most(
            history.at(i, j, k + 1),
        )
}

impl SimulationResults {
    /// The history has the shape that the parameters give it.
    pub open spec fn shaped(&self) -> bool {
        &&& self.temperature.rows() == self.parameters.nr
        &&& self.temperature.cols() == self.parameters.nz
        &&& self.temperature.depth() == self.parameters.time_steps + 1
    }

    /// The temperature field after `time_step` steps, revolved about the
    /// axis: a field of shape `(nr, ntheta, nz)` that holds at `(i, k, j)`
    /// what the history holds at `(i, j, time_step)`, for every angle `k`.
    ///
    /// Every recorded step can be revolved, from the initial condition
    /// (`0`) to the final field (`time_steps`); a later one is refused.
    pub fn generate_3d_temperature(&self, time_step: usize) -> (r: Result<Field3, ResultsError>)
        requires
            self.shaped(),
        ensures
            r is Ok <==> time_step <= self.parameters.time_steps && addressable(
                extent(self.parameters.nr) * extent(self.parameters.ntheta) * extent(
                    self.parameters.nz,
                ),
            ),
            r matches Ok(revolved) ==> {
                &&& revolved.rows() == self.parameters.nr
                &&& revolved.cols() == self.parameters.ntheta
                &&& revolved.depth() == self.parameters.nz
                &&& forall|i: int, k: int, j: int|
                    0 <= i < self.parameters.nr && 0 <= k < self.parameters.ntheta && 0 <= j
                        < self.parameters.nz ==> #[trigger] revolved.at(i, k, j)
                        == self.temperature.at(i, j, time_step as int)
            },
            r matches Err(e) ==> e == if time_step > self.parameters.time_steps {
                ResultsError::StepOutOfRange { step: time_step, limit: self.parameters.time_steps }
            } else {
                ResultsError::TooLarge
            },
    {
        if time_step > self.parameters.time_steps {
            return Err(
                ResultsError::StepOutOfRange { step: time_step, limit: self.parameters.time_steps },
            );
        }
        let nr = self.parameters.nr;
        let nz = self.parameters.nz;
        let ntheta = self.parameters.ntheta;
        let mut revolved = match Field3::filled(nr, ntheta, nz, Scalar::zero()) {
            Some(f) => f,
            None => {
                return Err(ResultsError::TooLarge);
            },
        };
        let mut i: usize = 0;
        while i < nr
            invariant
                i <= nr,
                self.shaped(),
                nr == self.parameters.nr,
                nz == self.parameters.nz,
                ntheta == self.parameters.ntheta,
                time_step <= self.parameters.time_steps,
                revolved.rows() == nr,
                revolved.cols() == ntheta,
                revolved.depth() == nz,
                forall|a: int, k: int, b: int|
                    0 <= a < i && 0 <= k < ntheta && 0 <= b < nz ==> #[trigger] revolved.at(a, k, b)
                        == self.temperature.at(a, b, time_step as int),
            decreases nr - i,
        {
            let mut k: usize = 0;
            while k < ntheta
                invariant
                    i < nr,
                    k <= ntheta,
                    self.shaped(),
                    nr == self.parameters.nr,
                    nz == self.parameters.nz,
                    ntheta == self.parameters.ntheta,
                    time_step <= self.parameters.time_steps,
                    revolved.rows() == nr,
                    revolved.cols() == ntheta,
                    revolved.depth() == nz,
                    forall|a: int, c: int, b: int|
                        ((0 <= a < i && 0 <= c < ntheta) || (a == i && 0 <= c < k)) && 0 <= b < nz
                            ==> #[trigger] revolved.at(a, c, b) == self.temperature.at(
                            a,
                            b,
                            time_step as int,
                        ),
                decreases ntheta - k,
            {
                let mut j: usize = 0;
                while j < nz
                    invariant
                        i < nr,
                        k < ntheta,
                        j <= nz,
                        self.shaped(),
                        nr == self.parameters.nr,
                        nz == self.parameters.nz,
                        ntheta == self.parameters.ntheta,
                        time_step <= self.parameters.time_steps,
                        revolved.rows() == nr,
                        revolved.cols() == ntheta,
                        revolved.depth() == nz,
                        forall|a: int, c: int, b: int|
                            ((0 <= a < i && 0 <= c < ntheta) || (a == i && 0 <= c < k)) && 0 <= b
                                < nz ==> #[trigger] revolved.at(a, c, b) == self.temperature.at(
                                a,
                                b,
                                time_step as int,
                            ),
                        forall|b: int|
                            0 <= b < j ==> #[trigger] revolved.at(i as int, k as int, b)
                                == self.temperature.at(i as int, b, time_step as int),
                    decreases nz - j,
                {
                    let value = self.temperature.get(i, j, time_step);
                    revolved.set(i, k, j, value);
                    j += 1;
                }
                k += 1;
            }
            i += 1;
        }
        Ok(revolved)
    }
}

/// In a sound history a phase fraction never decreases in time: at every
/// node, the fraction at an earlier step is at most the fraction at a
/// later one.
pub proof fn fractions_grow_in_time(
    history: &Field3,
    nr: int,
    nz: int,
    steps: int,
    i: int,
    j: int,
    earlier: int,
    later: int,
)
    requires
        fractions_sound(history, nr, nz, steps),
        0 <= i < nr,
        0 <= j < nz,
        0 <= earlier <= later <= steps,
    ensures
        history.at(i, j, earlier).unit(),
        history.at(i, j, later).unit(),
        history.at(i, j, earlier).at_most(history.at(i, j, later)),
    decreases later - earlier,
{
    assert(history.at(i, j, earlier).unit());
    assert(history.at(i, j, later).unit());
    if earlier < later {
        fractions_grow_in_time(history, nr, nz, steps, i, j, earlier, later - 1);
        assert(history.at(i, j, later - 1).at_most(history.at(i, j, later - 1 + 1)));
    }
}

} // verus!
