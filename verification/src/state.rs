//! The lifecycle of a simulation.
//!
//! ```text
//!             start()             complete(results)
//! NotStarted ────────▶ Running ─────────────────▶ Completed
//!                      │  ▲
//!             pause()  │  │ resume()
//!                      ▼  │
//!                     Paused
//!
//! Running, Paused ── fail(message) ──▶ Failed
//! Running, Paused ── cancel(partial) ─▶ Cancelled
//! ```
//!
//! `Completed`, `Failed` and `Cancelled` are terminal: no operation leaves
//! them.  The state is shared by the caller and the worker that runs the
//! solver; the worker asks the state after every step whether to go on
//! ([`SimulationState::observe`]) and hands it the outcome of the run
//! ([`SimulationState::finish`]).

use vstd::prelude::*;
use std::time::Instant;
use crate::clock::{now, Elapsed};
use crate::params::{rule_text, SimulationParameters};
use crate::progress::Progress;
use crate::results::{RunOutcome, SimulationResults};
use crate::solver::SolverError;
use crate::text::{decimal, with_number};
use crate::torch::PlasmaTorch;

verus! {

/// Where a simulation stands in its lifecycle.
#[derive(Clone, Copy, Debug, PartialEq, Eq, Structural)]
pub enum SimulationStatus {
    NotStarted,
    Running,
    Paused,
    Completed,
    Failed,
    Cancelled,
}

impl SimulationStatus {
    /// No operation leaves this status.
    pub open spec fn terminal(self) -> bool {
        self == SimulationStatus::Completed || self == SimulationStatus::Failed || self
            == SimulationStatus::Cancelled
    }

    /// The worker is at work or held: `Running` or `Paused`.
    pub open spec fn active(self) -> bool {
        self == SimulationStatus::Running || self == SimulationStatus::Paused
    }

    /// Whether no operation leaves this status.
    pub fn is_terminal(self) -> (r: bool)
        ensures
            r == self.terminal(),
    {
        match self {
            SimulationStatus::Completed | SimulationStatus::Failed | SimulationStatus::Cancelled => true,
            _ => false,
        }
    }

    /// Whether the status is `Running` or `Paused`.
    pub fn is_active(self) -> (r: bool)
        ensures
            r == self.active(),
    {
        match self {
            SimulationStatus::Running | SimulationStatus::Paused => true,
            _ => false,
        }
    }
}

/// An operation on the lifecycle.
#[derive(Clone, Copy, Debug, PartialEq, Eq, Structural)]
pub enum Operation {
    Start,
    Pause,
    Resume,
    Complete,
    Fail,
    Cancel,
}

/// The operation `operation` was asked for in the status `found`, which does
/// not admit it.
#[derive(Clone, Copy, Debug, PartialEq, Eq, Structural)]
pub struct WrongState {
    pub operation: Operation,
    pub found: SimulationStatus,
}

/// The status from which `operation` may be taken.
pub open spec fn admits(status: SimulationStatus, operation: Operation) -> bool {
    match operation {
        Operation::Start => status == SimulationStatus::NotStarted,
        Operation::Pause => status == SimulationStatus::Running,
        Operation::Resume => status == SimulationStatus::Paused,
        Operation::Complete => status == SimulationStatus::Running,
        Operation::Fail => status.active(),
        Operation::Cancel => status.active(),
    }
}

/// The status that `operation` leads to.
pub open spec fn target(operation: Operation) -> SimulationStatus {
    match operation {
        Operation::Start => SimulationStatus::Running,
        Operation::Pause => SimulationStatus::Paused,
        Operation::Resume => SimulationStatus::Running,
        Operation::Complete => SimulationStatus::Completed,
        Operation::Fail => SimulationStatus::Failed,
        Operation::Cancel => SimulationStatus::Cancelled,
    }
}

/// The message of a refusal.
pub open spec fn wrong_state_text(refusal: WrongState) -> Seq<char> {
    match refusal.operation {
        Operation::Start => "Simulação já foi iniciada"@,
        Operation::Pause => "Simulação não está em execução"@,
        Operation::Resume => "Simulação não está pausada"@,
        Operation::Complete => "Simulação não está em execução"@,
        Operation::Fail => "Simulação não está em execução nem pausada"@,
        Operation::Cancel => "Simulação não está em execução nem pausada"@,
    }
}

impl WrongState {
    /// The message of the refusal.
    pub fn message(&self) -> (text: String)
        ensures
            text@ == wrong_state_text(*self),
    {
        match self.operation {
            Operation::Start => "Simulação já foi iniciada".to_owned(),
            Operation::Pause => "Simulação não está em execução".to_owned(),
            Operation::Resume => "Simulação não está pausada".to_owned(),
            Operation::Complete => "Simulação não está em execução".to_owned(),
            Operation::Fail => "Simulação não está em execução nem pausada".to_owned(),
            Operation::Cancel => "Simulação não está em execução nem pausada".to_owned(),
        }
    }
}

/// The message that a failed run leaves in the state, for a run with the
/// torches `torches`.
pub open spec fn failure_text(error: SolverError, torches: Seq<PlasmaTorch>) -> Seq<char> {
    match error {
        SolverError::NumericalInstability { step } => "numerical instability at step "@ + decimal(
            step as nat,
        ),
        SolverError::Invalid(rule) => rule_text(rule, torches),
        SolverError::TooLarge => "the history does not fit in memory"@,
        SolverError::ZoneShape { .. } => "the zone map does not have the shape of the mesh"@,
        SolverError::StepUnavailable { step, .. } => "no record of step "@ + decimal(step as nat),
    }
}

/// The message that a failed run leaves in the state.
pub fn failure_message(error: SolverError, torches: &Vec<PlasmaTorch>) -> (text: String)
    ensures
        text@ == failure_text(error, torches@),
{
    match error {
        SolverError::NumericalInstability { step } => with_number(
            "numerical instability at step ",
            step,
        ),
        SolverError::Invalid(rule) => rule.message(torches),
        SolverError::TooLarge => "the history does not fit in memory".to_owned(),
        SolverError::ZoneShape { .. } => "the zone map does not have the shape of the mesh".to_owned(),
        SolverError::StepUnavailable { step, .. } => with_number("no record of step ", step),
    }
}

/// What the worker does next.
#[derive(Clone, Copy, Debug, PartialEq, Eq, Structural)]
pub enum WorkerAction {
    /// Take the next step.
    Proceed,
    /// The run is paused: wait a moment and ask again.
    Wait,
    /// Stop: cancellation was requested, or the run is over.
    Stop,
}

/// What the worker does in a state with this status and this cancellation
/// flag: it stops when cancellation was requested or the run is not
/// active, waits while the run is paused, and proceeds otherwise.
pub open spec fn next_action(status: SimulationStatus, cancel_requested: bool) -> WorkerAction {
    if cancel_requested || !status.active() {
        WorkerAction::Stop
    } else if status == SimulationStatus::Paused {
        WorkerAction::Wait
    } else {
        WorkerAction::Proceed
    }
}

/// The flat record of a state: what a caller reads of it at a glance.
#[derive(Debug)]
pub struct StateSnapshot {
    pub status: SimulationStatus,
    pub progress: Progress,
    pub error_message: Option<String>,
    pub execution_time: Elapsed,
}

/// The state of a simulation.
#[derive(Debug)]
pub struct SimulationState {
    pub parameters: SimulationParameters,
    pub status: SimulationStatus,
    /// The progress last published by the worker.
    pub progress: Progress,
    pub error_message: Option<String>,
    /// The results of the run; present exactly in `Completed`.
    pub results: Option<SimulationResults>,
    /// The history of a cancelled run up to its last completed step.
    pub partial_results: Option<SimulationResults>,
    /// The step after which a cancelled run ended.
    pub last_completed_step: usize,
    pub start_time: Option<Instant>,
    /// The time the run took, set when it ends.
    pub execution_time: Elapsed,
    /// Cancellation was requested; once set the flag stays.
    pub cancel_requested: bool,
}

impl SimulationState {
    /// The state with another status and everything else as it is.
    pub open spec fn with_status(self, status: SimulationStatus) -> SimulationState {
        SimulationState { status, ..self }
    }

    /// What `pause` makes of the state: the paused state, or the refusal.
    pub open spec fn paused(self) -> Result<SimulationState, WrongState> {
        if admits(self.status, Operation::Pause) {
            Ok(self.with_status(SimulationStatus::Paused))
        } else {
            Err(WrongState { operation: Operation::Pause, found: self.status })
        }
    }

    /// What `resume` makes of the state: the running state, or the refusal.
    pub open spec fn resumed(self) -> Result<SimulationState, WrongState> {
        if admits(self.status, Operation::Resume) {
            Ok(self.with_status(SimulationStatus::Running))
        } else {
            Err(WrongState { operation: Operation::Resume, found: self.status })
        }
    }

    /// The progress that the state shows once `progress` is published.
    ///
    /// Progress is published while the run is active, never falls, and is
    /// full only once the run is completed: a progress below the one shown,
    /// and the full progress, are not taken.
    pub open spec fn published(self, progress: Progress) -> Progress {
        if self.status.active() && self.progress.at_most(progress) && !progress.complete() {
            progress
        } else {
            self.progress
        }
    }

    /// The fields of the state fit its status.
    pub open spec fn consistent(&self) -> bool {
        &&& self.progress.proper()
        &&& self.results is Some <==> self.status == SimulationStatus::Completed
        &&& self.partial_results is Some ==> self.status == SimulationStatus::Cancelled
        &&& self.status == SimulationStatus::Completed <==> self.progress.complete()
        &&& self.status == SimulationStatus::Failed ==> self.error_message is Some
        &&& self.status == SimulationStatus::NotStarted ==> self.progress.nothing()
            && self.start_time is None
    }

    /// A state for `parameters`, not started.
    pub fn new(parameters: SimulationParameters) -> (state: SimulationState)
        ensures
            state.parameters == parameters,
            state.status == SimulationStatus::NotStarted,
            state.progress == (Progress { completed: 0, total: 1 }),
            state.error_message is None,
            state.results is None,
            state.partial_results is None,
            state.last_completed_step == 0,
            state.start_time is None,
            state.execution_time == (Elapsed { seconds: 0, nanoseconds: 0 }),
            !state.cancel_requested,
            state.consistent(),
    {
        SimulationState {
            parameters,
            status: SimulationStatus::NotStarted,
            progress: Progress::none(),
            error_message: None,
            results: None,
            partial_results: None,
            last_completed_step: 0,
            start_time: None,
            execution_time: Elapsed::zero(),
            cancel_requested: false,
        }
    }

    /// Starts the run at the instant `at`: legal only from `NotStarted`.
    pub fn start_at(&mut self, at: Instant) -> (r: Result<(), WrongState>)
        ensures
            r is Ok <==> old(self).status == SimulationStatus::NotStarted,
            r is Ok ==> *final(self) == (SimulationState {
                status: SimulationStatus::Running,
                progress: Progress { completed: 0, total: 1 },
                error_message: None,
                start_time: Some(at),
                ..*old(self)
            }),
            r matches Err(e) ==> *final(self) == *old(self) && e == (WrongState {
                operation: Operation::Start,
                found: old(self).status,
            }),
            old(self).consistent() ==> final(self).consistent(),
    {
        match self.status {
            SimulationStatus::NotStarted => {},
            found => {
                return Err(WrongState { operation: Operation::Start, found });
            },
        }
        self.status = SimulationStatus::Running;
        self.progress = Progress::none();
        self.error_message = None;
        self.start_time = Some(at);
        Ok(())
    }

    /// Starts the run now: legal only from `NotStarted`.
    pub fn start(&mut self) -> (r: Result<(), WrongState>)
        ensures
            r is Ok <==> old(self).status == SimulationStatus::NotStarted,
            r is Ok ==> final(self).start_time is Some && *final(self) == (SimulationState {
                status: SimulationStatus::Running,
                progress: Progress { completed: 0, total: 1 },
                error_message: None,
                start_time: final(self).start_time,
                ..*old(self)
            }),
            r matches Err(e) ==> *final(self) == *old(self) && e == (WrongState {
                operation: Operation::Start,
                found: old(self).status,
            }),
            old(self).consistent() ==> final(self).consistent(),
    {
        match self.status {
            SimulationStatus::NotStarted => {},
            found => {
                return Err(WrongState { operation: Operation::Start, found });
            },
        }
        self.start_at(now())
    }

    /// Pauses the run: legal only from `Running`.
    pub fn pause(&mut self) -> (r: Result<(), WrongState>)
        ensures
            r is Ok <==> old(self).status == SimulationStatus::Running,
            match old(self).paused() {
                Ok(next) => r is Ok && *final(self) == next,
                Err(e) => r == Err::<(), WrongState>(e) && *final(self) == *old(self),
            },
            old(self).consistent() ==> final(self).consistent(),
    {
        match self.status {
            SimulationStatus::Running => {},
            found => {
                return Err(WrongState { operation: Operation::Pause, found });
            },
        }
        self.status = SimulationStatus::Paused;
        Ok(())
    }

    /// Resumes the run: legal only from `Paused`.
    pub fn resume(&mut self) -> (r: Result<(), WrongState>)
        ensures
            r is Ok <==> old(self).status == SimulationStatus::Paused,
            match old(self).resumed() {
                Ok(next) => r is Ok && *final(self) == next,
                Err(e) => r == Err::<(), WrongState>(e) && *final(self) == *old(self),
            },
            old(self).consistent() ==> final(self).consistent(),
    {
        match self.status {
            SimulationStatus::Paused => {},
            found => {
                return Err(WrongState { operation: Operation::Resume, found });
            },
        }
        self.status = SimulationStatus::Running;
        Ok(())
    }

    /// Asks the worker to stop at its next observation.  The flag, once
    /// set, stays; a run that is over is left as it is.
    pub fn request_cancellation(&mut self)
        ensures
            *final(self) == (SimulationState {
                cancel_requested: old(self).cancel_requested || !old(self).status.terminal(),
                ..*old(self)
            }),
            old(self).consistent() ==> final(self).consistent(),
    {
        if !self.status.is_terminal() {
            self.cancel_requested = true;
        }
    }

    /// Publishes the progress of the run, unless the run is not active, the
    /// progress is below the one shown, or it is full: the full progress is
    /// shown by a completed run alone.
    pub fn update_progress(&mut self, progress: Progress)
        requires
            progress.proper(),
        ensures
            *final(self) == (SimulationState {
                progress: old(self).published(progress),
                ..*old(self)
            }),
            old(self).progress.at_most(final(self).progress),
            old(self).consistent() ==> final(self).consistent(),
    {
        if self.status.is_active() && self.progress.le(progress) && !progress.is_complete() {
            self.progress = progress;
        }
    }

    /// Ends the run with `results` after the time `elapsed`: legal only from
    /// `Running`.
    pub fn complete_after(&mut self, results: SimulationResults, elapsed: Elapsed) -> (r: Result<
        (),
        WrongState,
    >)
        ensures
            r is Ok <==> old(self).status == SimulationStatus::Running,
            r is Ok ==> *final(self) == (SimulationState {
                status: SimulationStatus::Completed,
                progress: Progress { completed: 1, total: 1 },
                results: Some(results),
                execution_time: elapsed,
                ..*old(self)
            }),
            r matches Err(e) ==> *final(self) == *old(self) && e == (WrongState {
                operation: Operation::Complete,
                found: old(self).status,
            }),
            old(self).consistent() ==> final(self).consistent(),
    {
        match self.status {
            SimulationStatus::Running => {},
            found => {
                return Err(WrongState { operation: Operation::Complete, found });
            },
        }
        self.status = SimulationStatus::Completed;
        self.progress = Progress::full();
        self.results = Some(results);
        self.execution_time = elapsed;
        Ok(())
    }

    /// Ends the run with `results`: legal only from `Running`.  The time
    /// since the start is recorded as the time of the run.
    pub fn complete(&mut self, results: SimulationResults) -> (r: Result<(), WrongState>)
        ensures
            r is Ok <==> old(self).status == SimulationStatus::Running,
            r is Ok ==> *final(self) == (SimulationState {
                status: SimulationStatus::Completed,
                progress: Progress { completed: 1, total: 1 },
                results: Some(results),
                execution_time: final(self).execution_time,
                ..*old(self)
            }),
            r matches Err(e) ==> *final(self) == *old(self) && e == (WrongState {
                operation: Operation::Complete,
                found: old(self).status,
            }),
            old(self).consistent() ==> final(self).consistent(),
    {
        let elapsed = self.elapsed();
        self.complete_after(results, elapsed)
    }

    /// Ends the run as failed with `error_message` after the time
    /// `elapsed`: legal from `Running` and `Paused`.
    pub fn fail_after(&mut self, error_message: String, elapsed: Elapsed) -> (r: Result<
        (),
        WrongState,
    >)
        ensures
            r is Ok <==> old(self).status.active(),
            r is Ok ==> *final(self) == (SimulationState {
                status: SimulationStatus::Failed,
                error_message: Some(error_message),
                execution_time: elapsed,
                ..*old(self)
            }),
            r matches Err(e) ==> *final(self) == *old(self) && e == (WrongState {
                operation: Operation::Fail,
                found: old(self).status,
            }),
            old(self).consistent() ==> final(self).consistent(),
    {
        if !self.status.is_active() {
            return Err(WrongState { operation: Operation::Fail, found: self.status });
        }
        self.status = SimulationStatus::Failed;
        self.error_message = Some(error_message);
        self.execution_time = elapsed;
        Ok(())
    }

    /// Ends the run as failed with `error_message`: legal from `Running` and
    /// `Paused`.  The time since the start is recorded as the time of the
    /// run.
    pub fn fail(&mut self, error_message: String) -> (r: Result<(), WrongState>)
        ensures
            r is Ok <==> old(self).status.active(),
            r is Ok ==> *final(self) == (SimulationState {
                status: SimulationStatus::Failed,
                error_message: Some(error_message),
                execution_time: final(self).execution_time,
                ..*old(self)
            }),
            r matches Err(e) ==> *final(self) == *old(self) && e == (WrongState {
                operation: Operation::Fail,
                found: old(self).status,
            }),
            old(self).consistent() ==> final(self).consistent(),
    {
        let elapsed = self.elapsed();
        self.fail_after(error_message, elapsed)
    }

    /// Ends the run as cancelled after step `steps` and the time
    /// `elapsed`, keeping the history up to that step: legal from `Running`
    /// and `Paused`.
    pub fn cancel_after(
        &mut self,
        steps: usize,
        partial: Option<SimulationResults>,
        elapsed: Elapsed,
    ) -> (r: Result<(), WrongState>)
        ensures
            r is Ok <==> old(self).status.active(),
            r is Ok ==> *final(self) == (SimulationState {
                status: SimulationStatus::Cancelled,
                partial_results: partial,
                last_completed_step: steps,
                execution_time: elapsed,
                ..*old(self)
            }),
            r matches Err(e) ==> *final(self) == *old(self) && e == (WrongState {
                operation: Operation::Cancel,
                found: old(self).status,
            }),
            old(self).consistent() ==> final(self).consistent(),
    {
        if !self.status.is_active() {
            return Err(WrongState { operation: Operation::Cancel, found: self.status });
        }
        self.status = SimulationStatus::Cancelled;
        self.partial_results = partial;
        self.last_completed_step = steps;
        self.execution_time = elapsed;
        Ok(())
    }

    /// Ends the run as cancelled after step `steps`, keeping the history up
    /// to that step: legal from `Running` and `Paused`.  The time since the
    /// start is recorded as the time of the run.
    pub fn cancel(&mut self, steps: usize, partial: Option<SimulationResults>) -> (r: Result<
        (),
        WrongState,
    >)
        ensures
            r is Ok <==> old(self).status.active(),
            r is Ok ==> *final(self) == (SimulationState {
                status: SimulationStatus::Cancelled,
                partial_results: partial,
                last_completed_step: steps,
                execution_time: final(self).execution_time,
                ..*old(self)
            }),
            r matches Err(e) ==> *final(self) == *old(self) && e == (WrongState {
                operation: Operation::Cancel,
                found: old(self).status,
            }),
            old(self).consistent() ==> final(self).consistent(),
    {
        let elapsed = self.elapsed();
        self.cancel_after(steps, partial, elapsed)
    }

    /// The time since the start of the run, or the recorded time of a run
    /// that never started.
    fn elapsed(&self) -> (elapsed: Elapsed)
        ensures
            self.start_time is None ==> elapsed == self.execution_time,
    {
        match &self.start_time {
            Some(start) => Elapsed::since(start),
            None => self.execution_time,
        }
    }

    /// Whether the run is completed.
    pub fn is_completed(&self) -> (r: bool)
        ensures
            r == (self.status == SimulationStatus::Completed),
    {
        self.status == SimulationStatus::Completed
    }

    /// Whether the run has failed.
    pub fn is_failed(&self) -> (r: bool)
        ensures
            r == (self.status == SimulationStatus::Failed),
    {
        self.status == SimulationStatus::Failed
    }

    /// Whether the run was cancelled.
    pub fn is_cancelled(&self) -> (r: bool)
        ensures
            r == (self.status == SimulationStatus::Cancelled),
    {
        self.status == SimulationStatus::Cancelled
    }

    /// The results of the run, if it is completed.
    pub fn get_results(&self) -> (r: Option<&SimulationResults>)
        ensures
            r is Some == self.results is Some,
            r matches Some(results) ==> *results == self.results.unwrap(),
    {
        self.results.as_ref()
    }

    /// The flat record of the state.
    pub fn snapshot(&self) -> (s: StateSnapshot)
        ensures
            s.status == self.status,
            s.progress == self.progress,
            s.error_message == self.error_message,
            s.execution_time == self.execution_time,
    {
        StateSnapshot {
            status: self.status,
            progress: self.progress,
            error_message: self.error_message.clone(),
            execution_time: self.execution_time,
        }
    }

    /// Starts the run for the worker: the state goes to `Running` and the
    /// worker gets its own copy of the parameters, so that later changes of
    /// the state's parameters do not reach it.
    pub fn begin_run(&mut self) -> (r: Result<SimulationParameters, WrongState>)
        ensures
            r is Ok <==> old(self).status == SimulationStatus::NotStarted,
            r matches Ok(p) ==> p.same_as(&old(self).parameters) && final(self).start_time is Some
                && *final(self) == (SimulationState {
                status: SimulationStatus::Running,
                progress: Progress { completed: 0, total: 1 },
                error_message: None,
                start_time: final(self).start_time,
                ..*old(self)
            }),
            r matches Err(e) ==> *final(self) == *old(self) && e == (WrongState {
                operation: Operation::Start,
                found: old(self).status,
            }),
            old(self).consistent() ==> final(self).consistent(),
    {
        let snapshot = self.parameters.duplicate();
        match self.start() {
            Ok(()) => Ok(snapshot),
            Err(e) => Err(e),
        }
    }

    /// What the worker does next, without a change of the state.
    pub fn poll(&self) -> (action: WorkerAction)
        ensures
            action == next_action(self.status, self.cancel_requested),
    {
        if self.cancel_requested || !self.status.is_active() {
            WorkerAction::Stop
        } else if self.status == SimulationStatus::Paused {
            WorkerAction::Wait
        } else {
            WorkerAction::Proceed
        }
    }

    /// The worker has taken a step: publishes `progress` as
    /// [`SimulationState::update_progress`] does, and tells the worker what
    /// to do next.
    pub fn observe(&mut self, progress: Progress) -> (action: WorkerAction)
        requires
            progress.proper(),
        ensures
            action == next_action(old(self).status, old(self).cancel_requested),
            *final(self) == (SimulationState {
                progress: old(self).published(progress),
                ..*old(self)
            }),
            old(self).progress.at_most(final(self).progress),
            old(self).consistent() ==> final(self).consistent(),
    {
        self.update_progress(progress);
        self.poll()
    }

    /// The worker is done: a completed run completes the state, a cancelled
    /// run cancels it with the history up to its last step, and a failed run
    /// fails it with the message of the failure.  A state that does not
    /// admit the operation is left as it is.
    pub fn finish(&mut self, outcome: Result<RunOutcome, SolverError>) -> (r: Result<(), WrongState>)
        ensures
            r is Ok <==> admits(old(self).status, finishing(outcome)),
            r is Err ==> *final(self) == *old(self),
            r matches Err(e) ==> e == (WrongState {
                operation: finishing(outcome),
                found: old(self).status,
            }),
            r is Ok ==> final(self).status == target(finishing(outcome)) && match outcome {
                Ok(RunOutcome::Completed(results)) => *final(self) == (SimulationState {
                    status: SimulationStatus::Completed,
                    progress: Progress { completed: 1, total: 1 },
                    results: Some(results),
                    execution_time: final(self).execution_time,
                    ..*old(self)
                }),
                Ok(RunOutcome::Cancelled { steps, partial }) => *final(self) == (SimulationState {
                    status: SimulationStatus::Cancelled,
                    partial_results: Some(partial),
                    last_completed_step: steps,
                    execution_time: final(self).execution_time,
                    ..*old(self)
                }),
                Err(error) => {
                    &&& final(self).error_message is Some
                    &&& final(self).error_message.unwrap()@ == failure_text(
                        error,
                        old(self).parameters.torches@,
                    )
                    &&& *final(self) == (SimulationState {
                        status: SimulationStatus::Failed,
                        error_message: final(self).error_message,
                        execution_time: final(self).execution_time,
                        ..*old(self)
                    })
                },
            },
            old(self).consistent() ==> final(self).consistent(),
    {
        match outcome {
            Ok(RunOutcome::Completed(results)) => self.complete(results),
            Ok(RunOutcome::Cancelled { steps, partial }) => self.cancel(steps, Some(partial)),
            Err(error) => {
                let text = failure_message(error, &self.parameters.torches);
                self.fail(text)
            },
        }
    }
}

/// The operation by which the worker hands in an outcome.
pub open spec fn finishing(outcome: Result<RunOutcome, SolverError>) -> Operation {
    match outcome {
        Ok(RunOutcome::Completed(_)) => Operation::Complete,
        Ok(RunOutcome::Cancelled { .. }) => Operation::Cancel,
        Err(_) => Operation::Fail,
    }
}

/// A pause asked for twice is refused the second time, and a paused state
/// that is resumed and paused again is the state it was: nothing that the
/// state records of the run has moved.
pub proof fn pause_is_not_repeated(s: SimulationState)
    requires
        s.status == SimulationStatus::Paused,
    ensures
        s.paused() == Err::<SimulationState, WrongState>(
            WrongState { operation: Operation::Pause, found: SimulationStatus::Paused },
        ),
        s.resumed() is Ok,
        s.resumed().unwrap().paused() == Ok::<SimulationState, WrongState>(s),
{
}

/// No operation leaves a terminal status.
pub proof fn terminal_is_absorbing(status: SimulationStatus, operation: Operation)
    requires
        status.terminal(),
    ensures
        !admits(status, operation),
{
}

/// A consistent state shows the full progress exactly when it is
/// completed, and it has results exactly then.
pub proof fn completed_shows_full_progress(s: SimulationState)
    requires
        s.consistent(),
    ensures
        s.status == SimulationStatus::Completed <==> s.progress.complete(),
        s.status == SimulationStatus::Completed <==> s.results is Some,
{
}

/// Whatever is published, the progress that a state shows does not fall,
/// and it is not full before the run is completed.
pub proof fn published_progress_never_falls(s: SimulationState, progress: Progress)
    requires
        s.consistent(),
    ensures
        s.progress.at_most(s.published(progress)),
        s.published(progress).complete() ==> s.status == SimulationStatus::Completed,
{
}

} // verus!
