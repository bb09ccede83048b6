use plasma_furnace::clock::Elapsed;
use plasma_furnace::params::{SimulationParameters, ValidationError};
use plasma_furnace::progress::Progress;
use plasma_furnace::scalar::Scalar;
use plasma_furnace::solver::SolverError;
use plasma_furnace::state::{failure_message, Operation, SimulationState, SimulationStatus, WorkerAction, WrongState};
use plasma_furnace::torch::PlasmaTorch;

fn s(x: f64) -> Scalar {
    Scalar::from_bits(x.to_bits())
}

fn fresh() -> SimulationState {
    let mut params = SimulationParameters::new(s(1.0), s(0.5), 10, 20);
    params.add_torch(PlasmaTorch::new(
        "torch1",
        s(0.0),
        s(0.0),
        s(90.0),
        s(0.0),
        s(100.0),
        s(0.01),
        s(5000.0),
    ));
    SimulationState::new(params)
}

fn half() -> Progress {
    Progress::of(1, 2).unwrap()
}

#[test]
fn test_simulation_state() {
    let mut state = fresh();

    assert_eq!(state.status, SimulationStatus::NotStarted);
    assert_eq!(state.progress, Progress::none());
    assert!(state.error_message.is_none());
    assert!(state.results.is_none());

    assert!(state.start().is_ok());
    assert_eq!(state.status, SimulationStatus::Running);

    state.update_progress(half());
    assert_eq!(state.progress, half());
    assert_eq!(state.progress.completed as f32 / state.progress.total as f32, 0.5);

    assert!(state.pause().is_ok());
    assert_eq!(state.status, SimulationStatus::Paused);

    assert!(state.resume().is_ok());
    assert_eq!(state.status, SimulationStatus::Running);

    assert!(state.fail("Erro de teste".to_string()).is_ok());
    assert_eq!(state.status, SimulationStatus::Failed);
    assert_eq!(state.error_message, Some("Erro de teste".to_string()));
    assert!(state.is_failed());
}

#[test]
fn a_fresh_state_has_nothing_to_show() {
    let state = fresh();
    assert!(!state.is_completed());
    assert!(!state.is_failed());
    assert!(!state.is_cancelled());
    assert!(state.get_results().is_none());
    assert!(state.partial_results.is_none());
    assert!(state.start_time.is_none());
    assert!(!state.cancel_requested);
    assert_eq!(state.last_completed_step, 0);
    assert_eq!(state.parameters.nr, 10);
    let snapshot = state.snapshot();
    assert_eq!(snapshot.status, SimulationStatus::NotStarted);
    assert_eq!(snapshot.progress, Progress::none());
    assert!(snapshot.error_message.is_none());
    assert_eq!(snapshot.execution_time, Elapsed { seconds: 0, nanoseconds: 0 });
}

#[test]
fn start_is_legal_only_once() {
    let mut state = fresh();
    assert_eq!(state.start(), Ok(()));
    assert!(state.start_time.is_some());
    assert_eq!(
        state.start(),
        Err(WrongState { operation: Operation::Start, found: SimulationStatus::Running })
    );
    assert_eq!(state.pause(), Ok(()));
    assert_eq!(
        state.start(),
        Err(WrongState { operation: Operation::Start, found: SimulationStatus::Paused })
    );
    assert_eq!(state.status, SimulationStatus::Paused);
}

#[test]
fn start_resets_progress_and_error() {
    let mut state = fresh();
    state.error_message = Some("old".to_string());
    state.progress = half();
    assert_eq!(state.start(), Ok(()));
    assert_eq!(state.progress, Progress::none());
    assert!(state.error_message.is_none());
}

#[test]
fn pause_in_paused_is_refused() {
    let mut state = fresh();
    assert_eq!(
        state.pause(),
        Err(WrongState { operation: Operation::Pause, found: SimulationStatus::NotStarted })
    );
    state.start().unwrap();
    state.update_progress(half());
    assert_eq!(state.pause(), Ok(()));
    assert_eq!(
        state.pause(),
        Err(WrongState { operation: Operation::Pause, found: SimulationStatus::Paused })
    );
    assert_eq!(state.status, SimulationStatus::Paused);
    assert_eq!(state.progress, half());
}

#[test]
fn resume_then_pause_leaves_the_progress_where_it_was() {
    let mut state = fresh();
    state.start().unwrap();
    state.update_progress(Progress::of(3, 10).unwrap());
    state.pause().unwrap();
    assert_eq!(state.resume(), Ok(()));
    assert_eq!(state.pause(), Ok(()));
    assert_eq!(state.status, SimulationStatus::Paused);
    assert_eq!(state.progress, Progress::of(3, 10).unwrap());
    assert!(!state.cancel_requested);
}

#[test]
fn resume_is_legal_only_when_paused() {
    let mut state = fresh();
    assert_eq!(
        state.resume(),
        Err(WrongState { operation: Operation::Resume, found: SimulationStatus::NotStarted })
    );
    state.start().unwrap();
    assert_eq!(
        state.resume(),
        Err(WrongState { operation: Operation::Resume, found: SimulationStatus::Running })
    );
}

#[test]
fn fail_is_legal_from_running_and_paused() {
    let mut state = fresh();
    assert_eq!(
        state.fail("x".to_string()),
        Err(WrongState { operation: Operation::Fail, found: SimulationStatus::NotStarted })
    );
    assert!(state.error_message.is_none());
    state.start().unwrap();
    state.pause().unwrap();
    assert_eq!(state.fail("boom".to_string()), Ok(()));
    assert_eq!(state.status, SimulationStatus::Failed);
    assert_eq!(state.error_message.as_deref(), Some("boom"));
    assert!(state.results.is_none());
}

#[test]
fn cancel_is_legal_from_running_and_paused() {
    let mut state = fresh();
    assert_eq!(
        state.cancel(0, None),
        Err(WrongState { operation: Operation::Cancel, found: SimulationStatus::NotStarted })
    );
    state.start().unwrap();
    assert_eq!(state.cancel(4, None), Ok(()));
    assert_eq!(state.status, SimulationStatus::Cancelled);
    assert_eq!(state.last_completed_step, 4);
    assert!(state.is_cancelled());
    assert!(state.error_message.is_none());
}

#[test]
fn terminal_states_are_absorbing() {
    let mut failed = fresh();
    failed.start().unwrap();
    failed.fail("boom".to_string()).unwrap();
    let mut cancelled = fresh();
    cancelled.start().unwrap();
    cancelled.cancel(1, None).unwrap();
    for (state, status) in
        [(&mut failed, SimulationStatus::Failed), (&mut cancelled, SimulationStatus::Cancelled)]
    {
        assert!(status.is_terminal());
        assert_eq!(state.start(), Err(WrongState { operation: Operation::Start, found: status }));
        assert_eq!(state.pause(), Err(WrongState { operation: Operation::Pause, found: status }));
        assert_eq!(state.resume(), Err(WrongState { operation: Operation::Resume, found: status }));
        assert_eq!(
            state.fail("again".to_string()),
            Err(WrongState { operation: Operation::Fail, found: status })
        );
        assert_eq!(
            state.cancel(9, None),
            Err(WrongState { operation: Operation::Cancel, found: status })
        );
        state.request_cancellation();
        assert_eq!(state.status, status);
    }
    assert_eq!(failed.error_message.as_deref(), Some("boom"));
    assert!(!failed.cancel_requested);
    assert_eq!(cancelled.last_completed_step, 1);
}

#[test]
fn statuses_know_whether_they_are_terminal() {
    assert!(!SimulationStatus::NotStarted.is_terminal());
    assert!(!SimulationStatus::Running.is_terminal());
    assert!(!SimulationStatus::Paused.is_terminal());
    assert!(SimulationStatus::Completed.is_terminal());
    assert!(SimulationStatus::Failed.is_terminal());
    assert!(SimulationStatus::Cancelled.is_terminal());
    assert!(!SimulationStatus::NotStarted.is_active());
    assert!(SimulationStatus::Running.is_active());
    assert!(SimulationStatus::Paused.is_active());
    assert!(!SimulationStatus::Completed.is_active());
}

#[test]
fn cancellation_is_latched() {
    let mut state = fresh();
    state.request_cancellation();
    assert!(state.cancel_requested);
    assert_eq!(state.status, SimulationStatus::NotStarted);
    state.start().unwrap();
    assert!(state.cancel_requested);
    state.pause().unwrap();
    state.request_cancellation();
    assert!(state.cancel_requested);
    assert_eq!(state.status, SimulationStatus::Paused);
}

#[test]
fn the_worker_is_told_what_to_do() {
    let mut state = fresh();
    assert_eq!(state.poll(), WorkerAction::Stop);
    state.start().unwrap();
    assert_eq!(state.poll(), WorkerAction::Proceed);
    assert_eq!(state.observe(Progress::of(1, 4).unwrap()), WorkerAction::Proceed);
    assert_eq!(state.progress, Progress::of(1, 4).unwrap());
    state.pause().unwrap();
    assert_eq!(state.observe(Progress::of(2, 4).unwrap()), WorkerAction::Wait);
    assert_eq!(state.progress, Progress::of(2, 4).unwrap());
    assert_eq!(state.poll(), WorkerAction::Wait);
    state.resume().unwrap();
    assert_eq!(state.poll(), WorkerAction::Proceed);
    state.request_cancellation();
    assert_eq!(state.observe(Progress::of(3, 4).unwrap()), WorkerAction::Stop);
    assert_eq!(state.progress, Progress::of(3, 4).unwrap());
    state.cancel(3, None).unwrap();
    assert_eq!(state.observe(Progress::of(4, 4).unwrap()), WorkerAction::Stop);
    assert_eq!(state.progress, Progress::of(3, 4).unwrap());
}

#[test]
fn a_paused_run_that_is_cancelled_stops() {
    let mut state = fresh();
    state.start().unwrap();
    state.pause().unwrap();
    state.request_cancellation();
    assert_eq!(state.poll(), WorkerAction::Stop);
}

#[test]
fn begin_run_hands_out_a_copy_of_the_parameters() {
    let mut state = fresh();
    let snapshot = state.begin_run().unwrap();
    assert_eq!(state.status, SimulationStatus::Running);
    assert_eq!(snapshot.nr, 10);
    assert_eq!(snapshot.torches.len(), 1);
    state.parameters.nr = 99;
    assert_eq!(snapshot.nr, 10);
    assert_eq!(
        state.begin_run().err(),
        Some(WrongState { operation: Operation::Start, found: SimulationStatus::Running })
    );
}

#[test]
fn a_failed_run_leaves_its_message() {
    let mut state = fresh();
    state.start().unwrap();
    assert_eq!(state.finish(Err(SolverError::NumericalInstability { step: 17 })), Ok(()));
    assert_eq!(state.status, SimulationStatus::Failed);
    assert_eq!(state.error_message.as_deref(), Some("numerical instability at step 17"));
    assert_eq!(
        state.finish(Err(SolverError::TooLarge)),
        Err(WrongState { operation: Operation::Fail, found: SimulationStatus::Failed })
    );
    assert_eq!(state.error_message.as_deref(), Some("numerical instability at step 17"));
}

#[test]
fn failures_have_their_messages() {
    assert_eq!(
        failure_message(SolverError::NumericalInstability { step: 0 }, &vec![]),
        "numerical instability at step 0"
    );
    assert_eq!(
        failure_message(SolverError::Invalid(ValidationError::NoTorches), &vec![]),
        "Pelo menos uma tocha deve ser definida"
    );
    assert_eq!(
        failure_message(SolverError::TooLarge, &vec![]),
        "the history does not fit in memory"
    );
    assert_eq!(
        failure_message(SolverError::ZoneShape { rows: 1, cols: 2 }, &vec![]),
        "the zone map does not have the shape of the mesh"
    );
    assert_eq!(
        failure_message(SolverError::StepUnavailable { step: 5, available: 2 }, &vec![]),
        "no record of step 5"
    );
}

#[test]
fn refusals_have_their_messages() {
    let at = |operation| WrongState { operation, found: SimulationStatus::Completed }.message();
    assert_eq!(at(Operation::Start), "Simulação já foi iniciada");
    assert_eq!(at(Operation::Pause), "Simulação não está em execução");
    assert_eq!(at(Operation::Resume), "Simulação não está pausada");
    assert_eq!(at(Operation::Complete), "Simulação não está em execução");
    assert_eq!(at(Operation::Fail), "Simulação não está em execução nem pausada");
    assert_eq!(at(Operation::Cancel), "Simulação não está em execução nem pausada");
}

#[test]
fn progress_is_a_fraction_between_zero_and_one() {
    assert_eq!(Progress::of(0, 0), None);
    assert_eq!(Progress::of(3, 2), None);
    assert_eq!(Progress::of(0, 5), Some(Progress { completed: 0, total: 5 }));
    assert_eq!(Progress::none(), Progress { completed: 0, total: 1 });
    assert_eq!(Progress::full(), Progress { completed: 1, total: 1 });
    assert!(Progress::full().is_complete());
    assert!(Progress::of(5, 5).unwrap().is_complete());
    assert!(!Progress::of(4, 5).unwrap().is_complete());
}

#[test]
fn progress_is_ordered_as_its_fraction() {
    let p = |a, b| Progress::of(a, b).unwrap();
    assert!(p(1, 4).le(p(1, 2)));
    assert!(p(1, 2).le(p(2, 4)));
    assert!(p(2, 4).le(p(1, 2)));
    assert!(!p(3, 4).le(p(1, 2)));
    assert!(Progress::none().le(p(0, 9)));
    assert!(p(9, 9).le(Progress::full()));
    assert!(Progress::full().le(p(9, 9)));
    assert!(p(usize::MAX - 1, usize::MAX).le(p(usize::MAX, usize::MAX)));
    assert!(!p(usize::MAX, usize::MAX).le(p(usize::MAX - 1, usize::MAX)));
    for k in 0..10 {
        assert!(p(k, 10).le(p(k + 1, 10)));
        assert!(!p(k + 1, 10).le(p(k, 10)));
    }
}

fn spin_for(span: std::time::Duration) {
    let begin = std::time::Instant::now();
    while begin.elapsed() < span {
        std::hint::spin_loop();
    }
}

fn span_of(elapsed: Elapsed) -> std::time::Duration {
    std::time::Duration::new(elapsed.seconds, elapsed.nanoseconds)
}

#[test]
fn a_fresh_state_has_taken_no_time() {
    assert_eq!(fresh().execution_time, Elapsed { seconds: 0, nanoseconds: 0 });
    assert_eq!(Elapsed::zero(), Elapsed { seconds: 0, nanoseconds: 0 });
}

#[test]
fn the_time_of_the_run_is_recorded_when_it_ends() {
    let mut state = fresh();
    let before = std::time::Instant::now();
    state.start().unwrap();
    let started = state.start_time.unwrap();
    assert!(started >= before);
    assert!(started <= std::time::Instant::now());
    assert_eq!(state.execution_time, Elapsed::zero());
    spin_for(std::time::Duration::from_millis(5));
    state.fail("late".to_string()).unwrap();
    assert!(state.execution_time.nanoseconds < 1_000_000_000);
    assert!(span_of(state.execution_time) >= std::time::Duration::from_millis(5));
    assert!(span_of(state.execution_time) <= before.elapsed());
    assert_eq!(state.start_time, Some(started));
}

#[test]
fn the_time_of_a_cancelled_run_is_recorded() {
    let mut state = fresh();
    state.start().unwrap();
    spin_for(std::time::Duration::from_millis(2));
    state.cancel(0, None).unwrap();
    assert!(span_of(state.execution_time) >= std::time::Duration::from_millis(2));
}

#[test]
fn the_clock_is_read_in_seconds_and_nanoseconds() {
    let begin = std::time::Instant::now();
    spin_for(std::time::Duration::from_millis(3));
    let elapsed = Elapsed::since(&begin);
    let after = begin.elapsed();
    assert!(elapsed.nanoseconds < 1_000_000_000);
    assert!(span_of(elapsed) >= std::time::Duration::from_millis(3));
    assert!(span_of(elapsed) <= after);
    assert_eq!(elapsed.seconds, 0);
    assert!(elapsed.nanoseconds >= 3_000_000);
}

#[test]
fn given_times_are_taken_as_they_are() {
    let mut state = fresh();
    let at = std::time::Instant::now();
    assert_eq!(state.start_at(at), Ok(()));
    assert_eq!(state.start_time, Some(at));
    let seven = Elapsed { seconds: 7, nanoseconds: 0 };
    assert_eq!(state.fail_after("x".to_string(), seven), Ok(()));
    assert_eq!(state.execution_time, seven);
    let mut other = fresh();
    other.start_at(at).unwrap();
    let quarter = Elapsed { seconds: 0, nanoseconds: 250_000_000 };
    assert_eq!(other.cancel_after(3, None, quarter), Ok(()));
    assert_eq!(other.execution_time, quarter);
    assert_eq!(other.last_completed_step, 3);
}

#[test]
fn published_progress_never_falls() {
    let mut state = fresh();
    state.start().unwrap();
    state.update_progress(Progress::of(5, 10).unwrap());
    assert_eq!(state.progress, Progress { completed: 5, total: 10 });
    state.update_progress(Progress::of(3, 10).unwrap());
    assert_eq!(state.progress, Progress { completed: 5, total: 10 });
    state.update_progress(Progress::of(1, 2).unwrap());
    assert_eq!(state.progress, Progress { completed: 1, total: 2 });
    state.update_progress(Progress::of(6, 10).unwrap());
    assert_eq!(state.progress, Progress { completed: 6, total: 10 });
    assert_eq!(state.observe(Progress::of(2, 10).unwrap()), WorkerAction::Proceed);
    assert_eq!(state.progress, Progress { completed: 6, total: 10 });
    state.pause().unwrap();
    assert_eq!(state.observe(Progress::of(7, 10).unwrap()), WorkerAction::Wait);
    assert_eq!(state.progress, Progress { completed: 7, total: 10 });
}

#[test]
fn full_progress_is_shown_by_a_completed_run_alone() {
    let mut state = fresh();
    state.start().unwrap();
    state.update_progress(Progress::of(9, 10).unwrap());
    state.update_progress(Progress::of(10, 10).unwrap());
    assert_eq!(state.progress, Progress { completed: 9, total: 10 });
    assert_eq!(state.observe(Progress::full()), WorkerAction::Proceed);
    assert_eq!(state.progress, Progress { completed: 9, total: 10 });
    assert!(!state.progress.is_complete());
    state.fail("late".to_string()).unwrap();
    assert!(!state.progress.is_complete());
}

#[test]
fn progress_is_published_while_the_run_is_active_only() {
    let mut state = fresh();
    state.update_progress(Progress::of(1, 2).unwrap());
    assert_eq!(state.progress, Progress::none());
    state.start().unwrap();
    state.update_progress(Progress::of(1, 2).unwrap());
    state.cancel(1, None).unwrap();
    state.update_progress(Progress::of(3, 4).unwrap());
    assert_eq!(state.progress, Progress { completed: 1, total: 2 });
}

#[test]
fn a_run_that_fails_on_a_torch_names_the_torch() {
    let mut params = SimulationParameters::new(s(1.0), s(0.5), 5, 5);
    for _ in 0..2 {
        params.add_torch(PlasmaTorch::new(
            "t1",
            s(0.0),
            s(0.0),
            s(0.0),
            s(0.0),
            s(1.0),
            s(0.0),
            s(25.0),
        ));
    }
    let rule = params.validate().unwrap_err();
    assert_eq!(
        failure_message(SolverError::Invalid(rule), &params.torches),
        "ID de tocha duplicado: t1"
    );
    let mut state = SimulationState::new(params);
    state.start().unwrap();
    assert_eq!(state.finish(Err(SolverError::Invalid(rule))), Ok(()));
    assert_eq!(state.error_message.as_deref(), Some("ID de tocha duplicado: t1"));
}
