use plasma_furnace::boundary::{
    add_plasma_torch, convert_ffi_material, convert_ffi_parameters, convert_ffi_torch,
    convert_simulation_state, count_code, destroy_simulation, error_code, error_message,
    get_last_error, get_simulation_state, get_temperature_data, initialize_simulation,
    pause_simulation, request_destroy, resume_simulation, run_simulation, set_last_ffi_error,
    set_material_properties, status_code, BoundaryError, EntryPoint, ErrorCategory, ErrorSlot,
    FFIMaterialProperties, FFIPlasmaTorch, FFISimulationParameters,
};
use plasma_furnace::kernels::{CellStencil, Kernels, PhaseCell, PhaseUpdate, Signal};
use plasma_furnace::params::{SimulationParameters, ValidationError};
use plasma_furnace::progress::Progress;
use plasma_furnace::scalar::Scalar;
use plasma_furnace::solver::{HeatSolver, SolverError};
use plasma_furnace::state::{Operation, SimulationState, SimulationStatus, WrongState};

fn s(x: f64) -> Scalar {
    Scalar::from_bits(x.to_bits())
}

fn f(x: Scalar) -> f64 {
    f64::from_bits(x.to_bits())
}

fn record() -> FFISimulationParameters {
    FFISimulationParameters {
        height: s(1.0),
        radius: s(0.5),
        nr: 4,
        nz: 3,
        initial_temperature: s(30.0),
        ambient_temperature: s(20.0),
        convection_coefficient: s(12.0),
        enable_convection: false,
        enable_radiation: true,
        total_time: s(5.0),
        time_step: s(0.5),
        time_steps: 10,
    }
}

fn torch_record() -> FFIPlasmaTorch {
    FFIPlasmaTorch {
        r_position: s(0.1),
        z_position: s(0.2),
        pitch: s(90.0),
        yaw: s(0.0),
        power: s(100.0),
        gas_flow: s(0.01),
        gas_temperature: s(5000.0),
    }
}

fn material_record(name: Option<&str>) -> FFIMaterialProperties {
    FFIMaterialProperties {
        name: name.map(|n| n.to_string()),
        density: s(2700.0),
        moisture_content: s(0.1),
        specific_heat: s(900.0),
        thermal_conductivity: s(237.0),
        emissivity: s(0.3),
        melting_point: s(660.0),
        latent_heat_fusion: s(0.0),
        vaporization_point: s(-1.0),
        latent_heat_vaporization: s(1.05e7),
    }
}

fn initialized() -> (Option<SimulationState>, ErrorSlot) {
    let mut slot = None;
    let mut errors = ErrorSlot::new();
    assert_eq!(initialize_simulation(&mut slot, &mut errors, Some(&record())), Ok(()));
    (slot, errors)
}

fn with_torch() -> (Option<SimulationState>, ErrorSlot) {
    let (mut slot, mut errors) = initialized();
    assert_eq!(add_plasma_torch(&mut slot, false, &mut errors, Some(&torch_record())), Ok(()));
    (slot, errors)
}

fn plain_kernels() -> Kernels<
    impl Fn(usize, usize, Scalar) -> Scalar,
    impl Fn(usize, usize, Scalar) -> Scalar,
    impl Fn(CellStencil) -> Scalar,
    impl Fn(PhaseCell) -> PhaseUpdate,
> {
    Kernels {
        radiation: |_, _, _| s(0.0),
        convection: |_, _, _| s(0.0),
        conduction: |c: CellStencil| s(f(c.center) + (10 * c.i + c.j) as f64),
        phase: |c: PhaseCell| PhaseUpdate {
            fraction: c.fraction,
            temperature: c.temperature,
            absorbed: c.absorbed,
        },
    }
}

fn run_worker(slot: &mut Option<SimulationState>, params: SimulationParameters, cancel_at: Option<usize>) {
    let outcome = match HeatSolver::new(params) {
        Err(e) => Err(e),
        Ok(mut solver) => solver.run(&plain_kernels(), &|p: Progress| match cancel_at {
            Some(step) if p.completed >= step => Signal::Cancel,
            _ => Signal::Continue,
        }),
    };
    slot.as_mut().unwrap().finish(outcome).unwrap();
}

fn completed() -> (Option<SimulationState>, ErrorSlot) {
    let (mut slot, mut errors) = with_torch();
    let params = run_simulation(&mut slot, false, &mut errors).unwrap();
    run_worker(&mut slot, params, None);
    assert_eq!(slot.as_ref().unwrap().status, SimulationStatus::Completed);
    (slot, errors)
}

#[test]
fn the_error_slot_holds_the_last_message() {
    let mut errors = ErrorSlot::new();
    assert!(errors.message.is_none());
    set_last_ffi_error(&mut errors, "first".to_string());
    assert_eq!(errors.message.as_deref(), Some("first"));
    set_last_ffi_error(&mut errors, "second".to_string());
    assert_eq!(errors.message.as_deref(), Some("second"));
}

#[test]
fn reading_the_last_error_empties_the_slot() {
    let mut errors = ErrorSlot::new();
    assert_eq!(get_last_error(&mut errors, &None), None);
    set_last_ffi_error(&mut errors, "boom".to_string());
    assert_eq!(get_last_error(&mut errors, &None), Some("boom".to_string()));
    assert!(errors.message.is_none());
    assert_eq!(get_last_error(&mut errors, &None), None);
}

#[test]
fn the_message_of_a_failed_run_is_read_after_the_slot() {
    let (mut slot, mut errors) = with_torch();
    run_simulation(&mut slot, false, &mut errors).unwrap();
    slot.as_mut().unwrap().fail("numerical instability at step 3".to_string()).unwrap();
    set_last_ffi_error(&mut errors, "boundary".to_string());
    assert_eq!(get_last_error(&mut errors, &slot), Some("boundary".to_string()));
    assert_eq!(
        get_last_error(&mut errors, &slot),
        Some("numerical instability at step 3".to_string())
    );
    assert_eq!(
        get_last_error(&mut errors, &slot),
        Some("numerical instability at step 3".to_string())
    );
    assert_eq!(
        slot.as_ref().unwrap().error_message.as_deref(),
        Some("numerical instability at step 3")
    );
}

#[test]
fn a_record_is_converted_to_parameters() {
    let p = convert_ffi_parameters(&record()).unwrap();
    assert_eq!(f(p.height), 1.0);
    assert_eq!(f(p.radius), 0.5);
    assert_eq!(p.nr, 4);
    assert_eq!(p.nz, 3);
    assert_eq!(p.ntheta, 12);
    assert_eq!(f(p.initial_temperature), 30.0);
    assert_eq!(f(p.ambient_temperature), 20.0);
    assert_eq!(f(p.convection_coefficient), 12.0);
    assert!(!p.enable_convection);
    assert!(p.enable_radiation);
    assert!(p.enable_phase_changes);
    assert_eq!(f(p.total_time), 5.0);
    assert_eq!(f(p.time_step), 0.5);
    assert_eq!(p.time_steps, 10);
    assert!(p.torches.is_empty());
    assert_eq!(p.material.name, "Default Material");
}

#[test]
fn counts_that_are_not_positive_are_refused() {
    for (nr, nz, steps) in [(0, 3, 10), (-1, 3, 10), (4, 0, 10), (4, -5, 10), (4, 3, 0), (4, 3, -1)] {
        let bad = FFISimulationParameters { nr, nz, time_steps: steps, ..record() };
        assert_eq!(convert_ffi_parameters(&bad).err(), Some(BoundaryError::InvalidCounts));
    }
    let bad = FFISimulationParameters { nr: i32::MIN, ..record() };
    assert_eq!(convert_ffi_parameters(&bad).err(), Some(BoundaryError::InvalidCounts));
    let large = FFISimulationParameters { time_steps: i32::MAX, ..record() };
    assert_eq!(convert_ffi_parameters(&large).unwrap().time_steps, i32::MAX as usize);
}

#[test]
fn a_torch_record_is_converted() {
    let torch = convert_ffi_torch(&torch_record(), "torch7");
    assert_eq!(torch.id, "torch7");
    assert_eq!(f(torch.r_position), 0.1);
    assert_eq!(f(torch.z_position), 0.2);
    assert_eq!(f(torch.pitch), 90.0);
    assert_eq!(f(torch.yaw), 0.0);
    assert_eq!(f(torch.power), 100.0);
    assert_eq!(f(torch.gas_flow), 0.01);
    assert_eq!(f(torch.gas_temperature), 5000.0);
}

#[test]
fn a_material_record_sets_only_positive_phase_parameters() {
    let m = convert_ffi_material(&material_record(Some("Alumínio"))).unwrap();
    assert_eq!(m.name, "Alumínio");
    assert_eq!(f(m.density), 2700.0);
    assert_eq!(f(m.moisture_content), 0.1);
    assert_eq!(f(m.specific_heat), 900.0);
    assert_eq!(f(m.thermal_conductivity), 237.0);
    assert_eq!(f(m.emissivity), 0.3);
    assert_eq!(m.melting_point.map(f), Some(660.0));
    assert_eq!(m.latent_heat_fusion, None);
    assert_eq!(m.vaporization_point, None);
    assert_eq!(m.latent_heat_vaporization.map(f), Some(1.05e7));
    assert!(convert_ffi_material(&material_record(None)).is_none());
}

#[test]
fn statuses_cross_as_numbers() {
    let mut state = SimulationState::new(SimulationParameters::new(s(1.0), s(1.0), 2, 2));
    assert_eq!(convert_simulation_state(&state).status, 0);
    state.start().unwrap();
    state.update_progress(Progress::of(1, 4).unwrap());
    let running = convert_simulation_state(&state);
    assert_eq!(running.status, 1);
    assert_eq!(running.progress, Progress { completed: 1, total: 4 });
    assert!(running.error_message.is_none());
    state.pause().unwrap();
    assert_eq!(convert_simulation_state(&state).status, 2);
    state.fail("boom".to_string()).unwrap();
    let failed = convert_simulation_state(&state);
    assert_eq!(failed.status, 4);
    assert_eq!(failed.error_message.as_deref(), Some("boom"));
    assert_eq!(failed.execution_time, state.execution_time);
    let mut cancelled = SimulationState::new(SimulationParameters::new(s(1.0), s(1.0), 2, 2));
    cancelled.start().unwrap();
    cancelled.cancel(0, None).unwrap();
    assert_eq!(convert_simulation_state(&cancelled).status, 5);
    let (slot, _) = completed();
    assert_eq!(convert_simulation_state(slot.as_ref().unwrap()).status, 3);
}

#[test]
fn initialize_makes_a_simulation_that_is_not_started() {
    let (slot, errors) = initialized();
    let state = slot.as_ref().unwrap();
    assert_eq!(state.status, SimulationStatus::NotStarted);
    assert_eq!(state.parameters.nr, 4);
    assert_eq!(f(state.parameters.initial_temperature), 30.0);
    assert!(state.parameters.torches.is_empty());
    assert!(errors.message.is_none());
}

#[test]
fn initialize_refuses_bad_input() {
    let mut slot = None;
    let mut errors = ErrorSlot::new();
    let answer = initialize_simulation(&mut slot, &mut errors, None);
    assert_eq!(answer, Err(BoundaryError::NullInput));
    assert_eq!(status_code(EntryPoint::Initialize, &answer), -1);
    assert_eq!(
        errors.message.as_deref(),
        Some("initialize_simulation: ffi_params pointer was null")
    );
    assert!(slot.is_none());

    let one_node = FFISimulationParameters { nr: 1, ..record() };
    let answer = initialize_simulation(&mut slot, &mut errors, Some(&one_node));
    assert_eq!(answer, Err(BoundaryError::InvalidParameters(ValidationError::RadialNodes)));
    assert_eq!(answer.unwrap_err().category(), ErrorCategory::InvalidInput);
    assert_eq!(status_code(EntryPoint::Initialize, &answer), -3);
    assert_eq!(
        errors.message.as_deref(),
        Some("Invalid simulation parameters: Número de nós radiais deve ser pelo menos 2")
    );
    assert!(slot.is_none());

    let no_nodes = FFISimulationParameters { nz: 0, ..record() };
    let answer = initialize_simulation(&mut slot, &mut errors, Some(&no_nodes));
    assert_eq!(answer, Err(BoundaryError::InvalidCounts));
    assert_eq!(status_code(EntryPoint::Initialize, &answer), -3);

    let flat = FFISimulationParameters { height: s(0.0), ..record() };
    assert_eq!(
        initialize_simulation(&mut slot, &mut errors, Some(&flat)),
        Err(BoundaryError::InvalidParameters(ValidationError::Height))
    );
    let still = FFISimulationParameters { time_step: s(-0.5), ..record() };
    assert_eq!(
        initialize_simulation(&mut slot, &mut errors, Some(&still)),
        Err(BoundaryError::InvalidParameters(ValidationError::TimeStep))
    );
    let never = FFISimulationParameters { total_time: s(f64::NAN), ..record() };
    assert_eq!(
        initialize_simulation(&mut slot, &mut errors, Some(&never)),
        Err(BoundaryError::InvalidParameters(ValidationError::TotalTime))
    );
    let thin = FFISimulationParameters { radius: s(-0.0), ..record() };
    assert_eq!(
        initialize_simulation(&mut slot, &mut errors, Some(&thin)),
        Err(BoundaryError::InvalidParameters(ValidationError::Radius))
    );
    assert!(slot.is_none());
}

#[test]
fn initialize_refuses_a_second_simulation() {
    let (mut slot, mut errors) = initialized();
    let answer = initialize_simulation(&mut slot, &mut errors, Some(&record()));
    assert_eq!(answer, Err(BoundaryError::AlreadyInitialized));
    assert_eq!(status_code(EntryPoint::Initialize, &answer), -2);
    assert_eq!(
        errors.message.as_deref(),
        Some("Simulation already initialized. Call destroy_simulation first.")
    );
    assert_eq!(slot.as_ref().unwrap().status, SimulationStatus::NotStarted);
}

#[test]
fn torches_are_added_before_the_start() {
    let (mut slot, mut errors) = initialized();
    assert_eq!(add_plasma_torch(&mut slot, false, &mut errors, Some(&torch_record())), Ok(()));
    let second = FFIPlasmaTorch { power: s(7.0), ..torch_record() };
    assert_eq!(add_plasma_torch(&mut slot, false, &mut errors, Some(&second)), Ok(()));
    let torches = &slot.as_ref().unwrap().parameters.torches;
    assert_eq!(torches.len(), 2);
    assert_eq!(torches[0].id, "torch0");
    assert_eq!(torches[1].id, "torch1");
    assert_eq!(f(torches[0].power), 100.0);
    assert_eq!(f(torches[1].power), 7.0);
    assert_eq!(f(torches[1].gas_temperature), 5000.0);
    assert_eq!(slot.as_ref().unwrap().parameters.validate(), Ok(()));
    assert!(errors.message.is_none());
}

#[test]
fn adding_a_torch_is_refused_where_it_cannot_be_done() {
    let mut errors = ErrorSlot::new();
    let mut empty = None;
    let answer = add_plasma_torch(&mut empty, false, &mut errors, None);
    assert_eq!(answer, Err(BoundaryError::NullInput));
    assert_eq!(status_code(EntryPoint::AddTorch, &answer), -1);
    assert_eq!(errors.message.as_deref(), Some("add_plasma_torch: ffi_torch pointer was null"));
    let answer = add_plasma_torch(&mut empty, false, &mut errors, Some(&torch_record()));
    assert_eq!(answer, Err(BoundaryError::NotInitialized));
    assert_eq!(status_code(EntryPoint::AddTorch, &answer), -2);
    assert_eq!(
        errors.message.as_deref(),
        Some("Simulation not initialized. Call initialize_simulation first.")
    );

    let (mut slot, mut errors) = with_torch();
    let answer = add_plasma_torch(&mut slot, true, &mut errors, Some(&torch_record()));
    assert_eq!(answer, Err(BoundaryError::Poisoned));
    assert_eq!(status_code(EntryPoint::AddTorch, &answer), -4);
    assert_eq!(
        errors.message.as_deref(),
        Some("Mutex poisoned while adding torch: poisoned lock: another task failed inside")
    );
    run_simulation(&mut slot, false, &mut errors).unwrap();
    let answer = add_plasma_torch(&mut slot, false, &mut errors, Some(&torch_record()));
    assert_eq!(answer, Err(BoundaryError::NotModifiable));
    assert_eq!(status_code(EntryPoint::AddTorch, &answer), -3);
    assert_eq!(
        errors.message.as_deref(),
        Some("Cannot add torch to a running or completed simulation.")
    );
    assert_eq!(slot.as_ref().unwrap().parameters.torches.len(), 1);
}

#[test]
fn the_material_is_set_before_the_start() {
    let (mut slot, mut errors) = initialized();
    let material = material_record(Some("Alumínio"));
    assert_eq!(set_material_properties(&mut slot, false, &mut errors, Some(&material)), Ok(()));
    let state = slot.as_ref().unwrap();
    assert_eq!(state.parameters.material.name, "Alumínio");
    assert_eq!(state.parameters.material.melting_point.map(f), Some(660.0));
    assert_eq!(state.parameters.material.latent_heat_fusion, None);
    assert_eq!(state.parameters.nr, 4);
}

#[test]
fn setting_the_material_is_refused_where_it_cannot_be_done() {
    let mut errors = ErrorSlot::new();
    let mut empty = None;
    let answer = set_material_properties(&mut empty, false, &mut errors, None);
    assert_eq!(answer, Err(BoundaryError::NullInput));
    assert_eq!(status_code(EntryPoint::SetMaterial, &answer), -1);
    assert_eq!(
        errors.message.as_deref(),
        Some("set_material_properties: ffi_material pointer was null")
    );
    let nameless = material_record(None);
    let answer = set_material_properties(&mut empty, false, &mut errors, Some(&nameless));
    assert_eq!(answer, Err(BoundaryError::NullName));
    assert_eq!(status_code(EntryPoint::SetMaterial, &answer), -5);
    assert_eq!(
        errors.message.as_deref(),
        Some("set_material_properties: material name pointer was null")
    );
    let named = material_record(Some("m"));
    let answer = set_material_properties(&mut empty, false, &mut errors, Some(&named));
    assert_eq!(answer, Err(BoundaryError::NotInitialized));
    assert_eq!(status_code(EntryPoint::SetMaterial, &answer), -2);

    let (mut slot, mut errors) = with_torch();
    let answer = set_material_properties(&mut slot, true, &mut errors, Some(&named));
    assert_eq!(answer, Err(BoundaryError::Poisoned));
    assert_eq!(status_code(EntryPoint::SetMaterial, &answer), -4);
    run_simulation(&mut slot, false, &mut errors).unwrap();
    let answer = set_material_properties(&mut slot, false, &mut errors, Some(&named));
    assert_eq!(answer, Err(BoundaryError::NotModifiable));
    assert_eq!(status_code(EntryPoint::SetMaterial, &answer), -3);
    assert_eq!(
        errors.message.as_deref(),
        Some("Cannot set material properties for a running or completed simulation.")
    );
    assert_eq!(slot.as_ref().unwrap().parameters.material.name, "Default Material");
}

#[test]
fn run_on_nothing_is_a_wrong_state() {
    let mut slot = None;
    let mut errors = ErrorSlot::new();
    let answer = run_simulation(&mut slot, false, &mut errors);
    assert_eq!(answer.as_ref().err(), Some(&BoundaryError::NotInitialized));
    assert_eq!(answer.as_ref().unwrap_err().category(), ErrorCategory::WrongState);
    assert_eq!(status_code(EntryPoint::Run, &answer), -1);
    assert_eq!(
        errors.message.as_deref(),
        Some("Simulation not initialized. Call initialize_simulation first.")
    );
}

#[test]
fn run_starts_the_simulation_once() {
    let (mut slot, mut errors) = with_torch();
    let params = run_simulation(&mut slot, false, &mut errors).unwrap();
    assert_eq!(params.nr, 4);
    assert_eq!(params.torches.len(), 1);
    assert_eq!(slot.as_ref().unwrap().status, SimulationStatus::Running);
    assert!(slot.as_ref().unwrap().start_time.is_some());
    let answer = run_simulation(&mut slot, false, &mut errors);
    assert_eq!(
        answer.as_ref().err(),
        Some(&BoundaryError::WrongState(WrongState {
            operation: Operation::Start,
            found: SimulationStatus::Running
        }))
    );
    assert_eq!(status_code(EntryPoint::Run, &answer), -2);
    assert_eq!(
        errors.message.as_deref(),
        Some("Failed to start simulation: Simulação já foi iniciada")
    );
    let (mut slot, mut errors) = with_torch();
    let answer = run_simulation(&mut slot, true, &mut errors);
    assert_eq!(answer.as_ref().err(), Some(&BoundaryError::Poisoned));
    assert_eq!(status_code(EntryPoint::Run, &answer), -2);
    assert_eq!(slot.as_ref().unwrap().status, SimulationStatus::NotStarted);
}

#[test]
fn duplicate_identifiers_are_invalid_input() {
    let (mut slot, mut errors) = with_torch();
    add_plasma_torch(&mut slot, false, &mut errors, Some(&torch_record())).unwrap();
    slot.as_mut().unwrap().parameters.torches[1].id = "torch0".to_string();
    let answer = run_simulation(&mut slot, false, &mut errors);
    let refusal = answer.as_ref().err().copied().unwrap();
    assert_eq!(
        refusal,
        BoundaryError::InvalidParameters(ValidationError::DuplicateTorchId { torch: 1 })
    );
    assert_eq!(refusal.category(), ErrorCategory::InvalidInput);
    assert_eq!(status_code(EntryPoint::Run, &answer), -2);
    assert_eq!(
        errors.message.as_deref(),
        Some("Failed to start simulation: ID de tocha duplicado: torch0")
    );
    assert_eq!(slot.as_ref().unwrap().status, SimulationStatus::NotStarted);
    assert!(slot.as_ref().unwrap().start_time.is_none());
    let params = slot.as_ref().unwrap().parameters.duplicate();
    assert_eq!(
        HeatSolver::new(params).err(),
        Some(SolverError::Invalid(ValidationError::DuplicateTorchId { torch: 1 }))
    );
}

#[test]
fn a_simulation_without_torches_is_not_started() {
    let (mut slot, mut errors) = initialized();
    let answer = run_simulation(&mut slot, false, &mut errors);
    assert_eq!(
        answer.as_ref().err(),
        Some(&BoundaryError::InvalidParameters(ValidationError::NoTorches))
    );
    assert_eq!(
        errors.message.as_deref(),
        Some("Failed to start simulation: Pelo menos uma tocha deve ser definida")
    );
    assert_eq!(slot.as_ref().unwrap().status, SimulationStatus::NotStarted);
    assert_eq!(add_plasma_torch(&mut slot, false, &mut errors, Some(&torch_record())), Ok(()));
    assert!(run_simulation(&mut slot, false, &mut errors).is_ok());
}

#[test]
fn a_torch_outside_the_cylinder_is_invalid_input() {
    let (mut slot, mut errors) = initialized();
    let outside = FFIPlasmaTorch { r_position: s(0.75), ..torch_record() };
    assert_eq!(add_plasma_torch(&mut slot, false, &mut errors, Some(&outside)), Ok(()));
    let answer = run_simulation(&mut slot, false, &mut errors);
    assert_eq!(
        answer.as_ref().err(),
        Some(&BoundaryError::InvalidParameters(ValidationError::TorchRadialPosition { torch: 0 }))
    );
    assert_eq!(slot.as_ref().unwrap().status, SimulationStatus::NotStarted);
}

#[test]
fn a_run_that_cannot_be_stored_fails() {
    let (mut slot, mut errors) = with_torch();
    slot.as_mut().unwrap().parameters.time_steps = usize::MAX;
    let params = run_simulation(&mut slot, false, &mut errors).unwrap();
    run_worker(&mut slot, params, None);
    assert_eq!(slot.as_ref().unwrap().status, SimulationStatus::Failed);
    assert_eq!(
        get_last_error(&mut errors, &slot),
        Some("the history does not fit in memory".to_string())
    );
}

#[test]
fn pause_and_resume_follow_the_lifecycle() {
    let mut errors = ErrorSlot::new();
    let mut empty = None;
    let answer = pause_simulation(&mut empty, false, &mut errors);
    assert_eq!(answer, Err(BoundaryError::NotInitialized));
    assert_eq!(status_code(EntryPoint::Pause, &answer), -1);
    assert_eq!(errors.message.as_deref(), Some("Simulation not initialized."));
    let answer = resume_simulation(&mut empty, false, &mut errors);
    assert_eq!(status_code(EntryPoint::Resume, &answer), -1);

    let (mut slot, mut errors) = with_torch();
    let answer = pause_simulation(&mut slot, false, &mut errors);
    assert_eq!(
        answer,
        Err(BoundaryError::WrongState(WrongState {
            operation: Operation::Pause,
            found: SimulationStatus::NotStarted
        }))
    );
    assert_eq!(status_code(EntryPoint::Pause, &answer), -3);
    assert_eq!(
        errors.message.as_deref(),
        Some("Failed to pause simulation: Simulação não está em execução")
    );
    run_simulation(&mut slot, false, &mut errors).unwrap();
    let answer = resume_simulation(&mut slot, false, &mut errors);
    assert_eq!(status_code(EntryPoint::Resume, &answer), -3);
    assert_eq!(
        errors.message.as_deref(),
        Some("Failed to resume simulation: Simulação não está pausada")
    );
    assert_eq!(pause_simulation(&mut slot, false, &mut errors), Ok(()));
    assert_eq!(slot.as_ref().unwrap().status, SimulationStatus::Paused);
    let again = pause_simulation(&mut slot, false, &mut errors);
    assert_eq!(again.unwrap_err().category(), ErrorCategory::WrongState);
    assert_eq!(status_code(EntryPoint::Pause, &again), -3);
    assert_eq!(slot.as_ref().unwrap().status, SimulationStatus::Paused);
    let answer = resume_simulation(&mut slot, true, &mut errors);
    assert_eq!(answer, Err(BoundaryError::Poisoned));
    assert_eq!(status_code(EntryPoint::Resume, &answer), -2);
    assert_eq!(
        errors.message.as_deref(),
        Some("Mutex poisoned while resuming simulation: poisoned lock: another task failed inside")
    );
    assert_eq!(resume_simulation(&mut slot, false, &mut errors), Ok(()));
    assert_eq!(slot.as_ref().unwrap().status, SimulationStatus::Running);
    let answer = pause_simulation(&mut slot, true, &mut errors);
    assert_eq!(status_code(EntryPoint::Pause, &answer), -2);
}

#[test]
fn the_state_is_read_as_a_flat_record() {
    let mut errors = ErrorSlot::new();
    let answer = get_simulation_state(&None, false, &mut errors, false);
    assert_eq!(answer.as_ref().err(), Some(&BoundaryError::NullInput));
    assert_eq!(status_code(EntryPoint::GetState, &answer), -1);
    assert_eq!(
        errors.message.as_deref(),
        Some("get_simulation_state: ffi_state pointer was null")
    );
    let answer = get_simulation_state(&None, false, &mut errors, true);
    assert_eq!(status_code(EntryPoint::GetState, &answer), -2);
    let (mut slot, mut errors) = with_torch();
    let answer = get_simulation_state(&slot, true, &mut errors, true);
    assert_eq!(answer.as_ref().err(), Some(&BoundaryError::Poisoned));
    assert_eq!(status_code(EntryPoint::GetState, &answer), -3);
    let fresh = get_simulation_state(&slot, false, &mut errors, true).unwrap();
    assert_eq!(fresh.status, 0);
    assert_eq!(fresh.progress, Progress::none());
    assert!(fresh.error_message.is_none());
    run_simulation(&mut slot, false, &mut errors).unwrap();
    slot.as_mut().unwrap().update_progress(Progress::of(3, 10).unwrap());
    let running = get_simulation_state(&slot, false, &mut errors, true).unwrap();
    assert_eq!(running.status, 1);
    assert_eq!(running.progress, Progress { completed: 3, total: 10 });
}

#[test]
fn a_completed_run_shows_full_progress_and_its_results() {
    let (slot, mut errors) = completed();
    let record = get_simulation_state(&slot, false, &mut errors, true).unwrap();
    assert_eq!(record.status, 3);
    assert!(record.progress.is_complete());
    assert!(slot.as_ref().unwrap().get_results().is_some());
    assert!(slot.as_ref().unwrap().is_completed());
}

#[test]
fn step_zero_reads_the_initial_temperature_in_every_cell() {
    let (slot, mut errors) = completed();
    let answer = get_temperature_data(&slot, false, &mut errors, 0, true, 12);
    assert_eq!(count_code(&answer), 12);
    let values = answer.unwrap();
    assert_eq!(values.len(), 12);
    for value in values {
        assert_eq!(f(value), 30.0);
    }
}

#[test]
fn the_temperature_is_written_row_by_row() {
    let (slot, mut errors) = completed();
    for step in [1, 5, 10] {
        let values = get_temperature_data(&slot, false, &mut errors, step, true, 100).unwrap();
        assert_eq!(values.len(), 12);
        for i in 0..4 {
            for j in 0..3 {
                let expected = 30.0 + step as f64 * (10 * i + j) as f64;
                assert_eq!(f(values[i * 3 + j]), expected);
            }
        }
    }
    assert!(errors.message.is_none());
}

#[test]
fn reading_the_temperature_is_refused_where_it_cannot_be_done() {
    let mut errors = ErrorSlot::new();
    let answer = get_temperature_data(&None, false, &mut errors, 0, false, 12);
    assert_eq!(answer.as_ref().err(), Some(&BoundaryError::NullInput));
    assert_eq!(count_code(&answer), -1);
    assert_eq!(errors.message.as_deref(), Some("get_temperature_data: buffer pointer was null"));
    let answer = get_temperature_data(&None, false, &mut errors, 0, true, 12);
    assert_eq!(count_code(&answer), -2);

    let (mut slot, mut errors) = with_torch();
    let answer = get_temperature_data(&slot, false, &mut errors, 0, true, 12);
    assert_eq!(answer.as_ref().err(), Some(&BoundaryError::ResultsUnavailable));
    assert_eq!(count_code(&answer), -4);
    assert_eq!(
        errors.message.as_deref(),
        Some("Simulation results not available (simulation not completed or no results stored).")
    );
    run_simulation(&mut slot, false, &mut errors).unwrap();
    let answer = get_temperature_data(&slot, false, &mut errors, 0, true, 12);
    assert_eq!(count_code(&answer), -4);

    let (slot, mut errors) = completed();
    let answer = get_temperature_data(&slot, true, &mut errors, 0, true, 12);
    assert_eq!(answer.as_ref().err(), Some(&BoundaryError::Poisoned));
    assert_eq!(count_code(&answer), -5);
    let answer = get_temperature_data(&slot, false, &mut errors, -1, true, 12);
    assert_eq!(answer.as_ref().err(), Some(&BoundaryError::InvalidStep { step: -1, last: 10 }));
    assert_eq!(count_code(&answer), -3);
    assert_eq!(
        errors.message.as_deref(),
        Some("Invalid time step index: -1. Must be between 0 and 10.")
    );
    let answer = get_temperature_data(&slot, false, &mut errors, 11, true, 12);
    assert_eq!(answer.as_ref().err(), Some(&BoundaryError::InvalidStep { step: 11, last: 10 }));
    assert!(get_temperature_data(&slot, false, &mut errors, 10, true, 12).is_ok());
    let answer = get_temperature_data(&slot, false, &mut errors, 10, true, 11);
    assert_eq!(
        answer.as_ref().err(),
        Some(&BoundaryError::BufferTooSmall { provided: 11, required: 12 })
    );
    assert_eq!(count_code(&answer), -6);
    assert_eq!(
        errors.message.as_deref(),
        Some("Buffer too small: provided size 11, required size 12.")
    );
}

#[test]
fn a_history_of_the_wrong_shape_is_an_internal_error() {
    let (mut slot, mut errors) = completed();
    slot.as_mut().unwrap().results.as_mut().unwrap().parameters.nz = 4;
    let answer = get_temperature_data(&slot, false, &mut errors, 0, true, 100);
    assert_eq!(answer.as_ref().err(), Some(&BoundaryError::Internal));
    assert_eq!(answer.as_ref().unwrap_err().category(), ErrorCategory::Internal);
    assert_eq!(count_code(&answer), -9);
}

#[test]
fn a_cancelled_run_is_read_up_to_its_last_step() {
    let (mut slot, mut errors) = with_torch();
    let params = run_simulation(&mut slot, false, &mut errors).unwrap();
    run_worker(&mut slot, params, Some(2));
    let state = slot.as_ref().unwrap();
    assert_eq!(state.status, SimulationStatus::Cancelled);
    assert_eq!(state.last_completed_step, 2);
    assert_eq!(get_simulation_state(&slot, false, &mut errors, true).unwrap().status, 5);
    let values = get_temperature_data(&slot, false, &mut errors, 2, true, 12).unwrap();
    assert_eq!(f(values[3 * 3 + 2]), 30.0 + 2.0 * 32.0);
    let first = get_temperature_data(&slot, false, &mut errors, 0, true, 12).unwrap();
    assert_eq!(f(first[5]), 30.0);
    let answer = get_temperature_data(&slot, false, &mut errors, 3, true, 12);
    assert_eq!(answer.as_ref().err(), Some(&BoundaryError::InvalidStep { step: 3, last: 2 }));
}

#[test]
fn destroy_empties_the_place_and_a_fresh_simulation_can_be_made() {
    let (mut slot, mut errors) = with_torch();
    run_simulation(&mut slot, false, &mut errors).unwrap();
    assert_eq!(request_destroy(&mut slot, &mut errors), Ok(()));
    assert!(slot.as_ref().unwrap().cancel_requested);
    assert_eq!(slot.as_ref().unwrap().poll(), plasma_furnace::state::WorkerAction::Stop);
    let answer = destroy_simulation(&mut slot, &mut errors, true);
    assert_eq!(answer, Ok(()));
    assert_eq!(status_code(EntryPoint::Destroy, &answer), 0);
    assert!(slot.is_none());
    assert_eq!(initialize_simulation(&mut slot, &mut errors, Some(&record())), Ok(()));
    assert_eq!(slot.as_ref().unwrap().status, SimulationStatus::NotStarted);
    assert!(!slot.as_ref().unwrap().cancel_requested);
    assert!(slot.as_ref().unwrap().parameters.torches.is_empty());
}

#[test]
fn destroy_on_nothing_is_refused() {
    let mut slot = None;
    let mut errors = ErrorSlot::new();
    let answer = request_destroy(&mut slot, &mut errors);
    assert_eq!(answer, Err(BoundaryError::NotInitialized));
    assert_eq!(status_code(EntryPoint::Destroy, &answer), -1);
    assert_eq!(
        errors.message.as_deref(),
        Some("Simulation already destroyed or never initialized.")
    );
    let answer = destroy_simulation(&mut slot, &mut errors, true);
    assert_eq!(answer, Err(BoundaryError::NotInitialized));
}

#[test]
fn a_worker_that_cannot_be_joined_is_reported_and_the_place_is_empty() {
    let (mut slot, mut errors) = with_torch();
    let answer = destroy_simulation(&mut slot, &mut errors, false);
    assert_eq!(answer, Err(BoundaryError::JoinFailed));
    assert_eq!(status_code(EntryPoint::Destroy, &answer), -3);
    assert_eq!(
        errors.message.as_deref(),
        Some("Error during simulation cleanup: the worker could not be joined")
    );
    assert!(slot.is_none());
}

#[test]
fn every_refusal_has_a_negative_number_and_a_message() {
    let entries = [
        EntryPoint::Initialize,
        EntryPoint::AddTorch,
        EntryPoint::SetMaterial,
        EntryPoint::Run,
        EntryPoint::Pause,
        EntryPoint::Resume,
        EntryPoint::GetState,
        EntryPoint::GetTemperature,
        EntryPoint::Destroy,
    ];
    let refusals = [
        BoundaryError::NullInput,
        BoundaryError::NullName,
        BoundaryError::NotInitialized,
        BoundaryError::AlreadyInitialized,
        BoundaryError::InvalidCounts,
        BoundaryError::InvalidParameters(ValidationError::Height),
        BoundaryError::NotModifiable,
        BoundaryError::WrongState(WrongState {
            operation: Operation::Pause,
            found: SimulationStatus::Failed,
        }),
        BoundaryError::Poisoned,
        BoundaryError::ResultsUnavailable,
        BoundaryError::InvalidStep { step: i32::MIN, last: 0 },
        BoundaryError::BufferTooSmall { provided: 0, required: usize::MAX },
        BoundaryError::Internal,
        BoundaryError::JoinFailed,
    ];
    for entry in entries {
        for refusal in refusals {
            assert!(error_code(entry, refusal) < 0);
            assert!(!error_message(entry, refusal).is_empty());
        }
    }
    assert_eq!(
        error_message(
            EntryPoint::GetTemperature,
            BoundaryError::InvalidStep { step: i32::MIN, last: 0 }
        ),
        "Invalid time step index: -2147483648. Must be between 0 and 0."
    );
    assert_eq!(BoundaryError::Poisoned.category(), ErrorCategory::Internal);
    assert_eq!(BoundaryError::NullName.category(), ErrorCategory::InvalidInput);
    assert_eq!(BoundaryError::AlreadyInitialized.category(), ErrorCategory::WrongState);
}
