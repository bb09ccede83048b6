//! The protocol at the foreign boundary.
//!
//! A caller in another language addresses one simulation through a fixed
//! set of entry points.  Each entry point is given the place where the
//! simulation lives (`None` before `initialize_simulation` and after
//! `destroy_simulation`), whether the lock around that place was found
//! poisoned, and the error slot of the calling thread.  It answers with its
//! result or with the reason of its refusal, and leaves the message of a
//! refusal in the error slot.  [`status_code`] turns an answer into the
//! number that crosses the boundary.
//!
//! Pointers do not cross into this module: a null pointer arrives as `None`
//! and a caller's buffer as its capacity.

use vstd::prelude::*;
use vstd::string::StringExecFns;
use vstd::arithmetic::div_mod::{lemma_fundamental_div_mod, lemma_fundamental_div_mod_converse};
use crate::clock::Elapsed;
use crate::material::{offered, MaterialProperties};
use crate::params::{rule_text, violation_none_iff_valid, SimulationParameters, ValidationError, DEFAULT_NTHETA};
use crate::progress::Progress;
use crate::scalar::Scalar;
use crate::field::Field3;
use crate::results::SimulationResults;
use crate::state::{wrong_state_text, Operation, SimulationState, SimulationStatus, WrongState};
use crate::text::{append_decimal, append_signed, decimal, signed_decimal, with_number};
use crate::torch::PlasmaTorch;

verus! {

/// The scalar parameters of a simulation as they cross the boundary.
#[derive(Clone, Copy, Debug)]
pub struct FFISimulationParameters {
    pub height: Scalar,
    pub radius: Scalar,
    pub nr: i32,
    pub nz: i32,
    pub initial_temperature: Scalar,
    pub ambient_temperature: Scalar,
    pub convection_coefficient: Scalar,
    pub enable_convection: bool,
    pub enable_radiation: bool,
    pub total_time: Scalar,
    pub time_step: Scalar,
    pub time_steps: i32,
}

/// A torch as it crosses the boundary.
#[derive(Clone, Copy, Debug)]
pub struct FFIPlasmaTorch {
    pub r_position: Scalar,
    pub z_position: Scalar,
    pub pitch: Scalar,
    pub yaw: Scalar,
    pub power: Scalar,
    pub gas_flow: Scalar,
    pub gas_temperature: Scalar,
}

/// A material as it crosses the boundary.  A phase parameter that is not
/// strictly positive means that the material has none; `name` is `None`
/// when the pointer to it was null.
#[derive(Debug)]
pub struct FFIMaterialProperties {
    pub name: Option<String>,
    pub density: Scalar,
    pub moisture_content: Scalar,
    pub specific_heat: Scalar,
    pub thermal_conductivity: Scalar,
    pub emissivity: Scalar,
    pub melting_point: Scalar,
    pub latent_heat_fusion: Scalar,
    pub vaporization_point: Scalar,
    pub latent_heat_vaporization: Scalar,
}

/// The flat record of the state as it crosses the boundary.
#[derive(Debug)]
pub struct FFISimulationState {
    /// `0` not started, `1` running, `2` paused, `3` completed, `4` failed,
    /// `5` cancelled.
    pub status: i32,
    pub progress: Progress,
    pub error_message: Option<String>,
    pub execution_time: Elapsed,
}

/// The entry points of the boundary.
#[derive(Clone, Copy, Debug, PartialEq, Eq, Structural)]
pub enum EntryPoint {
    Initialize,
    AddTorch,
    SetMaterial,
    Run,
    Pause,
    Resume,
    GetState,
    GetTemperature,
    Destroy,
}

/// Why an entry point refused.
#[derive(Clone, Copy, Debug, PartialEq, Eq, Structural)]
pub enum BoundaryError {
    /// The pointer to the input or output record was null.
    NullInput,
    /// The pointer to the name of the material was null.
    NullName,
    /// There is no simulation.
    NotInitialized,
    /// There is a simulation already.
    AlreadyInitialized,
    /// A node count or the number of time steps is not strictly positive.
    InvalidCounts,
    /// The parameters break a rule.
    InvalidParameters(ValidationError),
    /// The simulation has been started, and its parameters are fixed.
    NotModifiable,
    /// The lifecycle does not admit the operation.
    WrongState(WrongState),
    /// The lock around the simulation is poisoned.
    Poisoned,
    /// The simulation has no history to read.
    ResultsUnavailable,
    /// The step `step` is not one of the recorded steps `0..=last`.
    InvalidStep { step: i32, last: usize },
    /// The buffer holds `provided` values and `required` are to be written.
    BufferTooSmall { provided: usize, required: usize },
    /// The history does not have the shape that its parameters give it.
    Internal,
    /// The worker could not be joined.
    JoinFailed,
}

/// The kinds of failure that a caller tells apart.
#[derive(Clone, Copy, Debug, PartialEq, Eq, Structural)]
pub enum ErrorCategory {
    InvalidInput,
    WrongState,
    Internal,
}

/// The kind of a refusal.
pub open spec fn category_of(error: BoundaryError) -> ErrorCategory {
    match error {
        BoundaryError::NullInput => ErrorCategory::InvalidInput,
        BoundaryError::NullName => ErrorCategory::InvalidInput,
        BoundaryError::InvalidCounts => ErrorCategory::InvalidInput,
        BoundaryError::InvalidParameters(_) => ErrorCategory::InvalidInput,
        BoundaryError::InvalidStep { .. } => ErrorCategory::InvalidInput,
        BoundaryError::BufferTooSmall { .. } => ErrorCategory::InvalidInput,
        BoundaryError::NotInitialized => ErrorCategory::WrongState,
        BoundaryError::AlreadyInitialized => ErrorCategory::WrongState,
        BoundaryError::NotModifiable => ErrorCategory::WrongState,
        BoundaryError::WrongState(_) => ErrorCategory::WrongState,
        BoundaryError::ResultsUnavailable => ErrorCategory::WrongState,
        BoundaryError::Poisoned => ErrorCategory::Internal,
        BoundaryError::Internal => ErrorCategory::Internal,
        BoundaryError::JoinFailed => ErrorCategory::Internal,
    }
}

impl BoundaryError {
    /// The kind of the refusal.
    pub fn category(&self) -> (c: ErrorCategory)
        ensures
            c == category_of(*self),
    {
        match self {
            BoundaryError::NullInput => ErrorCategory::InvalidInput,
            BoundaryError::NullName => ErrorCategory::InvalidInput,
            BoundaryError::InvalidCounts => ErrorCategory::InvalidInput,
            BoundaryError::InvalidParameters(_) => ErrorCategory::InvalidInput,
            BoundaryError::InvalidStep { .. } => ErrorCategory::InvalidInput,
            BoundaryError::BufferTooSmall { .. } => ErrorCategory::InvalidInput,
            BoundaryError::NotInitialized => ErrorCategory::WrongState,
            BoundaryError::AlreadyInitialized => ErrorCategory::WrongState,
            BoundaryError::NotModifiable => ErrorCategory::WrongState,
            BoundaryError::WrongState(_) => ErrorCategory::WrongState,
            BoundaryError::ResultsUnavailable => ErrorCategory::WrongState,
            BoundaryError::Poisoned => ErrorCategory::Internal,
            BoundaryError::Internal => ErrorCategory::Internal,
            BoundaryError::JoinFailed => ErrorCategory::Internal,
        }
    }
}

/// The number by which `entry` reports the refusal `error`.  Every entry
/// point numbers its refusals on its own; all numbers are negative.
pub open spec fn code_of(entry: EntryPoint, error: BoundaryError) -> i32 {
    match entry {
        EntryPoint::Initialize => match error {
            BoundaryError::NullInput => -1i32,
            BoundaryError::AlreadyInitialized => -2i32,
            _ => -3i32,
        },
        EntryPoint::AddTorch => match error {
            BoundaryError::NullInput => -1i32,
            BoundaryError::NotInitialized => -2i32,
            BoundaryError::Poisoned => -4i32,
            _ => -3i32,
        },
        EntryPoint::SetMaterial => match error {
            BoundaryError::NullInput => -1i32,
            BoundaryError::NotInitialized => -2i32,
            BoundaryError::Poisoned => -4i32,
            BoundaryError::NullName => -5i32,
            _ => -3i32,
        },
        EntryPoint::Run => match error {
            BoundaryError::NotInitialized => -1i32,
            _ => -2i32,
        },
        EntryPoint::Pause => match error {
            BoundaryError::NotInitialized => -1i32,
            BoundaryError::Poisoned => -2i32,
            _ => -3i32,
        },
        EntryPoint::Resume => match error {
            BoundaryError::NotInitialized => -1i32,
            BoundaryError::Poisoned => -2i32,
            _ => -3i32,
        },
        EntryPoint::GetState => match error {
            BoundaryError::NullInput => -1i32,
            BoundaryError::NotInitialized => -2i32,
            _ => -3i32,
        },
        EntryPoint::GetTemperature => match error {
            BoundaryError::NullInput => -1i32,
            BoundaryError::NotInitialized => -2i32,
            BoundaryError::InvalidStep { .. } => -3i32,
            BoundaryError::ResultsUnavailable => -4i32,
            BoundaryError::Poisoned => -5i32,
            BoundaryError::BufferTooSmall { .. } => -6i32,
            _ => -9i32,
        },
        EntryPoint::Destroy => match error {
            BoundaryError::NotInitialized => -1i32,
            _ => -3i32,
        },
    }
}

/// The number by which `entry` reports the refusal `error`.
pub fn error_code(entry: EntryPoint, error: BoundaryError) -> (code: i32)
    ensures
        code == code_of(entry, error),
        code < 0,
{
    match entry {
        EntryPoint::Initialize => match error {
            BoundaryError::NullInput => -1,
            BoundaryError::AlreadyInitialized => -2,
            _ => -3,
        },
        EntryPoint::AddTorch => match error {
            BoundaryError::NullInput => -1,
            BoundaryError::NotInitialized => -2,
            BoundaryError::Poisoned => -4,
            _ => -3,
        },
        EntryPoint::SetMaterial => match error {
            BoundaryError::NullInput => -1,
            BoundaryError::NotInitialized => -2,
            BoundaryError::Poisoned => -4,
            BoundaryError::NullName => -5,
            _ => -3,
        },
        EntryPoint::Run => match error {
            BoundaryError::NotInitialized => -1,
            _ => -2,
        },
        EntryPoint::Pause => match error {
            BoundaryError::NotInitialized => -1,
            BoundaryError::Poisoned => -2,
            _ => -3,
        },
        EntryPoint::Resume => match error {
            BoundaryError::NotInitialized => -1,
            BoundaryError::Poisoned => -2,
            _ => -3,
        },
        EntryPoint::GetState => match error {
            BoundaryError::NullInput => -1,
            BoundaryError::NotInitialized => -2,
            _ => -3,
        },
        EntryPoint::GetTemperature => match error {
            BoundaryError::NullInput => -1,
            BoundaryError::NotInitialized => -2,
            BoundaryError::InvalidStep { .. } => -3,
            BoundaryError::ResultsUnavailable => -4,
            BoundaryError::Poisoned => -5,
            BoundaryError::BufferTooSmall { .. } => -6,
            _ => -9,
        },
        EntryPoint::Destroy => match error {
            BoundaryError::NotInitialized => -1,
            _ => -3,
        },
    }
}

/// The number that crosses the boundary for the answer of `entry`: `0` for
/// a success and the number of the refusal otherwise.
pub fn status_code<T>(entry: EntryPoint, answer: &Result<T, BoundaryError>) -> (code: i32)
    ensures
        code == (match *answer {
            Ok(_) => 0i32,
            Err(e) => code_of(entry, e),
        }),
{
    match answer {
        Ok(_) => 0,
        Err(e) => error_code(entry, *e),
    }
}

/// The number that crosses the boundary for the answer of
/// `get_temperature_data`: the number of values written, or the number of
/// the refusal.
pub fn count_code(answer: &Result<Vec<Scalar>, BoundaryError>) -> (code: i32)
    requires
        answer matches Ok(values) ==> values@.len() <= i32::MAX,
    ensures
        code == (match *answer {
            Ok(values) => values@.len() as i32,
            Err(e) => code_of(EntryPoint::GetTemperature, e),
        }),
{
    match answer {
        Ok(values) => values.len() as i32,
        Err(e) => error_code(EntryPoint::GetTemperature, *e),
    }
}

/// The number by which a status crosses the boundary.
pub open spec fn status_number(status: SimulationStatus) -> i32 {
    match status {
        SimulationStatus::NotStarted => 0i32,
        SimulationStatus::Running => 1i32,
        SimulationStatus::Paused => 2i32,
        SimulationStatus::Completed => 3i32,
        SimulationStatus::Failed => 4i32,
        SimulationStatus::Cancelled => 5i32,
    }
}

/// What the text of a poisoned lock reads.
pub open spec fn poison_text() -> Seq<char> {
    "poisoned lock: another task failed inside"@
}

/// The message that `entry` leaves in the error slot for the refusal
/// `error`, for a simulation with the torches `torches`.
pub open spec fn message_text(
    entry: EntryPoint,
    error: BoundaryError,
    torches: Seq<PlasmaTorch>,
) -> Seq<char> {
    match error {
        BoundaryError::NullInput => match entry {
            EntryPoint::Initialize => "initialize_simulation: ffi_params pointer was null"@,
            EntryPoint::AddTorch => "add_plasma_torch: ffi_torch pointer was null"@,
            EntryPoint::SetMaterial => "set_material_properties: ffi_material pointer was null"@,
            EntryPoint::GetState => "get_simulation_state: ffi_state pointer was null"@,
            EntryPoint::GetTemperature => "get_temperature_data: buffer pointer was null"@,
            _ => "pointer was null"@,
        },
        BoundaryError::NullName => "set_material_properties: material name pointer was null"@,
        BoundaryError::NotInitialized => match entry {
            EntryPoint::AddTorch => "Simulation not initialized. Call initialize_simulation first."@,
            EntryPoint::SetMaterial => "Simulation not initialized. Call initialize_simulation first."@,
            EntryPoint::Run => "Simulation not initialized. Call initialize_simulation first."@,
            EntryPoint::Destroy => "Simulation already destroyed or never initialized."@,
            _ => "Simulation not initialized."@,
        },
        BoundaryError::AlreadyInitialized => "Simulation already initialized. Call destroy_simulation first."@,
        BoundaryError::InvalidCounts => "Invalid simulation parameters: node counts and time steps must be positive"@,
        BoundaryError::InvalidParameters(rule) => match entry {
            EntryPoint::Run => "Failed to start simulation: "@ + rule_text(rule, torches),
            _ => "Invalid simulation parameters: "@ + rule_text(rule, torches),
        },
        BoundaryError::NotModifiable => match entry {
            EntryPoint::SetMaterial => "Cannot set material properties for a running or completed simulation."@,
            _ => "Cannot add torch to a running or completed simulation."@,
        },
        BoundaryError::WrongState(refusal) => match entry {
            EntryPoint::Pause => "Failed to pause simulation: "@ + wrong_state_text(refusal),
            EntryPoint::Resume => "Failed to resume simulation: "@ + wrong_state_text(refusal),
            _ => "Failed to start simulation: "@ + wrong_state_text(refusal),
        },
        BoundaryError::Poisoned => match entry {
            EntryPoint::AddTorch => "Mutex poisoned while adding torch: "@ + poison_text(),
            EntryPoint::SetMaterial => "Mutex poisoned while setting material: "@ + poison_text(),
            EntryPoint::Run => "Failed to start simulation: Falha ao obter o estado da simulação"@,
            EntryPoint::Pause => "Mutex poisoned while pausing simulation: "@ + poison_text(),
            EntryPoint::Resume => "Mutex poisoned while resuming simulation: "@ + poison_text(),
            EntryPoint::GetState => "Failed to get simulation state: Falha ao obter o estado da simulação"@,
            _ => "Mutex poisoned while getting temperature data: "@ + poison_text(),
        },
        BoundaryError::ResultsUnavailable => "Simulation results not available (simulation not completed or no results stored)."@,
        BoundaryError::InvalidStep { step, last } => "Invalid time step index: "@ + signed_decimal(
            step as int,
        ) + ". Must be between 0 and "@ + decimal(last as nat) + "."@,
        BoundaryError::BufferTooSmall { provided, required } => "Buffer too small: provided size "@
            + decimal(provided as nat) + ", required size "@ + decimal(required as nat) + "."@,
        BoundaryError::Internal => "Internal error: the temperature history does not match the simulation parameters"@,
        BoundaryError::JoinFailed => "Error during simulation cleanup: the worker could not be joined"@,
    }
}

/// The text `prefix` followed by the text `rest`.
fn joined(prefix: &str, rest: &str) -> (text: String)
    ensures
        text@ == prefix@ + rest@,
{
    let mut text = prefix.to_owned();
    text.append(rest);
    text
}

/// The message that `entry` leaves in the error slot for the refusal
/// `error`, where there are no torches to name.
pub fn error_message(entry: EntryPoint, error: BoundaryError) -> (text: String)
    ensures
        text@ == message_text(entry, error, Seq::empty()),
{
    let none: Vec<PlasmaTorch> = Vec::new();
    error_message_with(entry, error, &none)
}

/// The message that `entry` leaves in the error slot for the refusal
/// `error`, for a simulation with the torches `torches`.
pub fn error_message_with(
    entry: EntryPoint,
    error: BoundaryError,
    torches: &Vec<PlasmaTorch>,
) -> (text: String)
    ensures
        text@ == message_text(entry, error, torches@),
{
    let poison = "poisoned lock: another task failed inside";
    match error {
        BoundaryError::NullInput => match entry {
            EntryPoint::Initialize => "initialize_simulation: ffi_params pointer was null".to_owned(),
            EntryPoint::AddTorch => "add_plasma_torch: ffi_torch pointer was null".to_owned(),
            EntryPoint::SetMaterial => "set_material_properties: ffi_material pointer was null".to_owned(),
            EntryPoint::GetState => "get_simulation_state: ffi_state pointer was null".to_owned(),
            EntryPoint::GetTemperature => "get_temperature_data: buffer pointer was null".to_owned(),
            _ => "pointer was null".to_owned(),
        },
        BoundaryError::NullName => "set_material_properties: material name pointer was null".to_owned(),
        BoundaryError::NotInitialized => match entry {
            EntryPoint::AddTorch => "Simulation not initialized. Call initialize_simulation first.".to_owned(),
            EntryPoint::SetMaterial => "Simulation not initialized. Call initialize_simulation first.".to_owned(),
            EntryPoint::Run => "Simulation not initialized. Call initialize_simulation first.".to_owned(),
            EntryPoint::Destroy => "Simulation already destroyed or never initialized.".to_owned(),
            _ => "Simulation not initialized.".to_owned(),
        },
        BoundaryError::AlreadyInitialized => "Simulation already initialized. Call destroy_simulation first.".to_owned(),
        BoundaryError::InvalidCounts => "Invalid simulation parameters: node counts and time steps must be positive".to_owned(),
        BoundaryError::InvalidParameters(rule) => {
            let detail = rule.message(torches);
            match entry {
                EntryPoint::Run => joined("Failed to start simulation: ", detail.as_str()),
                _ => joined("Invalid simulation parameters: ", detail.as_str()),
            }
        },
        BoundaryError::NotModifiable => match entry {
            EntryPoint::SetMaterial => "Cannot set material properties for a running or completed simulation.".to_owned(),
            _ => "Cannot add torch to a running or completed simulation.".to_owned(),
        },
        BoundaryError::WrongState(refusal) => {
            let detail = refusal.message();
            match entry {
                EntryPoint::Pause => joined("Failed to pause simulation: ", detail.as_str()),
                EntryPoint::Resume => joined("Failed to resume simulation: ", detail.as_str()),
                _ => joined("Failed to start simulation: ", detail.as_str()),
            }
        },
        BoundaryError::Poisoned => match entry {
            EntryPoint::AddTorch => joined("Mutex poisoned while adding torch: ", poison),
            EntryPoint::SetMaterial => joined("Mutex poisoned while setting material: ", poison),
            EntryPoint::Run => "Failed to start simulation: Falha ao obter o estado da simulação".to_owned(),
            EntryPoint::Pause => joined("Mutex poisoned while pausing simulation: ", poison),
            EntryPoint::Resume => joined("Mutex poisoned while resuming simulation: ", poison),
            EntryPoint::GetState => "Failed to get simulation state: Falha ao obter o estado da simulação".to_owned(),
            _ => joined("Mutex poisoned while getting temperature data: ", poison),
        },
        BoundaryError::ResultsUnavailable => "Simulation results not available (simulation not completed or no results stored).".to_owned(),
        BoundaryError::InvalidStep { step, last } => {
            let mut text = "Invalid time step index: ".to_owned();
            append_signed(&mut text, step);
            text.append(". Must be between 0 and ");
            append_decimal(&mut text, last);
            text.append(".");
            text
        },
        BoundaryError::BufferTooSmall { provided, required } => {
            let mut text = "Buffer too small: provided size ".to_owned();
            append_decimal(&mut text, provided);
            text.append(", required size ");
            append_decimal(&mut text, required);
            text.append(".");
            text
        },
        BoundaryError::Internal => "Internal error: the temperature history does not match the simulation parameters".to_owned(),
        BoundaryError::JoinFailed => "Error during simulation cleanup: the worker could not be joined".to_owned(),
    }
}

/// The error slot of a calling thread: the message of the last refusal,
/// until it is read.
#[derive(Debug)]
pub struct ErrorSlot {
    pub message: Option<String>,
}

impl ErrorSlot {
    /// An empty slot.
    pub fn new() -> (slot: ErrorSlot)
        ensures
            slot.message is None,
    {
        ErrorSlot { message: None }
    }
}

/// Leaves `err_msg` in the error slot, in place of what was there.
pub fn set_last_ffi_error(slot: &mut ErrorSlot, err_msg: String)
    ensures
        final(slot).message == Some(err_msg),
{
    slot.message = Some(err_msg);
}

/// The slot `after` is what `entry` leaves of the slot `before` for its
/// answer: the message of the refusal, or the slot as it was.
pub open spec fn reported<T>(
    before: ErrorSlot,
    after: ErrorSlot,
    entry: EntryPoint,
    answer: Result<T, BoundaryError>,
) -> bool {
    match answer {
        Ok(_) => after == before,
        Err(e) => after.message is Some && after.message.unwrap()@ == message_text(
            entry,
            e,
            Seq::empty(),
        ),
    }
}

/// Leaves the message of the refusal in the slot.
fn refuse(slot: &mut ErrorSlot, entry: EntryPoint, error: BoundaryError)
    ensures
        final(slot).message is Some,
        final(slot).message.unwrap()@ == message_text(entry, error, Seq::empty()),
{
    set_last_ffi_error(slot, error_message(entry, error));
}

/// The slot `after` is what `entry` leaves of the slot `before` for its
/// answer on a simulation with the torches `torches`.
pub open spec fn reported_with<T>(
    before: ErrorSlot,
    after: ErrorSlot,
    entry: EntryPoint,
    answer: Result<T, BoundaryError>,
    torches: Seq<PlasmaTorch>,
) -> bool {
    match answer {
        Ok(_) => after == before,
        Err(e) => after.message is Some && after.message.unwrap()@ == message_text(
            entry,
            e,
            torches,
        ),
    }
}

/// The torches of the simulation in the place, if there is one.
pub open spec fn torches_of(place: Option<SimulationState>) -> Seq<PlasmaTorch> {
    match place {
        Some(state) => state.parameters.torches@,
        None => Seq::empty(),
    }
}

/// The message of the last refusal, handed over to the caller: the message
/// in the slot, which is then empty, or else the message with which the
/// simulation failed, which stays.
pub fn get_last_error(slot: &mut ErrorSlot, simulation: &Option<SimulationState>) -> (r: Option<
    String,
>)
    ensures
        final(slot).message is None,
        r == (match old(slot).message {
            Some(text) => Some(text),
            None => match *simulation {
                Some(state) => state.error_message,
                None => None,
            },
        }),
{
    match slot.message.take() {
        Some(text) => Some(text),
        None => match simulation {
            Some(state) => state.error_message.clone(),
            None => None,
        },
    }
}

/// The parameter set that the record `ffi` stands for, or `None` when one
/// of its counts is not strictly positive.
pub open spec fn converted_parameters(ffi: FFISimulationParameters, p: SimulationParameters) -> bool {
    &&& p.height == ffi.height
    &&& p.radius == ffi.radius
    &&& p.nr == ffi.nr
    &&& p.nz == ffi.nz
    &&& p.ntheta == DEFAULT_NTHETA
    &&& p.torches@.len() == 0
    &&& p.material_zones is None
    &&& p.zone_map is None
    &&& p.initial_temperature == ffi.initial_temperature
    &&& p.ambient_temperature == ffi.ambient_temperature
    &&& p.convection_coefficient == ffi.convection_coefficient
    &&& p.enable_convection == ffi.enable_convection
    &&& p.enable_radiation == ffi.enable_radiation
    &&& p.enable_phase_changes
    &&& p.total_time == ffi.total_time
    &&& p.time_step == ffi.time_step
    &&& p.time_steps == ffi.time_steps
}

/// The counts of the record are strictly positive.
pub open spec fn counts_positive(ffi: FFISimulationParameters) -> bool {
    ffi.nr > 0 && ffi.nz > 0 && ffi.time_steps > 0
}

/// The parameter set that the record stands for: the scalars of the
/// record, the default material, no torch and no zones.  A record with a
/// count that is not strictly positive stands for none.
pub fn convert_ffi_parameters(ffi_params: &FFISimulationParameters) -> (r: Result<
    SimulationParameters,
    BoundaryError,
>)
    ensures
        r is Ok <==> counts_positive(*ffi_params),
        r matches Ok(p) ==> converted_parameters(*ffi_params, p),
        r matches Err(e) ==> e == BoundaryError::InvalidCounts,
{
    if ffi_params.nr <= 0 || ffi_params.nz <= 0 || ffi_params.time_steps <= 0 {
        return Err(BoundaryError::InvalidCounts);
    }
    let mut params = SimulationParameters::new(
        ffi_params.height,
        ffi_params.radius,
        ffi_params.nr as usize,
        ffi_params.nz as usize,
    );
    params.initial_temperature = ffi_params.initial_temperature;
    params.ambient_temperature = ffi_params.ambient_temperature;
    params.convection_coefficient = ffi_params.convection_coefficient;
    params.enable_convection = ffi_params.enable_convection;
    params.enable_radiation = ffi_params.enable_radiation;
    params.total_time = ffi_params.total_time;
    params.time_step = ffi_params.time_step;
    params.time_steps = ffi_params.time_steps as usize;
    Ok(params)
}

/// The torch that the record stands for, under the identifier `id`.
pub fn convert_ffi_torch(ffi_torch: &FFIPlasmaTorch, id: &str) -> (torch: PlasmaTorch)
    ensures
        torch.id@ == id@,
        torch.r_position == ffi_torch.r_position,
        torch.z_position == ffi_torch.z_position,
        torch.pitch == ffi_torch.pitch,
        torch.yaw == ffi_torch.yaw,
        torch.power == ffi_torch.power,
        torch.gas_flow == ffi_torch.gas_flow,
        torch.gas_temperature == ffi_torch.gas_temperature,
{
    PlasmaTorch::new(
        id,
        ffi_torch.r_position,
        ffi_torch.z_position,
        ffi_torch.pitch,
        ffi_torch.yaw,
        ffi_torch.power,
        ffi_torch.gas_flow,
        ffi_torch.gas_temperature,
    )
}

/// The material `m` is what the record `ffi` stands for under the name
/// `name`: its properties are those of the record, and each phase
/// parameter is set exactly when the record gives a strictly positive
/// number for it.
pub open spec fn converted_material(
    ffi: FFIMaterialProperties,
    name: Seq<char>,
    m: MaterialProperties,
) -> bool {
    &&& m.name@ == name
    &&& m.density == ffi.density
    &&& m.moisture_content == ffi.moisture_content
    &&& m.specific_heat == ffi.specific_heat
    &&& m.thermal_conductivity == ffi.thermal_conductivity
    &&& m.emissivity == ffi.emissivity
    &&& m.melting_point == offered(None, ffi.melting_point)
    &&& m.latent_heat_fusion == offered(None, ffi.latent_heat_fusion)
    &&& m.vaporization_point == offered(None, ffi.vaporization_point)
    &&& m.latent_heat_vaporization == offered(None, ffi.latent_heat_vaporization)
}

/// The material that the record stands for, or `None` when the record has
/// no name.
pub fn convert_ffi_material(ffi_material: &FFIMaterialProperties) -> (r: Option<MaterialProperties>)
    ensures
        r is Some <==> ffi_material.name is Some,
        r matches Some(m) ==> converted_material(*ffi_material, ffi_material.name.unwrap()@, m),
{
    let name = match &ffi_material.name {
        Some(name) => name,
        None => {
            return None;
        },
    };
    let mut material = MaterialProperties::new(
        name.as_str(),
        ffi_material.density,
        ffi_material.specific_heat,
        ffi_material.thermal_conductivity,
    );
    material.moisture_content = ffi_material.moisture_content;
    material.emissivity = ffi_material.emissivity;
    material.set_melting_point(ffi_material.melting_point);
    material.set_latent_heat_fusion(ffi_material.latent_heat_fusion);
    material.set_vaporization_point(ffi_material.vaporization_point);
    material.set_latent_heat_vaporization(ffi_material.latent_heat_vaporization);
    Some(material)
}

/// The flat record of the state as it crosses the boundary.
pub fn convert_simulation_state(state: &SimulationState) -> (record: FFISimulationState)
    ensures
        record.status == status_number(state.status),
        record.progress == state.progress,
        record.error_message == state.error_message,
        record.execution_time == state.execution_time,
{
    let status: i32 = match state.status {
        SimulationStatus::NotStarted => 0,
        SimulationStatus::Running => 1,
        SimulationStatus::Paused => 2,
        SimulationStatus::Completed => 3,
        SimulationStatus::Failed => 4,
        SimulationStatus::Cancelled => 5,
    };
    FFISimulationState {
        status,
        progress: state.progress,
        error_message: state.error_message.clone(),
        execution_time: state.execution_time,
    }
}

/// The simulation in the place, if there is one, has fields that fit its
/// status.
pub open spec fn place_consistent(place: Option<SimulationState>) -> bool {
    place matches Some(state) ==> state.consistent()
}

/// The answer of `initialize_simulation`.
pub open spec fn initialize_answer(
    occupied: bool,
    ffi_params: Option<&FFISimulationParameters>,
    frame: Option<ValidationError>,
) -> Result<(), BoundaryError> {
    match ffi_params {
        None => Err(BoundaryError::NullInput),
        Some(record) => if occupied {
            Err(BoundaryError::AlreadyInitialized)
        } else if !counts_positive(*record) {
            Err(BoundaryError::InvalidCounts)
        } else {
            match frame {
                Some(rule) => Err(BoundaryError::InvalidParameters(rule)),
                None => Ok(()),
            }
        },
    }
}

/// The first rule on the cylinder, the mesh and the times that the record
/// breaks.
pub open spec fn record_violation(ffi: FFISimulationParameters) -> Option<ValidationError> {
    if !ffi.height.positive() {
        Some(ValidationError::Height)
    } else if !ffi.radius.positive() {
        Some(ValidationError::Radius)
    } else if ffi.nr < 2 {
        Some(ValidationError::RadialNodes)
    } else if ffi.nz < 2 {
        Some(ValidationError::AxialNodes)
    } else if !ffi.time_step.positive() {
        Some(ValidationError::TimeStep)
    } else if !ffi.total_time.positive() {
        Some(ValidationError::TotalTime)
    } else {
        None
    }
}

/// Makes the simulation from the record of its parameters.
///
/// Refused without a record, when there is a simulation already, and when
/// the record breaks a rule on the cylinder, the mesh or the times.  The
/// torches are added afterwards, so the rules on them are left to the run.
pub fn initialize_simulation(
    slot: &mut Option<SimulationState>,
    errors: &mut ErrorSlot,
    ffi_params: Option<&FFISimulationParameters>,
) -> (r: Result<(), BoundaryError>)
    ensures
        ffi_params matches Some(record) ==> r == initialize_answer(
            (*old(slot)) is Some,
            ffi_params,
            record_violation(*record),
        ),
        ffi_params is None ==> r == Err::<(), BoundaryError>(BoundaryError::NullInput),
        r is Err ==> *final(slot) == *old(slot),
        r is Ok ==> {
            &&& (*final(slot)) is Some
            &&& final(slot).unwrap().status == SimulationStatus::NotStarted
            &&& final(slot).unwrap().consistent()
            &&& !final(slot).unwrap().cancel_requested
            &&& final(slot).unwrap().error_message is None
            &&& converted_parameters(*ffi_params.unwrap(), final(slot).unwrap().parameters)
        },
        place_consistent(*old(slot)) ==> place_consistent(*final(slot)),
        reported(*old(errors), *final(errors), EntryPoint::Initialize, r),
{
    let record = match ffi_params {
        Some(record) => record,
        None => {
            refuse(errors, EntryPoint::Initialize, BoundaryError::NullInput);
            return Err(BoundaryError::NullInput);
        },
    };
    if slot.is_some() {
        refuse(errors, EntryPoint::Initialize, BoundaryError::AlreadyInitialized);
        return Err(BoundaryError::AlreadyInitialized);
    }
    let params = match convert_ffi_parameters(record) {
        Ok(params) => params,
        Err(e) => {
            refuse(errors, EntryPoint::Initialize, e);
            return Err(e);
        },
    };
    match params.validate_frame() {
        Ok(()) => {},
        Err(rule) => {
            let e = BoundaryError::InvalidParameters(rule);
            refuse(errors, EntryPoint::Initialize, e);
            return Err(e);
        },
    }
    *slot = Some(SimulationState::new(params));
    Ok(())
}

/// The refusal of an entry point that changes the parameters of the
/// simulation in a place where that cannot be done, if it is one.
pub open spec fn edit_refusal(
    simulation: Option<SimulationState>,
    poisoned: bool,
) -> Option<BoundaryError> {
    match simulation {
        None => Some(BoundaryError::NotInitialized),
        Some(state) => if poisoned {
            Some(BoundaryError::Poisoned)
        } else if state.status != SimulationStatus::NotStarted {
            Some(BoundaryError::NotModifiable)
        } else {
            None
        },
    }
}

/// The identifier of the torch that is added to `count` torches.
pub open spec fn torch_name(count: nat) -> Seq<char> {
    "torch"@ + decimal(count)
}

/// Adds a torch to a simulation that has not been started.  The torch
/// gets the identifier `torch` followed by its index in the list of
/// torches.
pub fn add_plasma_torch(
    slot: &mut Option<SimulationState>,
    poisoned: bool,
    errors: &mut ErrorSlot,
    ffi_torch: Option<&FFIPlasmaTorch>,
) -> (r: Result<(), BoundaryError>)
    ensures
        r == (match ffi_torch {
            None => Err::<(), BoundaryError>(BoundaryError::NullInput),
            Some(_) => match edit_refusal(*old(slot), poisoned) {
                Some(e) => Err(e),
                None => Ok(()),
            },
        }),
        r is Err ==> *final(slot) == *old(slot),
        r is Ok ==> {
            let before = old(slot).unwrap();
            let after = final(slot).unwrap();
            &&& (*final(slot)) is Some
            &&& after == (SimulationState {
                parameters: SimulationParameters {
                    torches: after.parameters.torches,
                    ..before.parameters
                },
                ..before
            })
            &&& after.parameters.torches@.len() == before.parameters.torches@.len() + 1
            &&& after.parameters.torches@.drop_last() == before.parameters.torches@
            &&& after.parameters.torches@.last().id@ == torch_name(
                before.parameters.torches@.len(),
            )
            &&& after.parameters.torches@.last().r_position == ffi_torch.unwrap().r_position
            &&& after.parameters.torches@.last().z_position == ffi_torch.unwrap().z_position
            &&& after.parameters.torches@.last().pitch == ffi_torch.unwrap().pitch
            &&& after.parameters.torches@.last().yaw == ffi_torch.unwrap().yaw
            &&& after.parameters.torches@.last().power == ffi_torch.unwrap().power
            &&& after.parameters.torches@.last().gas_flow == ffi_torch.unwrap().gas_flow
            &&& after.parameters.torches@.last().gas_temperature == ffi_torch.unwrap().gas_temperature
        },
        place_consistent(*old(slot)) ==> place_consistent(*final(slot)),
        reported(*old(errors), *final(errors), EntryPoint::AddTorch, r),
{
    let record = match ffi_torch {
        Some(record) => record,
        None => {
            refuse(errors, EntryPoint::AddTorch, BoundaryError::NullInput);
            return Err(BoundaryError::NullInput);
        },
    };
    let mut state = match slot.take() {
        Some(state) => state,
        None => {
            refuse(errors, EntryPoint::AddTorch, BoundaryError::NotInitialized);
            return Err(BoundaryError::NotInitialized);
        },
    };
    if poisoned {
        *slot = Some(state);
        refuse(errors, EntryPoint::AddTorch, BoundaryError::Poisoned);
        return Err(BoundaryError::Poisoned);
    }
    match state.status {
        SimulationStatus::NotStarted => {},
        _ => {
            *slot = Some(state);
            refuse(errors, EntryPoint::AddTorch, BoundaryError::NotModifiable);
            return Err(BoundaryError::NotModifiable);
        },
    }
    let count = state.parameters.torches.len();
    let id = with_number("torch", count);
    let torch = convert_ffi_torch(record, id.as_str());
    state.parameters.add_torch(torch);
    proof {
        assert(state.parameters.torches@.drop_last() =~= old(slot).unwrap().parameters.torches@);
    }
    *slot = Some(state);
    Ok(())
}

/// Replaces the material of a simulation that has not been started.
pub fn set_material_properties(
    slot: &mut Option<SimulationState>,
    poisoned: bool,
    errors: &mut ErrorSlot,
    ffi_material: Option<&FFIMaterialProperties>,
) -> (r: Result<(), BoundaryError>)
    ensures
        r == (match ffi_material {
            None => Err::<(), BoundaryError>(BoundaryError::NullInput),
            Some(record) => if record.name is None {
                Err(BoundaryError::NullName)
            } else {
                match edit_refusal(*old(slot), poisoned) {
                    Some(e) => Err(e),
                    None => Ok(()),
                }
            },
        }),
        r is Err ==> *final(slot) == *old(slot),
        r is Ok ==> {
            let before = old(slot).unwrap();
            let after = final(slot).unwrap();
            &&& (*final(slot)) is Some
            &&& after == (SimulationState {
                parameters: SimulationParameters {
                    material: after.parameters.material,
                    ..before.parameters
                },
                ..before
            })
            &&& converted_material(
                *ffi_material.unwrap(),
                ffi_material.unwrap().name.unwrap()@,
                after.parameters.material,
            )
        },
        place_consistent(*old(slot)) ==> place_consistent(*final(slot)),
        reported(*old(errors), *final(errors), EntryPoint::SetMaterial, r),
{
    let record = match ffi_material {
        Some(record) => record,
        None => {
            refuse(errors, EntryPoint::SetMaterial, BoundaryError::NullInput);
            return Err(BoundaryError::NullInput);
        },
    };
    let material = match convert_ffi_material(record) {
        Some(material) => material,
        None => {
            refuse(errors, EntryPoint::SetMaterial, BoundaryError::NullName);
            return Err(BoundaryError::NullName);
        },
    };
    let mut state = match slot.take() {
        Some(state) => state,
        None => {
            refuse(errors, EntryPoint::SetMaterial, BoundaryError::NotInitialized);
            return Err(BoundaryError::NotInitialized);
        },
    };
    if poisoned {
        *slot = Some(state);
        refuse(errors, EntryPoint::SetMaterial, BoundaryError::Poisoned);
        return Err(BoundaryError::Poisoned);
    }
    match state.status {
        SimulationStatus::NotStarted => {},
        _ => {
            *slot = Some(state);
            refuse(errors, EntryPoint::SetMaterial, BoundaryError::NotModifiable);
            return Err(BoundaryError::NotModifiable);
        },
    }
    state.parameters.set_material(material);
    *slot = Some(state);
    Ok(())
}

/// The refusal of a control entry point that finds no simulation, or its
/// lock poisoned, if it is one.
pub open spec fn access_refusal(
    simulation: Option<SimulationState>,
    poisoned: bool,
) -> Option<BoundaryError> {
    match simulation {
        None => Some(BoundaryError::NotInitialized),
        Some(_) => if poisoned {
            Some(BoundaryError::Poisoned)
        } else {
            None
        },
    }
}

/// The refusal of `run_simulation`, if it is one.
pub open spec fn run_refusal(simulation: Option<SimulationState>, poisoned: bool) -> Option<
    BoundaryError,
> {
    if access_refusal(simulation, poisoned) is Some {
        access_refusal(simulation, poisoned)
    } else if simulation.unwrap().status != SimulationStatus::NotStarted {
        Some(
            BoundaryError::WrongState(
                WrongState { operation: Operation::Start, found: simulation.unwrap().status },
            ),
        )
    } else {
        match simulation.unwrap().parameters.violation() {
            Some(rule) => Some(BoundaryError::InvalidParameters(rule)),
            None => None,
        }
    }
}

/// Starts the simulation.  The answer holds the parameters for the worker
/// that the caller is to spawn.
///
/// A simulation whose parameters break a rule is not started: it stays as
/// it is, and the rule is the answer.
pub fn run_simulation(
    slot: &mut Option<SimulationState>,
    poisoned: bool,
    errors: &mut ErrorSlot,
) -> (r: Result<SimulationParameters, BoundaryError>)
    ensures
        r is Ok <==> run_refusal(*old(slot), poisoned) is None,
        r matches Err(e) ==> *final(slot) == *old(slot) && run_refusal(*old(slot), poisoned)
            == Some(e),
        r matches Ok(p) ==> {
            let before = old(slot).unwrap();
            let after = final(slot).unwrap();
            &&& (*final(slot)) is Some
            &&& p.same_as(&before.parameters)
            &&& before.parameters.valid()
            &&& after.start_time is Some
            &&& after == (SimulationState {
                status: SimulationStatus::Running,
                progress: Progress { completed: 0, total: 1 },
                error_message: None,
                start_time: after.start_time,
                ..before
            })
        },
        place_consistent(*old(slot)) ==> place_consistent(*final(slot)),
        reported_with(*old(errors), *final(errors), EntryPoint::Run, r, torches_of(*old(slot))),
{
    let mut state = match slot.take() {
        Some(state) => state,
        None => {
            refuse(errors, EntryPoint::Run, BoundaryError::NotInitialized);
            return Err(BoundaryError::NotInitialized);
        },
    };
    if poisoned {
        *slot = Some(state);
        refuse(errors, EntryPoint::Run, BoundaryError::Poisoned);
        return Err(BoundaryError::Poisoned);
    }
    match state.status {
        SimulationStatus::NotStarted => {},
        found => {
            *slot = Some(state);
            let e = BoundaryError::WrongState(WrongState { operation: Operation::Start, found });
            refuse(errors, EntryPoint::Run, e);
            return Err(e);
        },
    }
    match state.parameters.validate() {
        Ok(()) => {},
        Err(rule) => {
            let e = BoundaryError::InvalidParameters(rule);
            let text = error_message_with(EntryPoint::Run, e, &state.parameters.torches);
            set_last_ffi_error(errors, text);
            *slot = Some(state);
            return Err(e);
        },
    }
    proof {
        violation_none_iff_valid(state.parameters);
    }
    let answer = state.begin_run();
    *slot = Some(state);
    match answer {
        Ok(params) => Ok(params),
        Err(refusal) => {
            let e = BoundaryError::WrongState(refusal);
            refuse(errors, EntryPoint::Run, e);
            Err(e)
        },
    }
}

/// Pauses the simulation.
pub fn pause_simulation(
    slot: &mut Option<SimulationState>,
    poisoned: bool,
    errors: &mut ErrorSlot,
) -> (r: Result<(), BoundaryError>)
    ensures
        r == (match access_refusal(*old(slot), poisoned) {
            Some(e) => Err::<(), BoundaryError>(e),
            None => match old(slot).unwrap().paused() {
                Ok(_) => Ok(()),
                Err(refusal) => Err(BoundaryError::WrongState(refusal)),
            },
        }),
        r is Err ==> *final(slot) == *old(slot),
        r is Ok ==> *final(slot) == Some(old(slot).unwrap().paused().unwrap()),
        place_consistent(*old(slot)) ==> place_consistent(*final(slot)),
        reported(*old(errors), *final(errors), EntryPoint::Pause, r),
{
    let mut state = match slot.take() {
        Some(state) => state,
        None => {
            refuse(errors, EntryPoint::Pause, BoundaryError::NotInitialized);
            return Err(BoundaryError::NotInitialized);
        },
    };
    if poisoned {
        *slot = Some(state);
        refuse(errors, EntryPoint::Pause, BoundaryError::Poisoned);
        return Err(BoundaryError::Poisoned);
    }
    let answer = state.pause();
    *slot = Some(state);
    match answer {
        Ok(()) => Ok(()),
        Err(refusal) => {
            let e = BoundaryError::WrongState(refusal);
            refuse(errors, EntryPoint::Pause, e);
            Err(e)
        },
    }
}

/// Resumes the simulation.
pub fn resume_simulation(
    slot: &mut Option<SimulationState>,
    poisoned: bool,
    errors: &mut ErrorSlot,
) -> (r: Result<(), BoundaryError>)
    ensures
        r == (match access_refusal(*old(slot), poisoned) {
            Some(e) => Err::<(), BoundaryError>(e),
            None => match old(slot).unwrap().resumed() {
                Ok(_) => Ok(()),
                Err(refusal) => Err(BoundaryError::WrongState(refusal)),
            },
        }),
        r is Err ==> *final(slot) == *old(slot),
        r is Ok ==> *final(slot) == Some(old(slot).unwrap().resumed().unwrap()),
        place_consistent(*old(slot)) ==> place_consistent(*final(slot)),
        reported(*old(errors), *final(errors), EntryPoint::Resume, r),
{
    let mut state = match slot.take() {
        Some(state) => state,
        None => {
            refuse(errors, EntryPoint::Resume, BoundaryError::NotInitialized);
            return Err(BoundaryError::NotInitialized);
        },
    };
    if poisoned {
        *slot = Some(state);
        refuse(errors, EntryPoint::Resume, BoundaryError::Poisoned);
        return Err(BoundaryError::Poisoned);
    }
    let answer = state.resume();
    *slot = Some(state);
    match answer {
        Ok(()) => Ok(()),
        Err(refusal) => {
            let e = BoundaryError::WrongState(refusal);
            refuse(errors, EntryPoint::Resume, e);
            Err(e)
        },
    }
}

/// Reads the flat record of the state.  `has_output` tells whether the
/// caller gave a place to write it to.
pub fn get_simulation_state(
    slot: &Option<SimulationState>,
    poisoned: bool,
    errors: &mut ErrorSlot,
    has_output: bool,
) -> (r: Result<FFISimulationState, BoundaryError>)
    ensures
        r is Ok <==> has_output && access_refusal(*slot, poisoned) is None,
        r matches Err(e) ==> e == if !has_output {
            BoundaryError::NullInput
        } else {
            access_refusal(*slot, poisoned).unwrap()
        },
        r matches Ok(record) ==> {
            &&& record.status == status_number(slot.unwrap().status)
            &&& record.progress == slot.unwrap().progress
            &&& record.error_message == slot.unwrap().error_message
            &&& record.execution_time == slot.unwrap().execution_time
        },
        reported(*old(errors), *final(errors), EntryPoint::GetState, r),
{
    if !has_output {
        refuse(errors, EntryPoint::GetState, BoundaryError::NullInput);
        return Err(BoundaryError::NullInput);
    }
    let state = match slot {
        Some(state) => state,
        None => {
            refuse(errors, EntryPoint::GetState, BoundaryError::NotInitialized);
            return Err(BoundaryError::NotInitialized);
        },
    };
    if poisoned {
        refuse(errors, EntryPoint::GetState, BoundaryError::Poisoned);
        return Err(BoundaryError::Poisoned);
    }
    Ok(convert_simulation_state(state))
}

/// Asks the simulation to stop, as the first half of its destruction: the
/// caller then joins the worker and calls [`destroy_simulation`].
pub fn request_destroy(slot: &mut Option<SimulationState>, errors: &mut ErrorSlot) -> (r: Result<
    (),
    BoundaryError,
>)
    ensures
        r == (match *old(slot) {
            None => Err::<(), BoundaryError>(BoundaryError::NotInitialized),
            Some(_) => Ok(()),
        }),
        r is Err ==> *final(slot) == *old(slot),
        r is Ok ==> *final(slot) == Some(
            SimulationState {
                cancel_requested: old(slot).unwrap().cancel_requested || !old(
                    slot,
                ).unwrap().status.terminal(),
                ..old(slot).unwrap()
            },
        ),
        place_consistent(*old(slot)) ==> place_consistent(*final(slot)),
        reported(*old(errors), *final(errors), EntryPoint::Destroy, r),
{
    let mut state = match slot.take() {
        Some(state) => state,
        None => {
            refuse(errors, EntryPoint::Destroy, BoundaryError::NotInitialized);
            return Err(BoundaryError::NotInitialized);
        },
    };
    state.request_cancellation();
    *slot = Some(state);
    Ok(())
}

/// Destroys the simulation, once the worker is gone or was found gone:
/// the place is empty afterwards, whatever the answer.  `joined` tells
/// whether the worker, if there was one, could be joined.
pub fn destroy_simulation(
    slot: &mut Option<SimulationState>,
    errors: &mut ErrorSlot,
    joined: bool,
) -> (r: Result<(), BoundaryError>)
    ensures
        (*final(slot)) is None,
        r == (match *old(slot) {
            None => Err::<(), BoundaryError>(BoundaryError::NotInitialized),
            Some(_) => if joined {
                Ok(())
            } else {
                Err(BoundaryError::JoinFailed)
            },
        }),
        place_consistent(*old(slot)) ==> place_consistent(*final(slot)),
        reported(*old(errors), *final(errors), EntryPoint::Destroy, r),
{
    match slot.take() {
        None => {
            refuse(errors, EntryPoint::Destroy, BoundaryError::NotInitialized);
            Err(BoundaryError::NotInitialized)
        },
        Some(_) => {
            if joined {
                Ok(())
            } else {
                refuse(errors, EntryPoint::Destroy, BoundaryError::JoinFailed);
                Err(BoundaryError::JoinFailed)
            }
        },
    }
}

/// Once the simulation is destroyed, a record that breaks no rule makes a
/// fresh one.
pub proof fn fresh_initialize_succeeds(record: FFISimulationParameters)
    requires
        counts_positive(record),
        record_violation(record) is None,
    ensures
        initialize_answer(false, Some(&record), record_violation(record)) is Ok,
{
}

/// The history that a caller may read, with the last step recorded in it:
/// the results of a completed run, with all their steps, or the partial
/// history of a cancelled run, up to its last completed step.
pub open spec fn readable(state: SimulationState) -> Option<(SimulationResults, usize)> {
    if state.status == SimulationStatus::Completed && state.results is Some {
        Some((state.results.unwrap(), state.results.unwrap().parameters.time_steps))
    } else if state.status == SimulationStatus::Cancelled && state.partial_results is Some {
        Some((state.partial_results.unwrap(), state.last_completed_step))
    } else {
        None
    }
}

/// The plane `step` of a history in row-major order: the value of node
/// `(i, j)` stands at index `i * cols + j`.
pub open spec fn row_major(history: &Field3, step: int) -> Seq<Scalar> {
    Seq::new(
        history.rows() * history.cols(),
        |index: int| history.at(index / history.cols() as int, index % history.cols() as int, step),
    )
}

/// The refusal of `get_temperature_data`, if it is one.
pub open spec fn temperature_refusal(
    simulation: Option<SimulationState>,
    poisoned: bool,
    has_buffer: bool,
    time_step: i32,
    buffer_size: usize,
) -> Option<BoundaryError> {
    if !has_buffer {
        Some(BoundaryError::NullInput)
    } else if access_refusal(simulation, poisoned) is Some {
        access_refusal(simulation, poisoned)
    } else {
        match readable(simulation.unwrap()) {
            None => Some(BoundaryError::ResultsUnavailable),
            Some((results, last)) => {
                let count = results.temperature.rows() * results.temperature.cols();
                if !results.shaped() || last >= results.temperature.depth() || count > i32::MAX {
                    Some(BoundaryError::Internal)
                } else if time_step < 0 || time_step > last {
                    Some(BoundaryError::InvalidStep { step: time_step, last })
                } else if buffer_size < count {
                    Some(BoundaryError::BufferTooSmall { provided: buffer_size, required: count as usize })
                } else {
                    None
                }
            },
        }
    }
}

/// The value of node `(i, j)` stands at index `i * cols + j` of the plane
/// in row-major order.
pub proof fn row_major_at(history: &Field3, step: int, i: int, j: int)
    requires
        0 <= i < history.rows(),
        0 <= j < history.cols(),
    ensures
        0 <= i * history.cols() + j < row_major(history, step).len(),
        row_major(history, step)[i * history.cols() + j] == history.at(i, j, step),
{
    let cols = history.cols() as int;
    let rows = history.rows() as int;
    lemma_fundamental_div_mod_converse(i * cols + j, cols, i, j);
    assert(i * cols + j < rows * cols) by (nonlinear_arith)
        requires
            0 <= i < rows,
            0 <= j < cols,
    ;
    assert(0 <= i * cols + j) by (nonlinear_arith)
        requires
            0 <= i,
            0 <= j,
            0 <= cols,
    ;
}

/// Reads the temperature field after `time_step` steps, in row-major
/// order, for a caller whose buffer holds `buffer_size` values.
///
/// The history of a completed run can be read at every step, that of a
/// cancelled run up to its last completed step.  `has_buffer` tells
/// whether the caller gave a buffer at all.
pub fn get_temperature_data(
    slot: &Option<SimulationState>,
    poisoned: bool,
    errors: &mut ErrorSlot,
    time_step: i32,
    has_buffer: bool,
    buffer_size: usize,
) -> (r: Result<Vec<Scalar>, BoundaryError>)
    ensures
        r is Ok <==> temperature_refusal(*slot, poisoned, has_buffer, time_step, buffer_size)
            is None,
        r matches Err(e) ==> temperature_refusal(*slot, poisoned, has_buffer, time_step, buffer_size)
            == Some(e),
        r matches Ok(values) ==> {
            &&& values@ == row_major(&readable(slot.unwrap()).unwrap().0.temperature, time_step as int)
            &&& values@.len() <= buffer_size
            &&& values@.len() <= i32::MAX
        },
        reported(*old(errors), *final(errors), EntryPoint::GetTemperature, r),
{
    if !has_buffer {
        refuse(errors, EntryPoint::GetTemperature, BoundaryError::NullInput);
        return Err(BoundaryError::NullInput);
    }
    let state = match slot {
        Some(state) => state,
        None => {
            refuse(errors, EntryPoint::GetTemperature, BoundaryError::NotInitialized);
            return Err(BoundaryError::NotInitialized);
        },
    };
    if poisoned {
        refuse(errors, EntryPoint::GetTemperature, BoundaryError::Poisoned);
        return Err(BoundaryError::Poisoned);
    }
    let source: Option<(&SimulationResults, usize)> = match state.status {
        SimulationStatus::Completed => match &state.results {
            Some(results) => Some((results, results.parameters.time_steps)),
            None => None,
        },
        SimulationStatus::Cancelled => match &state.partial_results {
            Some(partial) => Some((partial, state.last_completed_step)),
            None => None,
        },
        _ => None,
    };
    let (results, last) = match source {
        Some(pair) => pair,
        None => {
            refuse(errors, EntryPoint::GetTemperature, BoundaryError::ResultsUnavailable);
            return Err(BoundaryError::ResultsUnavailable);
        },
    };
    let history = &results.temperature;
    let rows = history.row_count();
    let cols = history.col_count();
    let depth = history.depth_count();
    let shaped = rows == results.parameters.nr && cols == results.parameters.nz
        && results.parameters.time_steps < usize::MAX && depth == results.parameters.time_steps + 1;
    let count: usize = match rows.checked_mul(cols) {
        Some(count) => count,
        None => {
            refuse(errors, EntryPoint::GetTemperature, BoundaryError::Internal);
            return Err(BoundaryError::Internal);
        },
    };
    if !shaped || last >= depth || count > i32::MAX as usize {
        refuse(errors, EntryPoint::GetTemperature, BoundaryError::Internal);
        return Err(BoundaryError::Internal);
    }
    if time_step < 0 || time_step as usize > last {
        let e = BoundaryError::InvalidStep { step: time_step, last };
        refuse(errors, EntryPoint::GetTemperature, e);
        return Err(e);
    }
    if buffer_size < count {
        let e = BoundaryError::BufferTooSmall { provided: buffer_size, required: count };
        refuse(errors, EntryPoint::GetTemperature, e);
        return Err(e);
    }
    let step = time_step as usize;
    let mut values: Vec<Scalar> = Vec::new();
    let mut i: usize = 0;
    while i < rows
        invariant
            i <= rows,
            rows == history.rows(),
            cols == history.cols(),
            step < history.depth(),
            count == rows * cols,
            values@.len() == i * cols,
            forall|index: int|
                0 <= index < values@.len() ==> #[trigger] values@[index] == history.at(
                    index / cols as int,
                    index % cols as int,
                    step as int,
                ),
        decreases rows - i,
    {
        let mut j: usize = 0;
        while j < cols
            invariant
                i < rows,
                j <= cols,
                rows == history.rows(),
                cols == history.cols(),
                step < history.depth(),
                count == rows * cols,
                values@.len() == i * cols + j,
                forall|index: int|
                    0 <= index < values@.len() ==> #[trigger] values@[index] == history.at(
                        index / cols as int,
                        index % cols as int,
                        step as int,
                    ),
            decreases cols - j,
        {
            proof {
                lemma_fundamental_div_mod_converse(
                    i as int * cols as int + j as int,
                    cols as int,
                    i as int,
                    j as int,
                );
            }
            values.push(history.get(i, j, step));
            j += 1;
        }
        proof {
            assert((i + 1) * cols == i * cols + cols) by (nonlinear_arith);
        }
        i += 1;
    }
    proof {
        assert(values@ =~= row_major(history, step as int));
    }
    Ok(values)
}

/// The plane `0` of a sound history reads as the initial temperature in
/// every node: what was put in comes out.
pub proof fn initial_plane_reads_initial_temperature(results: SimulationResults, steps: int)
    requires
        results.sound(steps),
    ensures
        row_major(&results.temperature, 0).len() == results.parameters.nr * results.parameters.nz,
        forall|index: int|
            0 <= index < row_major(&results.temperature, 0).len() ==> #[trigger] row_major(
                &results.temperature,
                0,
            )[index] == results.parameters.initial_temperature,
{
    let cols = results.temperature.cols() as int;
    let rows = results.temperature.rows() as int;
    assert forall|index: int| 0 <= index < row_major(&results.temperature, 0).len() implies (
    #[trigger] row_major(&results.temperature, 0)[index]) == results.parameters.initial_temperature by {
        assert(cols > 0) by (nonlinear_arith)
            requires
                0 <= index < rows * cols,
                0 <= cols,
        ;
        lemma_fundamental_div_mod(index, cols);
        let i = index / cols;
        let j = index % cols;
        assert(0 <= j < cols);
        assert(0 <= i < rows) by (nonlinear_arith)
            requires
                0 <= index < rows * cols,
                index == cols * i + j,
                0 <= j < cols,
        ;
        assert(results.temperature.at(i, j, 0) == results.parameters.initial_temperature);
    }
}

} // verus!
