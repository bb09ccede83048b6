//! The parameter set of a simulation and the rules that admit it.

use vstd::prelude::*;
use vstd::string::StringExecFns;
use crate::material::MaterialProperties;
use crate::mesh::{same_zones, ZoneMap};
use crate::scalar::Scalar;
use crate::text::{decimal, with_number};
use crate::torch::PlasmaTorch;

verus! {

/// Encoding of `25.0`, the default initial and ambient temperature in °C.
pub const DEFAULT_TEMPERATURE_BITS: u64 = 0x4039_0000_0000_0000;

/// Encoding of `10.0`, the default convection coefficient in W/(m²·K).
pub const DEFAULT_CONVECTION_BITS: u64 = 0x4024_0000_0000_0000;

/// Encoding of `100.0`, the default total time in seconds.
pub const DEFAULT_TOTAL_TIME_BITS: u64 = 0x4059_0000_0000_0000;

/// Encoding of `1.0`, the default time step in seconds.
pub const DEFAULT_TIME_STEP_BITS: u64 = 0x3ff0_0000_0000_0000;

/// Encoding of `7850.0`, the density of the default material in kg/m³.
pub const DEFAULT_DENSITY_BITS: u64 = 0x40be_aa00_0000_0000;

/// Encoding of `490.0`, the specific heat of the default material in
/// J/(kg·K).
pub const DEFAULT_SPECIFIC_HEAT_BITS: u64 = 0x407e_a000_0000_0000;

/// Encoding of `45.0`, the conductivity of the default material in W/(m·K).
pub const DEFAULT_CONDUCTIVITY_BITS: u64 = 0x4046_8000_0000_0000;

/// Number of time steps of a fresh parameter set.
pub const DEFAULT_TIME_STEPS: usize = 100;

/// Number of angular replicas of a fresh parameter set.
pub const DEFAULT_NTHETA: usize = 12;

/// The rule that a parameter set breaks.
#[derive(Clone, Copy, Debug, PartialEq, Eq, Structural)]
pub enum ValidationError {
    /// The height is not strictly positive.
    Height,
    /// The radius is not strictly positive.
    Radius,
    /// Fewer than two radial nodes.
    RadialNodes,
    /// Fewer than two axial nodes.
    AxialNodes,
    /// Fewer than four angular replicas.
    AngularNodes,
    /// No torch at all.
    NoTorches,
    /// The time step is not strictly positive.
    TimeStep,
    /// The total time is not strictly positive.
    TotalTime,
    /// Torch number `torch` stands outside `0 <= r <= radius`.
    TorchRadialPosition { torch: usize },
    /// Torch number `torch` stands outside `0 <= z <= height`.
    TorchAxialPosition { torch: usize },
    /// Torch number `torch` carries the identifier of an earlier torch.
    DuplicateTorchId { torch: usize },
    /// The zone map names zone `zone`, for which no material is defined.
    UndefinedMaterialZone { zone: usize },
    /// The zone map names a zone other than `0` and no material zone is
    /// defined at all.
    ZonesWithoutMaterials,
}

/// Everything a simulation is started from.
#[derive(Debug)]
pub struct SimulationParameters {
    /// Height of the cylinder in metres.
    pub height: Scalar,
    /// Radius of the cylinder in metres.
    pub radius: Scalar,
    /// Number of nodes along the radius.
    pub nr: usize,
    /// Number of nodes along the axis.
    pub nz: usize,
    /// Number of angular replicas of the revolved field.
    pub ntheta: usize,
    pub torches: Vec<PlasmaTorch>,
    pub material: MaterialProperties,
    /// Materials of the zones, in the order of their zone index.
    pub material_zones: Option<Vec<(String, MaterialProperties)>>,
    /// Initial temperature in °C.
    pub initial_temperature: Scalar,
    /// Ambient temperature in °C.
    pub ambient_temperature: Scalar,
    /// Convection coefficient in W/(m²·K).
    pub convection_coefficient: Scalar,
    pub enable_convection: bool,
    pub enable_radiation: bool,
    pub enable_phase_changes: bool,
    /// Total simulated time in seconds.
    pub total_time: Scalar,
    /// Time step in seconds.
    pub time_step: Scalar,
    /// Number of time steps.
    pub time_steps: usize,
    pub zone_map: Option<ZoneMap>,
}

/// The first torch from index `from` on that stands outside the cylinder,
/// as the rule it breaks.
pub open spec fn first_misplaced(
    torches: Seq<PlasmaTorch>,
    radius: Scalar,
    height: Scalar,
    from: int,
) -> Option<ValidationError>
    decreases torches.len() - from,
{
    if from < 0 || from >= torches.len() {
        None
    } else if !torches[from].radially_within(radius) {
        Some(ValidationError::TorchRadialPosition { torch: from as usize })
    } else if !torches[from].axially_within(height) {
        Some(ValidationError::TorchAxialPosition { torch: from as usize })
    } else {
        first_misplaced(torches, radius, height, from + 1)
    }
}

/// Torch `index` carries the identifier of a torch before it.
pub open spec fn repeats_earlier_id(torches: Seq<PlasmaTorch>, index: int) -> bool {
    exists|j: int| 0 <= j < index && (#[trigger] torches[j]).id@ == torches[index].id@
}

/// The first torch from index `from` on that carries the identifier of a
/// torch before it.
pub open spec fn first_repeated(torches: Seq<PlasmaTorch>, from: int) -> Option<ValidationError>
    decreases torches.len() - from,
{
    if from < 0 || from >= torches.len() {
        None
    } else if repeats_earlier_id(torches, from) {
        Some(ValidationError::DuplicateTorchId { torch: from as usize })
    } else {
        first_repeated(torches, from + 1)
    }
}

/// No two torches carry the same identifier.
pub open spec fn distinct_ids(torches: Seq<PlasmaTorch>) -> bool {
    forall|i: int, j: int|
        0 <= i < j < torches.len() ==> (#[trigger] torches[i]).id@ != (#[trigger] torches[j]).id@
}

/// Every torch stands inside the cylinder.
pub open spec fn all_within(torches: Seq<PlasmaTorch>, radius: Scalar, height: Scalar) -> bool {
    forall|i: int| 0 <= i < torches.len() ==> (#[trigger] torches[i]).within(radius, height)
}

/// The rule that the zone map breaks against the material zones, if any.
pub open spec fn zone_violation(
    zone_map: Option<ZoneMap>,
    material_zones: Option<Vec<(String, MaterialProperties)>>,
) -> Option<ValidationError> {
    match zone_map {
        None => None,
        Some(map) => match material_zones {
            Some(zones) => if map.peak() >= zones@.len() {
                Some(ValidationError::UndefinedMaterialZone { zone: map.peak() as usize })
            } else {
                None
            },
            None => if map.marks_a_zone() {
                Some(ValidationError::ZonesWithoutMaterials)
            } else {
                None
            },
        },
    }
}

/// The torches of `torches` whose identifier is not `id`, in their order.
pub open spec fn torches_without(torches: Seq<PlasmaTorch>, id: Seq<char>) -> Seq<PlasmaTorch> {
    torches.filter(|t: PlasmaTorch| t.id@ != id)
}

/// The zones of `zones` whose identifier is not `id`, in their order.
pub open spec fn zones_without(
    zones: Seq<(String, MaterialProperties)>,
    id: Seq<char>,
) -> Seq<(String, MaterialProperties)> {
    zones.filter(|z: (String, MaterialProperties)| z.0@ != id)
}

/// `after` is `before` with the material of the first zone named `id`
/// replaced by `material`, or, when no zone is named `id`, with the zone
/// `(id, material)` appended.
pub open spec fn zone_put(
    before: Seq<(String, MaterialProperties)>,
    after: Seq<(String, MaterialProperties)>,
    id: String,
    material: MaterialProperties,
) -> bool {
    ||| exists|p: int|
        {
            &&& 0 <= p < before.len()
            &&& (#[trigger] before[p]).0@ == id@
            &&& forall|q: int| 0 <= q < p ==> (#[trigger] before[q]).0@ != id@
            &&& after == before.update(p, (id, material))
        }
    ||| {
        &&& forall|q: int| 0 <= q < before.len() ==> (#[trigger] before[q]).0@ != id@
        &&& after == before.push((id, material))
    }
}

/// The zones that a parameter set holds: none when the list is absent.
pub open spec fn zones_of(zones: Option<Vec<(String, MaterialProperties)>>) -> Seq<
    (String, MaterialProperties),
> {
    match zones {
        Some(v) => v@,
        None => Seq::empty(),
    }
}

/// Filtering a sequence that ends in `x` filters what comes before `x` and
/// keeps `x` when the predicate holds of it.
pub proof fn filter_push<A>(s: Seq<A>, x: A, pred: spec_fn(A) -> bool)
    ensures
        s.push(x).filter(pred) == if pred(x) {
            s.filter(pred).push(x)
        } else {
            s.filter(pred)
        },
{
    reveal(Seq::filter);
    assert(s.push(x).drop_last() =~= s);
}

/// How a message names torch number `index`: by its identifier, or by its
/// number where there is no such torch.
pub open spec fn torch_label(torches: Seq<PlasmaTorch>, index: usize) -> Seq<char> {
    if index < torches.len() {
        torches[index as int].id@
    } else {
        decimal(index as nat)
    }
}

/// The message of a rule that the torches `torches` break.
pub open spec fn rule_text(error: ValidationError, torches: Seq<PlasmaTorch>) -> Seq<char> {
    match error {
        ValidationError::Height => "Altura deve ser positiva"@,
        ValidationError::Radius => "Raio deve ser positivo"@,
        ValidationError::RadialNodes => "Número de nós radiais deve ser pelo menos 2"@,
        ValidationError::AxialNodes => "Número de nós axiais deve ser pelo menos 2"@,
        ValidationError::AngularNodes => "Número de nós angulares deve ser pelo menos 4"@,
        ValidationError::NoTorches => "Pelo menos uma tocha deve ser definida"@,
        ValidationError::TimeStep => "Passo de tempo deve ser positivo"@,
        ValidationError::TotalTime => "Tempo total deve ser positivo"@,
        ValidationError::TorchRadialPosition { torch } => "Posição radial fora dos limites, tocha "@
            + torch_label(torches, torch),
        ValidationError::TorchAxialPosition { torch } => "Posição axial fora dos limites, tocha "@
            + torch_label(torches, torch),
        ValidationError::DuplicateTorchId { torch } => "ID de tocha duplicado: "@ + torch_label(
            torches,
            torch,
        ),
        ValidationError::UndefinedMaterialZone { zone } => "Zona de material não definida: "@
            + decimal(zone as nat),
        ValidationError::ZonesWithoutMaterials => "Mapa de zonas definido, mas nenhuma zona de material configurada"@,
    }
}

/// The text `prefix` followed by the name of torch number `index`.
fn with_torch(prefix: &str, torches: &Vec<PlasmaTorch>, index: usize) -> (text: String)
    ensures
        text@ == prefix@ + torch_label(torches@, index),
{
    if index < torches.len() {
        let mut text = prefix.to_owned();
        text.append(torches[index].id.as_str());
        text
    } else {
        with_number(prefix, index)
    }
}

impl ValidationError {
    /// The message of the rule, broken by the torches `torches`.
    pub fn message(&self, torches: &Vec<PlasmaTorch>) -> (text: String)
        ensures
            text@ == rule_text(*self, torches@),
    {
        match self {
            ValidationError::Height => "Altura deve ser positiva".to_owned(),
            ValidationError::Radius => "Raio deve ser positivo".to_owned(),
            ValidationError::RadialNodes => "Número de nós radiais deve ser pelo menos 2".to_owned(),
            ValidationError::AxialNodes => "Número de nós axiais deve ser pelo menos 2".to_owned(),
            ValidationError::AngularNodes => "Número de nós angulares deve ser pelo menos 4".to_owned(),
            ValidationError::NoTorches => "Pelo menos uma tocha deve ser definida".to_owned(),
            ValidationError::TimeStep => "Passo de tempo deve ser positivo".to_owned(),
            ValidationError::TotalTime => "Tempo total deve ser positivo".to_owned(),
            ValidationError::TorchRadialPosition { torch } => with_torch(
                "Posição radial fora dos limites, tocha ",
                torches,
                *torch,
            ),
            ValidationError::TorchAxialPosition { torch } => with_torch(
                "Posição axial fora dos limites, tocha ",
                torches,
                *torch,
            ),
            ValidationError::DuplicateTorchId { torch } => with_torch(
                "ID de tocha duplicado: ",
                torches,
                *torch,
            ),
            ValidationError::UndefinedMaterialZone { zone } => with_number(
                "Zona de material não definida: ",
                *zone,
            ),
            ValidationError::ZonesWithoutMaterials => "Mapa de zonas definido, mas nenhuma zona de material configurada".to_owned(),
        }
    }
}

impl SimulationParameters {
    /// The first rule on the cylinder, the mesh and the times that the set
    /// breaks, or `None` when it breaks none.  The torches and the zones
    /// are left out of account.
    pub open spec fn frame_violation(&self) -> Option<ValidationError> {
        if !self.height.positive() {
            Some(ValidationError::Height)
        } else if !self.radius.positive() {
            Some(ValidationError::Radius)
        } else if self.nr < 2 {
            Some(ValidationError::RadialNodes)
        } else if self.nz < 2 {
            Some(ValidationError::AxialNodes)
        } else if self.ntheta < 4 {
            Some(ValidationError::AngularNodes)
        } else if !self.time_step.positive() {
            Some(ValidationError::TimeStep)
        } else if !self.total_time.positive() {
            Some(ValidationError::TotalTime)
        } else {
            None
        }
    }

    /// Validates the cylinder, the mesh and the times of the set, before
    /// any torch is added to it.
    pub fn validate_frame(&self) -> (r: Result<(), ValidationError>)
        ensures
            r == (match self.frame_violation() {
                Some(e) => Err::<(), ValidationError>(e),
                None => Ok(()),
            }),
    {
        if !self.height.is_positive() {
            return Err(ValidationError::Height);
        }
        if !self.radius.is_positive() {
            return Err(ValidationError::Radius);
        }
        if self.nr < 2 {
            return Err(ValidationError::RadialNodes);
        }
        if self.nz < 2 {
            return Err(ValidationError::AxialNodes);
        }
        if self.ntheta < 4 {
            return Err(ValidationError::AngularNodes);
        }
        if !self.time_step.is_positive() {
            return Err(ValidationError::TimeStep);
        }
        if !self.total_time.is_positive() {
            return Err(ValidationError::TotalTime);
        }
        Ok(())
    }

    /// The first rule that the set breaks, in the order in which they are
    /// checked, or `None` when it breaks none.
    pub open spec fn violation(&self) -> Option<ValidationError> {
        if !self.height.positive() {
            Some(ValidationError::Height)
        } else if !self.radius.positive() {
            Some(ValidationError::Radius)
        } else if self.nr < 2 {
            Some(ValidationError::RadialNodes)
        } else if self.nz < 2 {
            Some(ValidationError::AxialNodes)
        } else if self.ntheta < 4 {
            Some(ValidationError::AngularNodes)
        } else if self.torches@.len() == 0 {
            Some(ValidationError::NoTorches)
        } else if !self.time_step.positive() {
            Some(ValidationError::TimeStep)
        } else if !self.total_time.positive() {
            Some(ValidationError::TotalTime)
        } else if first_misplaced(self.torches@, self.radius, self.height, 0) is Some {
            first_misplaced(self.torches@, self.radius, self.height, 0)
        } else if first_repeated(self.torches@, 0) is Some {
            first_repeated(self.torches@, 0)
        } else {
            zone_violation(self.zone_map, self.material_zones)
        }
    }

    /// The set is admissible: lengths and times are strictly positive, the
    /// mesh has at least `2 * 2` nodes and four replicas, there is a torch,
    /// every torch stands inside the cylinder, no identifier occurs twice,
    /// and every zone of the zone map has a material.
    pub open spec fn valid(&self) -> bool {
        &&& self.height.positive()
        &&& self.radius.positive()
        &&& self.time_step.positive()
        &&& self.total_time.positive()
        &&& self.nr >= 2
        &&& self.nz >= 2
        &&& self.ntheta >= 4
        &&& self.torches@.len() > 0
        &&& all_within(self.torches@, self.radius, self.height)
        &&& distinct_ids(self.torches@)
        &&& zone_violation(self.zone_map, self.material_zones) is None
    }

    /// Same scalars, torches and materials, and the same zone at every node
    /// of the zone map.
    pub open spec fn same_as(&self, other: &SimulationParameters) -> bool {
        &&& self.height == other.height
        &&& self.radius == other.radius
        &&& self.nr == other.nr
        &&& self.nz == other.nz
        &&& self.ntheta == other.ntheta
        &&& self.torches@ == other.torches@
        &&& self.material == other.material
        &&& match (self.material_zones, other.material_zones) {
            (None, None) => true,
            (Some(a), Some(b)) => a@ == b@,
            _ => false,
        }
        &&& self.initial_temperature == other.initial_temperature
        &&& self.ambient_temperature == other.ambient_temperature
        &&& self.convection_coefficient == other.convection_coefficient
        &&& self.enable_convection == other.enable_convection
        &&& self.enable_radiation == other.enable_radiation
        &&& self.enable_phase_changes == other.enable_phase_changes
        &&& self.total_time == other.total_time
        &&& self.time_step == other.time_step
        &&& self.time_steps == other.time_steps
        &&& same_zones(self.zone_map, other.zone_map)
    }

    /// A parameter set for a cylinder of the given size and mesh, with the
    /// default material, no torch, every heat path enabled, and one hundred
    /// steps of one second from 25 °C in surroundings at 25 °C.
    pub fn new(height: Scalar, radius: Scalar, nr: usize, nz: usize) -> (p: SimulationParameters)
        ensures
            p.height == height,
            p.radius == radius,
            p.nr == nr,
            p.nz == nz,
            p.ntheta == DEFAULT_NTHETA,
            p.torches@.len() == 0,
            p.material.name@ == "Default Material"@,
            p.material.density.bits == DEFAULT_DENSITY_BITS,
            p.material.specific_heat.bits == DEFAULT_SPECIFIC_HEAT_BITS,
            p.material.thermal_conductivity.bits == DEFAULT_CONDUCTIVITY_BITS,
            p.material.moisture_content.bits == 0,
            p.material.emissivity.bits == 0,
            p.material.melting_point is None,
            p.material.latent_heat_fusion is None,
            p.material.vaporization_point is None,
            p.material.latent_heat_vaporization is None,
            p.material_zones is None,
            p.initial_temperature.bits == DEFAULT_TEMPERATURE_BITS,
            p.ambient_temperature.bits == DEFAULT_TEMPERATURE_BITS,
            p.convection_coefficient.bits == DEFAULT_CONVECTION_BITS,
            p.enable_convection,
            p.enable_radiation,
            p.enable_phase_changes,
            p.total_time.bits == DEFAULT_TOTAL_TIME_BITS,
            p.time_step.bits == DEFAULT_TIME_STEP_BITS,
            p.time_steps == DEFAULT_TIME_STEPS,
            p.zone_map is None,
    {
        let material = MaterialProperties::new(
            "Default Material",
            Scalar { bits: DEFAULT_DENSITY_BITS },
            Scalar { bits: DEFAULT_SPECIFIC_HEAT_BITS },
            Scalar { bits: DEFAULT_CONDUCTIVITY_BITS },
        );
        SimulationParameters {
            height,
            radius,
            nr,
            nz,
            ntheta: DEFAULT_NTHETA,
            torches: Vec::new(),
            material,
            material_zones: None,
            initial_temperature: Scalar { bits: DEFAULT_TEMPERATURE_BITS },
            ambient_temperature: Scalar { bits: DEFAULT_TEMPERATURE_BITS },
            convection_coefficient: Scalar { bits: DEFAULT_CONVECTION_BITS },
            enable_convection: true,
            enable_radiation: true,
            enable_phase_changes: true,
            total_time: Scalar { bits: DEFAULT_TOTAL_TIME_BITS },
            time_step: Scalar { bits: DEFAULT_TIME_STEP_BITS },
            time_steps: DEFAULT_TIME_STEPS,
            zone_map: None,
        }
    }

    /// Appends `torch` to the torches.
    pub fn add_torch(&mut self, torch: PlasmaTorch)
        ensures
            *final(self) == (SimulationParameters {
                torches: final(self).torches,
                ..*old(self)
            }),
            final(self).torches@ == old(self).torches@.push(torch),
    {
        self.torches.push(torch);
    }

    /// Replaces the material.
    pub fn set_material(&mut self, material: MaterialProperties)
        ensures
            *final(self) == (SimulationParameters { material, ..*old(self) }),
    {
        self.material = material;
    }

    /// Takes `zone_map` as the zone map.
    pub fn set_zone_map(&mut self, zone_map: ZoneMap)
        requires
            zone_map.rows() == old(self).nr,
            zone_map.cols() == old(self).nz,
        ensures
            *final(self) == (SimulationParameters { zone_map: Some(zone_map), ..*old(self) }),
    {
        self.zone_map = Some(zone_map);
    }

    /// The message of a rule that the set breaks: a rule on a torch names
    /// the torch by its identifier.
    pub fn describe(&self, error: ValidationError) -> (text: String)
        ensures
            text@ == rule_text(error, self.torches@),
    {
        error.message(&self.torches)
    }

    /// Validates the set: `Ok` when it is admissible, and otherwise the
    /// first rule that it breaks.
    #[verifier::loop_isolation(false)]
    pub fn validate(&self) -> (r: Result<(), ValidationError>)
        ensures
            r == (match self.violation() {
                Some(e) => Err::<(), ValidationError>(e),
                None => Ok(()),
            }),
    {
        if !self.height.is_positive() {
            return Err(ValidationError::Height);
        }
        if !self.radius.is_positive() {
            return Err(ValidationError::Radius);
        }
        if self.nr < 2 {
            return Err(ValidationError::RadialNodes);
        }
        if self.nz < 2 {
            return Err(ValidationError::AxialNodes);
        }
        if self.ntheta < 4 {
            return Err(ValidationError::AngularNodes);
        }
        if self.torches.len() == 0 {
            return Err(ValidationError::NoTorches);
        }
        if !self.time_step.is_positive() {
            return Err(ValidationError::TimeStep);
        }
        if !self.total_time.is_positive() {
            return Err(ValidationError::TotalTime);
        }
        let zero = Scalar::zero();
        let count = self.torches.len();
        let mut i: usize = 0;
        while i < count
            invariant
                i <= count,
                count == self.torches@.len(),
                zero.bits == 0,
                first_misplaced(self.torches@, self.radius, self.height, 0) == first_misplaced(
                    self.torches@,
                    self.radius,
                    self.height,
                    i as int,
                ),
            decreases count - i,
        {
            let torch = &self.torches[i];
            if !(zero.le(torch.r_position) && torch.r_position.le(self.radius)) {
                return Err(ValidationError::TorchRadialPosition { torch: i });
            }
            if !(zero.le(torch.z_position) && torch.z_position.le(self.height)) {
                return Err(ValidationError::TorchAxialPosition { torch: i });
            }
            i += 1;
        }
        let mut i: usize = 0;
        while i < count
            invariant
                i <= count,
                count == self.torches@.len(),
                first_repeated(self.torches@, 0) == first_repeated(self.torches@, i as int),
            decreases count - i,
        {
            let mut j: usize = 0;
            while j < i
                invariant
                    j <= i,
                    i < count,
                    count == self.torches@.len(),
                    forall|k: int| 0 <= k < j ==> (#[trigger] self.torches@[k]).id@
                        != self.torches@[i as int].id@,
                decreases i - j,
            {
                if self.torches[j].id == self.torches[i].id {
                    return Err(ValidationError::DuplicateTorchId { torch: i });
                }
                j += 1;
            }
            i += 1;
        }
        match &self.zone_map {
            None => Ok(()),
            Some(map) => match &self.material_zones {
                Some(zones) => {
                    let peak = map.max_zone();
                    if peak >= zones.len() {
                        Err(ValidationError::UndefinedMaterialZone { zone: peak })
                    } else {
                        Ok(())
                    }
                },
                None => {
                    if map.has_marked_zone() {
                        Err(ValidationError::ZonesWithoutMaterials)
                    } else {
                        Ok(())
                    }
                },
            },
        }
    }

    /// Removes every torch whose identifier is `torch_id` and tells whether
    /// there was one.
    pub fn remove_torch(&mut self, torch_id: &str) -> (removed: bool)
        ensures
            *final(self) == (SimulationParameters {
                torches: final(self).torches,
                ..*old(self)
            }),
            final(self).torches@ == torches_without(old(self).torches@, torch_id@),
            removed == (final(self).torches@.len() < old(self).torches@.len()),
    {
        let id = torch_id.to_owned();
        let ghost keep = |t: PlasmaTorch| t.id@ != torch_id@;
        let count = self.torches.len();
        let mut kept: Vec<PlasmaTorch> = Vec::new();
        let mut i: usize = 0;
        proof {
            reveal(Seq::filter);
            assert(self.torches@.subrange(0, 0) =~= Seq::<PlasmaTorch>::empty());
        }
        while i < count
            invariant
                i <= count,
                count == self.torches@.len(),
                *self == *old(self),
                id@ == torch_id@,
                keep == |t: PlasmaTorch| t.id@ != torch_id@,
                kept@ == self.torches@.subrange(0, i as int).filter(keep),
            decreases count - i,
        {
            proof {
                filter_push(self.torches@.subrange(0, i as int), self.torches@[i as int], keep);
                assert(self.torches@.subrange(0, i as int).push(self.torches@[i as int])
                    =~= self.torches@.subrange(0, i + 1));
            }
            if !(self.torches[i].id == id) {
                kept.push(self.torches[i].clone());
            }
            i += 1;
        }
        proof {
            assert(self.torches@.subrange(0, count as int) =~= self.torches@);
        }
        let removed = kept.len() < count;
        self.torches = kept;
        removed
    }

    /// Gives zone `zone_id` the material `material`: the first zone of that
    /// name gets it, and when there is none the zone is appended.
    #[verifier::loop_isolation(false)]
    pub fn add_material_zone(&mut self, zone_id: String, material: MaterialProperties)
        ensures
            *final(self) == (SimulationParameters {
                material_zones: final(self).material_zones,
                ..*old(self)
            }),
            final(self).material_zones is Some,
            zone_put(
                zones_of(old(self).material_zones),
                zones_of(final(self).material_zones),
                zone_id,
                material,
            ),
    {
        let mut zones: Vec<(String, MaterialProperties)> = match self.material_zones.take() {
            Some(v) => v,
            None => Vec::new(),
        };
        let ghost before = zones@;
        let count = zones.len();
        let mut i: usize = 0;
        while i < count
            invariant
                i <= count,
                count == zones@.len(),
                zones@ == before,
                *self == (SimulationParameters { material_zones: None, ..*old(self) }),
                forall|q: int| 0 <= q < i ==> (#[trigger] before[q]).0@ != zone_id@,
            decreases count - i,
        {
            if zones[i].0 == zone_id {
                zones.set(i, (zone_id, material));
                self.material_zones = Some(zones);
                return ;
            }
            i += 1;
        }
        zones.push((zone_id, material));
        self.material_zones = Some(zones);
    }

    /// Removes every zone whose identifier is `zone_id` and tells whether
    /// there was one.  A set without a zone list stays without one.
    pub fn remove_material_zone(&mut self, zone_id: &str) -> (removed: bool)
        ensures
            *final(self) == (SimulationParameters {
                material_zones: final(self).material_zones,
                ..*old(self)
            }),
            final(self).material_zones is Some == old(self).material_zones is Some,
            zones_of(final(self).material_zones) == zones_without(
                zones_of(old(self).material_zones),
                zone_id@,
            ),
            removed == (zones_of(final(self).material_zones).len() < zones_of(
                old(self).material_zones,
            ).len()),
    {
        let ghost keep = |z: (String, MaterialProperties)| z.0@ != zone_id@;
        let zones: Vec<(String, MaterialProperties)> = match self.material_zones.take() {
            Some(v) => v,
            None => {
                proof {
                    reveal(Seq::filter);
                }
                return false;
            },
        };
        let id = zone_id.to_owned();
        let count = zones.len();
        let mut kept: Vec<(String, MaterialProperties)> = Vec::new();
        let mut i: usize = 0;
        proof {
            reveal(Seq::filter);
            assert(zones@.subrange(0, 0) =~= Seq::<(String, MaterialProperties)>::empty());
        }
        while i < count
            invariant
                i <= count,
                count == zones@.len(),
                id@ == zone_id@,
                keep == |z: (String, MaterialProperties)| z.0@ != zone_id@,
                kept@ == zones@.subrange(0, i as int).filter(keep),
            decreases count - i,
        {
            proof {
                filter_push(zones@.subrange(0, i as int), zones@[i as int], keep);
                assert(zones@.subrange(0, i as int).push(zones@[i as int]) =~= zones@.subrange(
                    0,
                    i + 1,
                ));
            }
            if !(zones[i].0 == id) {
                kept.push((zones[i].0.clone(), zones[i].1.clone()));
            }
            i += 1;
        }
        proof {
            assert(zones@.subrange(0, count as int) =~= zones@);
        }
        let removed = kept.len() < count;
        self.material_zones = Some(kept);
        removed
    }

    /// A parameter set with the same contents.
    pub fn duplicate(&self) -> (copy: SimulationParameters)
        ensures
            copy.same_as(self),
    {
        let mut torches: Vec<PlasmaTorch> = Vec::new();
        let mut i: usize = 0;
        while i < self.torches.len()
            invariant
                i <= self.torches@.len(),
                torches@ == self.torches@.subrange(0, i as int),
            decreases self.torches@.len() - i,
        {
            torches.push(self.torches[i].clone());
            assert(self.torches@.subrange(0, i as int).push(self.torches@[i as int])
                =~= self.torches@.subrange(0, i + 1));
            i += 1;
        }
        assert(self.torches@.subrange(0, self.torches@.len() as int) =~= self.torches@);
        let material_zones = match &self.material_zones {
            None => None,
            Some(zones) => {
                let mut copies: Vec<(String, MaterialProperties)> = Vec::new();
                let mut k: usize = 0;
                while k < zones.len()
                    invariant
                        k <= zones@.len(),
                        copies@ == zones@.subrange(0, k as int),
                    decreases zones@.len() - k,
                {
                    copies.push((zones[k].0.clone(), zones[k].1.clone()));
                    assert(zones@.subrange(0, k as int).push(zones@[k as int])
                        =~= zones@.subrange(0, k + 1));
                    k += 1;
                }
                assert(zones@.subrange(0, zones@.len() as int) =~= zones@);
                Some(copies)
            },
        };
        let zone_map = match &self.zone_map {
            None => None,
            Some(map) => Some(map.duplicate()),
        };
        SimulationParameters {
            height: self.height,
            radius: self.radius,
            nr: self.nr,
            nz: self.nz,
            ntheta: self.ntheta,
            torches,
            material: self.material.clone(),
            material_zones,
            initial_temperature: self.initial_temperature,
            ambient_temperature: self.ambient_temperature,
            convection_coefficient: self.convection_coefficient,
            enable_convection: self.enable_convection,
            enable_radiation: self.enable_radiation,
            enable_phase_changes: self.enable_phase_changes,
            total_time: self.total_time,
            time_step: self.time_step,
            time_steps: self.time_steps,
            zone_map,
        }
    }
}

/// From index `from` on every torch stands inside the cylinder exactly when
/// no torch from there on is reported as misplaced.
pub proof fn misplaced_none_iff_within(
    torches: Seq<PlasmaTorch>,
    radius: Scalar,
    height: Scalar,
    from: int,
)
    requires
        0 <= from,
    ensures
        first_misplaced(torches, radius, height, from) is None <==> forall|i: int|
            from <= i < torches.len() ==> (#[trigger] torches[i]).within(radius, height),
    decreases torches.len() - from,
{
    if from < torches.len() {
        misplaced_none_iff_within(torches, radius, height, from + 1);
        if first_misplaced(torches, radius, height, from) is None {
            assert forall|i: int| from <= i < torches.len() implies (#[trigger] torches[i]).within(
                radius,
                height,
            ) by {
                if i == from {
                } else {
                }
            }
        } else {
        }
    }
}

/// From index `from` on no torch repeats the identifier of an earlier one
/// exactly when none is reported as a duplicate.
pub proof fn repeated_none_iff_distinct(torches: Seq<PlasmaTorch>, from: int)
    requires
        0 <= from,
    ensures
        first_repeated(torches, from) is None <==> forall|i: int|
            from <= i < torches.len() ==> !repeats_earlier_id(torches, i),
    decreases torches.len() - from,
{
    if from < torches.len() {
        repeated_none_iff_distinct(torches, from + 1);
        if first_repeated(torches, from) is None {
            assert forall|i: int| from <= i < torches.len() implies !repeats_earlier_id(
                torches,
                i,
            ) by {
                if i == from {
                } else {
                }
            }
        }
    }
}

/// Validation accepts exactly the admissible parameter sets.
pub proof fn violation_none_iff_valid(p: SimulationParameters)
    ensures
        p.violation() is None <==> p.valid(),
{
    misplaced_none_iff_within(p.torches@, p.radius, p.height, 0);
    repeated_none_iff_distinct(p.torches@, 0);
    if distinct_ids(p.torches@) {
        assert forall|i: int| 0 <= i < p.torches@.len() implies !repeats_earlier_id(
            p.torches@,
            i,
        ) by {
            if repeats_earlier_id(p.torches@, i) {
                let j = choose|j: int| 0 <= j < i && (#[trigger] p.torches@[j]).id@ == p.torches@[i].id@;
                assert(p.torches@[j].id@ != p.torches@[i].id@);
            }
        }
    }
    if forall|i: int| 0 <= i < p.torches@.len() ==> !repeats_earlier_id(p.torches@, i) {
        assert forall|i: int, j: int| 0 <= i < j < p.torches@.len() implies (
        #[trigger] p.torches@[i]).id@ != (#[trigger] p.torches@[j]).id@ by {
            assert(!repeats_earlier_id(p.torches@, j));
        }
    }
}

} // verus!
