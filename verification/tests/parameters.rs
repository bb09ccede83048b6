use plasma_furnace::material::MaterialProperties;
use plasma_furnace::mesh::ZoneMap;
use plasma_furnace::params::{SimulationParameters, ValidationError};
use plasma_furnace::scalar::Scalar;
use plasma_furnace::torch::PlasmaTorch;

fn s(x: f64) -> Scalar {
    Scalar::from_bits(x.to_bits())
}

fn f(x: Scalar) -> f64 {
    f64::from_bits(x.to_bits())
}

fn torch(id: &str, r: f64, z: f64) -> PlasmaTorch {
    PlasmaTorch::new(id, s(r), s(z), s(0.0), s(0.0), s(1000.0), s(0.001), s(5000.0))
}

fn valid() -> SimulationParameters {
    let mut p = SimulationParameters::new(s(1.0), s(0.5), 10, 20);
    p.add_torch(torch("torch1", 0.0, 0.0));
    p
}

#[test]
fn fresh_parameters_have_the_defaults() {
    let p = SimulationParameters::new(s(1.0), s(0.5), 10, 20);
    assert_eq!(f(p.height), 1.0);
    assert_eq!(f(p.radius), 0.5);
    assert_eq!(p.nr, 10);
    assert_eq!(p.nz, 20);
    assert_eq!(p.ntheta, 12);
    assert!(p.torches.is_empty());
    assert_eq!(p.material.name, "Default Material");
    assert_eq!(f(p.material.density), 7850.0);
    assert_eq!(f(p.material.specific_heat), 490.0);
    assert_eq!(f(p.material.thermal_conductivity), 45.0);
    assert!(p.material.melting_point.is_none());
    assert!(p.material_zones.is_none());
    assert_eq!(f(p.initial_temperature), 25.0);
    assert_eq!(f(p.ambient_temperature), 25.0);
    assert_eq!(f(p.convection_coefficient), 10.0);
    assert!(p.enable_convection);
    assert!(p.enable_radiation);
    assert!(p.enable_phase_changes);
    assert_eq!(f(p.total_time), 100.0);
    assert_eq!(f(p.time_step), 1.0);
    assert_eq!(p.time_steps, 100);
    assert!(p.zone_map.is_none());
}

#[test]
fn a_material_starts_without_phase_changes() {
    let m = MaterialProperties::new("Test Material", s(1000.0), s(1500.0), s(0.5));
    assert_eq!(m.name, "Test Material");
    assert_eq!(f(m.density), 1000.0);
    assert_eq!(f(m.specific_heat), 1500.0);
    assert_eq!(f(m.thermal_conductivity), 0.5);
    assert_eq!(f(m.emissivity), 0.0);
    assert_eq!(f(m.moisture_content), 0.0);
    assert!(m.melting_point.is_none());
    assert!(m.latent_heat_fusion.is_none());
    assert!(m.vaporization_point.is_none());
    assert!(m.latent_heat_vaporization.is_none());
    assert_eq!(f(m.get_density(s(300.0))), 1000.0);
    assert_eq!(f(m.get_specific_heat(s(300.0))), 1500.0);
    assert_eq!(f(m.get_thermal_conductivity(s(300.0))), 0.5);
    assert_eq!(f(m.effective_specific_heat(s(300.0), s(0.01))), 1500.0);
}

#[test]
fn phase_parameters_are_set_only_when_strictly_positive() {
    let mut m = MaterialProperties::new("m", s(1.0), s(1.0), s(1.0));
    m.set_melting_point(s(0.0));
    assert!(m.melting_point.is_none());
    m.set_melting_point(s(-5.0));
    assert!(m.melting_point.is_none());
    m.set_melting_point(s(f64::NAN));
    assert!(m.melting_point.is_none());
    m.set_melting_point(s(1538.0));
    assert_eq!(m.melting_point.map(f), Some(1538.0));
    m.set_melting_point(s(0.0));
    assert_eq!(m.melting_point.map(f), Some(1538.0));
    m.set_latent_heat_fusion(s(2.7e5));
    assert_eq!(m.latent_heat_fusion.map(f), Some(2.7e5));
    m.set_vaporization_point(s(-1.0));
    assert!(m.vaporization_point.is_none());
    m.set_vaporization_point(s(2862.0));
    assert_eq!(m.vaporization_point.map(f), Some(2862.0));
    m.set_latent_heat_vaporization(s(0.0));
    assert!(m.latent_heat_vaporization.is_none());
    m.set_latent_heat_vaporization(s(6.1e6));
    assert_eq!(m.latent_heat_vaporization.map(f), Some(6.1e6));
    let copy = m.clone();
    assert_eq!(copy.name, "m");
    assert_eq!(copy.melting_point.map(f), Some(1538.0));
    assert_eq!(copy.latent_heat_vaporization.map(f), Some(6.1e6));
}

#[test]
fn a_torch_keeps_what_it_was_made_with() {
    let t = PlasmaTorch::new("torch1", s(0.1), s(0.2), s(90.0), s(45.0), s(10.0), s(0.001), s(1000.0));
    assert_eq!(t.id, "torch1");
    assert_eq!(f(t.r_position), 0.1);
    assert_eq!(f(t.z_position), 0.2);
    assert_eq!(f(t.pitch), 90.0);
    assert_eq!(f(t.yaw), 45.0);
    assert_eq!(f(t.power), 10.0);
    assert_eq!(f(t.gas_flow), 0.001);
    assert_eq!(f(t.gas_temperature), 1000.0);
    let copy = t.clone();
    assert_eq!(copy.id, "torch1");
    assert_eq!(f(copy.gas_temperature), 1000.0);
}

#[test]
fn valid_parameters_pass() {
    assert_eq!(valid().validate(), Ok(()));
    assert_eq!(valid().validate_frame(), Ok(()));
}

#[test]
fn every_rule_is_reported() {
    let mut p = valid();
    p.height = s(0.0);
    assert_eq!(p.validate(), Err(ValidationError::Height));
    let mut p = valid();
    p.height = s(-1.0);
    assert_eq!(p.validate(), Err(ValidationError::Height));
    let mut p = valid();
    p.height = s(f64::NAN);
    assert_eq!(p.validate(), Err(ValidationError::Height));
    let mut p = valid();
    p.radius = s(0.0);
    assert_eq!(p.validate(), Err(ValidationError::Radius));
    let mut p = valid();
    p.nr = 1;
    assert_eq!(p.validate(), Err(ValidationError::RadialNodes));
    let mut p = valid();
    p.nz = 1;
    assert_eq!(p.validate(), Err(ValidationError::AxialNodes));
    let mut p = valid();
    p.ntheta = 3;
    assert_eq!(p.validate(), Err(ValidationError::AngularNodes));
    let mut p = valid();
    p.torches.clear();
    assert_eq!(p.validate(), Err(ValidationError::NoTorches));
    let mut p = valid();
    p.time_step = s(0.0);
    assert_eq!(p.validate(), Err(ValidationError::TimeStep));
    let mut p = valid();
    p.total_time = s(-3.0);
    assert_eq!(p.validate(), Err(ValidationError::TotalTime));
}

#[test]
fn the_first_broken_rule_wins() {
    let mut p = valid();
    p.height = s(0.0);
    p.radius = s(0.0);
    p.nr = 0;
    assert_eq!(p.validate(), Err(ValidationError::Height));
    p.height = s(1.0);
    assert_eq!(p.validate(), Err(ValidationError::Radius));
    p.radius = s(1.0);
    assert_eq!(p.validate(), Err(ValidationError::RadialNodes));
    let mut p = valid();
    p.torches.clear();
    p.time_step = s(0.0);
    assert_eq!(p.validate(), Err(ValidationError::NoTorches));
    assert_eq!(p.validate_frame(), Err(ValidationError::TimeStep));
}

#[test]
fn a_torch_outside_the_cylinder_is_reported() {
    let mut p = valid();
    p.add_torch(torch("a", 0.6, 0.5));
    assert_eq!(p.validate(), Err(ValidationError::TorchRadialPosition { torch: 1 }));
    let mut p = valid();
    p.add_torch(torch("a", -0.1, 0.5));
    assert_eq!(p.validate(), Err(ValidationError::TorchRadialPosition { torch: 1 }));
    let mut p = valid();
    p.add_torch(torch("a", 0.5, 1.0));
    assert_eq!(p.validate(), Ok(()));
    p.add_torch(torch("b", 0.2, 1.5));
    assert_eq!(p.validate(), Err(ValidationError::TorchAxialPosition { torch: 2 }));
    let mut p = valid();
    p.add_torch(torch("a", 0.2, -0.5));
    p.add_torch(torch("b", 0.9, 0.5));
    assert_eq!(p.validate(), Err(ValidationError::TorchAxialPosition { torch: 1 }));
    let mut p = valid();
    p.add_torch(torch("a", f64::NAN, 0.5));
    assert_eq!(p.validate(), Err(ValidationError::TorchRadialPosition { torch: 1 }));
}

#[test]
fn a_repeated_identifier_is_reported() {
    let mut p = valid();
    p.add_torch(torch("torch2", 0.1, 0.1));
    p.add_torch(torch("torch1", 0.2, 0.2));
    assert_eq!(p.validate(), Err(ValidationError::DuplicateTorchId { torch: 2 }));
    let mut p = valid();
    p.add_torch(torch("torch2", 0.1, 0.1));
    p.add_torch(torch("torch3", 0.2, 0.2));
    assert_eq!(p.validate(), Ok(()));
    p.add_torch(torch("torch3", 0.2, 0.2));
    p.add_torch(torch("torch1", 0.2, 0.2));
    assert_eq!(p.validate(), Err(ValidationError::DuplicateTorchId { torch: 3 }));
}

#[test]
fn zones_need_their_materials() {
    let mut p = valid();
    let mut map = ZoneMap::filled(10, 20, 0).unwrap();
    p.set_zone_map(map.duplicate());
    assert_eq!(p.validate(), Ok(()));
    map.set(3, 4, 2);
    p.set_zone_map(map.duplicate());
    assert_eq!(p.validate(), Err(ValidationError::ZonesWithoutMaterials));
    p.add_material_zone("a".to_string(), MaterialProperties::new("a", s(1.0), s(1.0), s(1.0)));
    p.add_material_zone("b".to_string(), MaterialProperties::new("b", s(1.0), s(1.0), s(1.0)));
    assert_eq!(p.validate(), Err(ValidationError::UndefinedMaterialZone { zone: 2 }));
    p.add_material_zone("c".to_string(), MaterialProperties::new("c", s(1.0), s(1.0), s(1.0)));
    assert_eq!(p.validate(), Ok(()));
}

#[test]
fn a_zone_map_of_zeros_needs_one_material_once_zones_are_listed() {
    let mut p = valid();
    p.set_zone_map(ZoneMap::filled(10, 20, 0).unwrap());
    p.material_zones = Some(Vec::new());
    assert_eq!(p.validate(), Err(ValidationError::UndefinedMaterialZone { zone: 0 }));
    p.add_material_zone("a".to_string(), MaterialProperties::new("a", s(1.0), s(1.0), s(1.0)));
    assert_eq!(p.validate(), Ok(()));
}

#[test]
fn torches_are_added_and_removed() {
    let mut p = valid();
    p.add_torch(torch("torch2", 0.1, 0.1));
    p.add_torch(torch("torch1", 0.2, 0.2));
    p.add_torch(torch("torch3", 0.3, 0.3));
    assert_eq!(p.torches.len(), 4);
    assert!(!p.remove_torch("nobody"));
    assert_eq!(p.torches.len(), 4);
    assert!(p.remove_torch("torch1"));
    let ids: Vec<&str> = p.torches.iter().map(|t| t.id.as_str()).collect();
    assert_eq!(ids, vec!["torch2", "torch3"]);
    assert_eq!(f(p.torches[1].r_position), 0.3);
    assert!(p.remove_torch("torch3"));
    assert!(p.remove_torch("torch2"));
    assert!(p.torches.is_empty());
    assert!(!p.remove_torch("torch2"));
}

#[test]
fn material_zones_are_put_and_removed() {
    let mut p = valid();
    assert!(!p.remove_material_zone("a"));
    assert!(p.material_zones.is_none());
    p.add_material_zone("a".to_string(), MaterialProperties::new("first", s(1.0), s(1.0), s(1.0)));
    p.add_material_zone("b".to_string(), MaterialProperties::new("second", s(2.0), s(1.0), s(1.0)));
    p.add_material_zone("a".to_string(), MaterialProperties::new("third", s(3.0), s(1.0), s(1.0)));
    let zones = p.material_zones.as_ref().unwrap();
    assert_eq!(zones.len(), 2);
    assert_eq!(zones[0].0, "a");
    assert_eq!(zones[0].1.name, "third");
    assert_eq!(f(zones[0].1.density), 3.0);
    assert_eq!(zones[1].0, "b");
    assert_eq!(zones[1].1.name, "second");
    assert!(!p.remove_material_zone("c"));
    assert!(p.remove_material_zone("a"));
    let zones = p.material_zones.as_ref().unwrap();
    assert_eq!(zones.len(), 1);
    assert_eq!(zones[0].0, "b");
    assert!(p.remove_material_zone("b"));
    assert_eq!(p.material_zones.as_ref().unwrap().len(), 0);
}

#[test]
fn the_material_is_replaced() {
    let mut p = valid();
    p.set_material(MaterialProperties::new("Alumínio", s(2700.0), s(900.0), s(237.0)));
    assert_eq!(p.material.name, "Alumínio");
    assert_eq!(f(p.material.density), 2700.0);
    assert_eq!(p.torches.len(), 1);
}

#[test]
fn a_duplicate_has_the_same_contents() {
    let mut p = valid();
    p.add_torch(torch("torch2", 0.1, 0.1));
    p.add_material_zone("a".to_string(), MaterialProperties::new("first", s(1.0), s(1.0), s(1.0)));
    let mut map = ZoneMap::filled(10, 20, 0).unwrap();
    map.set(1, 1, 0);
    p.set_zone_map(map);
    p.time_steps = 7;
    p.enable_radiation = false;
    let copy = p.duplicate();
    assert_eq!(copy.nr, 10);
    assert_eq!(copy.nz, 20);
    assert_eq!(copy.time_steps, 7);
    assert!(!copy.enable_radiation);
    assert!(copy.enable_convection);
    assert_eq!(copy.torches.len(), 2);
    assert_eq!(copy.torches[1].id, "torch2");
    assert_eq!(copy.material.name, "Default Material");
    assert_eq!(copy.material_zones.as_ref().unwrap()[0].1.name, "first");
    assert_eq!(copy.zone_map.as_ref().unwrap().row_count(), 10);
    assert_eq!(copy.validate(), Ok(()));
}

#[test]
fn rules_have_their_messages() {
    assert_eq!(ValidationError::Height.message(&vec![]), "Altura deve ser positiva");
    assert_eq!(ValidationError::Radius.message(&vec![]), "Raio deve ser positivo");
    assert_eq!(
        ValidationError::RadialNodes.message(&vec![]),
        "Número de nós radiais deve ser pelo menos 2"
    );
    assert_eq!(ValidationError::AxialNodes.message(&vec![]), "Número de nós axiais deve ser pelo menos 2");
    assert_eq!(
        ValidationError::AngularNodes.message(&vec![]),
        "Número de nós angulares deve ser pelo menos 4"
    );
    assert_eq!(ValidationError::NoTorches.message(&vec![]), "Pelo menos uma tocha deve ser definida");
    assert_eq!(ValidationError::TimeStep.message(&vec![]), "Passo de tempo deve ser positivo");
    assert_eq!(ValidationError::TotalTime.message(&vec![]), "Tempo total deve ser positivo");
    assert_eq!(
        ValidationError::TorchRadialPosition { torch: 3 }.message(&vec![]),
        "Posição radial fora dos limites, tocha 3"
    );
    assert_eq!(
        ValidationError::TorchAxialPosition { torch: 12 }.message(&vec![]),
        "Posição axial fora dos limites, tocha 12"
    );
    assert_eq!(
        ValidationError::DuplicateTorchId { torch: 1 }.message(&vec![]),
        "ID de tocha duplicado: 1"
    );
    assert_eq!(
        ValidationError::UndefinedMaterialZone { zone: 5 }.message(&vec![]),
        "Zona de material não definida: 5"
    );
    assert_eq!(
        ValidationError::ZonesWithoutMaterials.message(&vec![]),
        "Mapa de zonas definido, mas nenhuma zona de material configurada"
    );
}

#[test]
fn a_rule_on_a_torch_names_the_torch() {
    let mut p = SimulationParameters::new(s(1.0), s(0.5), 5, 5);
    p.add_torch(torch("t1", 0.0, 0.0));
    p.add_torch(torch("t1", 0.0, 0.0));
    let rule = p.validate().unwrap_err();
    assert_eq!(rule, ValidationError::DuplicateTorchId { torch: 1 });
    assert_eq!(p.describe(rule), "ID de tocha duplicado: t1");
    assert_eq!(rule.message(&p.torches), "ID de tocha duplicado: t1");
    assert_eq!(p.torches.len(), 2);
    p.torches[1] = torch("far", 0.9, 0.0);
    let rule = p.validate().unwrap_err();
    assert_eq!(p.describe(rule), "Posição radial fora dos limites, tocha far");
    p.torches[1] = torch("high", 0.1, 2.0);
    let rule = p.validate().unwrap_err();
    assert_eq!(p.describe(rule), "Posição axial fora dos limites, tocha high");
    assert_eq!(p.describe(ValidationError::DuplicateTorchId { torch: 7 }), "ID de tocha duplicado: 7");
    assert_eq!(p.describe(ValidationError::Height), "Altura deve ser positiva");
}
