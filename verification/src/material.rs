//! The material that fills the furnace.

use vstd::prelude::*;
use crate::scalar::Scalar;

verus! {

/// Thermal properties of a material, with the optional points and latent
/// heats of its two phase changes.
///
/// Densities are in kg/m³, specific heats in J/(kg·K), conductivities in
/// W/(m·K), temperatures in °C and latent heats in J/kg.
#[derive(Debug)]
pub struct MaterialProperties {
    pub name: String,
    pub density: Scalar,
    pub moisture_content: Scalar,
    pub specific_heat: Scalar,
    pub thermal_conductivity: Scalar,
    pub emissivity: Scalar,
    pub melting_point: Option<Scalar>,
    pub latent_heat_fusion: Option<Scalar>,
    pub vaporization_point: Option<Scalar>,
    pub latent_heat_vaporization: Option<Scalar>,
}

impl Clone for MaterialProperties {
    fn clone(&self) -> (copy: Self)
        ensures
            copy == *self,
    {
        MaterialProperties {
            name: self.name.clone(),
            density: self.density,
            moisture_content: self.moisture_content,
            specific_heat: self.specific_heat,
            thermal_conductivity: self.thermal_conductivity,
            emissivity: self.emissivity,
            melting_point: self.melting_point,
            latent_heat_fusion: self.latent_heat_fusion,
            vaporization_point: self.vaporization_point,
            latent_heat_vaporization: self.latent_heat_vaporization,
        }
    }
}

/// What a phase parameter becomes when `value` is offered for it: `value`
/// when it is strictly positive, what it was before otherwise.
pub open spec fn offered(before: Option<Scalar>, value: Scalar) -> Option<Scalar> {
    if value.positive() {
        Some(value)
    } else {
        before
    }
}

impl MaterialProperties {
    /// A material without phase changes, dry, with emissivity zero.
    pub fn new(
        name: &str,
        density: Scalar,
        specific_heat: Scalar,
        thermal_conductivity: Scalar,
    ) -> (m: MaterialProperties)
        ensures
            m.name@ == name@,
            m.density == density,
            m.specific_heat == specific_heat,
            m.thermal_conductivity == thermal_conductivity,
            m.moisture_content.bits == 0,
            m.emissivity.bits == 0,
            m.melting_point is None,
            m.latent_heat_fusion is None,
            m.vaporization_point is None,
            m.latent_heat_vaporization is None,
    {
        MaterialProperties {
            name: name.to_owned(),
            density,
            moisture_content: Scalar { bits: 0 },
            specific_heat,
            thermal_conductivity,
            emissivity: Scalar { bits: 0 },
            melting_point: None,
            latent_heat_fusion: None,
            vaporization_point: None,
            latent_heat_vaporization: None,
        }
    }

    /// Sets the melting point when `value` is strictly positive.
    pub fn set_melting_point(&mut self, value: Scalar)
        ensures
            *final(self) == (MaterialProperties {
                melting_point: offered(old(self).melting_point, value),
                ..*old(self)
            }),
    {
        if value.is_positive() {
            self.melting_point = Some(value);
        }
    }

    /// Sets the latent heat of fusion when `value` is strictly positive.
    pub fn set_latent_heat_fusion(&mut self, value: Scalar)
        ensures
            *final(self) == (MaterialProperties {
                latent_heat_fusion: offered(old(self).latent_heat_fusion, value),
                ..*old(self)
            }),
    {
        if value.is_positive() {
            self.latent_heat_fusion = Some(value);
        }
    }

    /// Sets the vaporization point when `value` is strictly positive.
    pub fn set_vaporization_point(&mut self, value: Scalar)
        ensures
            *final(self) == (MaterialProperties {
                vaporization_point: offered(old(self).vaporization_point, value),
                ..*old(self)
            }),
    {
        if value.is_positive() {
            self.vaporization_point = Some(value);
        }
    }

    /// Sets the latent heat of vaporization when `value` is strictly
    /// positive.
    pub fn set_latent_heat_vaporization(&mut self, value: Scalar)
        ensures
            *final(self) == (MaterialProperties {
                latent_heat_vaporization: offered(old(self).latent_heat_vaporization, value),
                ..*old(self)
            }),
    {
        if value.is_positive() {
            self.latent_heat_vaporization = Some(value);
        }
    }

    /// Density at `temperature`: the stored baseline.
    pub fn get_density(&self, temperature: Scalar) -> (rho: Scalar)
        ensures
            rho == self.density,
    {
        self.density
    }

    /// Specific heat at `temperature`: the stored baseline.
    pub fn get_specific_heat(&self, temperature: Scalar) -> (cp: Scalar)
        ensures
            cp == self.specific_heat,
    {
        self.specific_heat
    }

    /// Thermal conductivity at `temperature`: the stored baseline.
    pub fn get_thermal_conductivity(&self, temperature: Scalar) -> (k: Scalar)
        ensures
            k == self.thermal_conductivity,
    {
        self.thermal_conductivity
    }

    /// Specific heat that the temperature update divides by.  Latent heat
    /// is accounted for after the update, cell by cell, so this is the
    /// specific heat itself, with phase changes enabled or not.
    pub fn effective_specific_heat(&self, temperature: Scalar, time_step: Scalar) -> (cp: Scalar)
        ensures
            cp == self.specific_heat,
    {
        self.get_specific_heat(temperature)
    }

    /// The material melts: both its melting point and its latent heat of
    /// fusion are set.
    pub open spec fn melts(&self) -> bool {
        self.melting_point is Some && self.latent_heat_fusion is Some
    }

    /// The material vaporizes: both its vaporization point and its latent
    /// heat of vaporization are set.
    pub open spec fn vaporizes(&self) -> bool {
        self.vaporization_point is Some && self.latent_heat_vaporization is Some
    }
}

} // verus!
