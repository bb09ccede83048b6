//! Plasma torches: the directional heat sources of the furnace.

use vstd::prelude::*;
use crate::scalar::Scalar;

verus! {

/// A torch at `(r_position, z_position)`, aimed by `pitch` and `yaw`.
///
/// Positions are in metres, angles in degrees, `power` in watts, `gas_flow`
/// in kg/s and `gas_temperature` in °C.  The `id` tells the torches of one
/// parameter set apart.
#[derive(Debug)]
pub struct PlasmaTorch {
    pub id: String,
    pub r_position: Scalar,
    pub z_position: Scalar,
    pub pitch: Scalar,
    pub yaw: Scalar,
    pub power: Scalar,
    pub gas_flow: Scalar,
    pub gas_temperature: Scalar,
}

impl Clone for PlasmaTorch {
    fn clone(&self) -> (copy: Self)
        ensures
            copy == *self,
    {
        PlasmaTorch {
            id: self.id.clone(),
            r_position: self.r_position,
            z_position: self.z_position,
            pitch: self.pitch,
            yaw: self.yaw,
            power: self.power,
            gas_flow: self.gas_flow,
            gas_temperature: self.gas_temperature,
        }
    }
}

impl PlasmaTorch {
    /// A torch with the given identifier, pose and gas supply.
    pub fn new(
        id: &str,
        r_position: Scalar,
        z_position: Scalar,
        pitch: Scalar,
        yaw: Scalar,
        power: Scalar,
        gas_flow: Scalar,
        gas_temperature: Scalar,
    ) -> (torch: PlasmaTorch)
        ensures
            torch.id@ == id@,
            torch.r_position == r_position,
            torch.z_position == z_position,
            torch.pitch == pitch,
            torch.yaw == yaw,
            torch.power == power,
            torch.gas_flow == gas_flow,
            torch.gas_temperature == gas_temperature,
    {
        PlasmaTorch {
            id: id.to_owned(),
            r_position,
            z_position,
            pitch,
            yaw,
            power,
            gas_flow,
            gas_temperature,
        }
    }

    /// The torch stands inside a cylinder of the given radius and height:
    /// `0 <= r_position <= radius` and `0 <= z_position <= height`.
    pub open spec fn within(&self, radius: Scalar, height: Scalar) -> bool {
        self.radially_within(radius) && self.axially_within(height)
    }

    /// `0 <= r_position <= radius`.
    pub open spec fn radially_within(&self, radius: Scalar) -> bool {
        (Scalar { bits: 0 }).at_most(self.r_position) && self.r_position.at_most(radius)
    }

    /// `0 <= z_position <= height`.
    pub open spec fn axially_within(&self, height: Scalar) -> bool {
        (Scalar { bits: 0 }).at_most(self.z_position) && self.z_position.at_most(height)
    }
}

} // verus!
