//! A resolved vehicle record and the predicates over its type id.

use vstd::prelude::*;

use crate::data::{LocaleText, Vehicle};

verus! {

/// A vehicle's descriptive record as the lookup service returns it.
#[derive(Debug, Clone)]
pub struct VehicleInfo {
    pub vehicle_id: Vehicle,
    pub name: LocaleText,
    pub description: LocaleText,
    pub type_id: u32,
    pub type_label: String,
    pub cost_resource_id: u32,
    pub image_set_id: u32,
    pub image_id: u32,
    pub image_path: String,
}

impl VehicleInfo {
    /// A hover tank or a four-wheeled ground vehicle.
    pub open spec fn spec_is_ground(self) -> bool {
        self.type_id == 2 || self.type_id == 5
    }

    pub fn is_ground(&self) -> (r: bool)
        ensures
            r == self.spec_is_ground(),
    {
        match self.type_id {
            2 => true,
            5 => true,
            _ => false,
        }
    }

    /// A light aircraft or a drop pod.
    pub open spec fn spec_is_air(self) -> bool {
        self.type_id == 1 || self.type_id == 8
    }

    pub fn is_air(&self) -> (r: bool)
        ensures
            r == self.spec_is_air(),
    {
        match self.type_id {
            1 => true,
            8 => true,
            _ => false,
        }
    }

    /// No vehicle type counts as a boat.
    pub fn is_boat(&self) -> (r: bool)
        ensures
            !r,
    {
        false
    }
}

} // verus!
