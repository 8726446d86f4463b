//! A resolved fire-mode record.

use vstd::prelude::*;

use crate::data::{Item, LocaleText};

verus! {

/// The weapon name, type, and vehicle-mount flag resolved from a fire mode.
#[derive(Debug, Clone)]
pub struct FireModeInfo {
    pub item_id: Item,
    /// "primary" or "secondary"
    pub weapon_type: String,
    pub weapon_name: LocaleText,
    pub weapon_is_vehicle_weapon: bool,
}

} // verus!
