//! A resolved loadout record.

use vstd::prelude::*;

use crate::data::{Class, Faction, Loadout};

verus! {

/// The class and faction a loadout id stands for.
#[derive(Debug, Clone, Copy)]
pub struct ClassInfo {
    pub loadout_id: Loadout,
    pub faction_id: Faction,
    pub class: Class,
}

} // verus!
