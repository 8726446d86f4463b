//! A resolved experience record and the predicates that sort experience
//! events into gameplay categories.

use vstd::prelude::*;

use crate::data::Experience;
use crate::text::{contains_sub, str_contains};

verus! {

/// An experience id together with its resolved descriptive name.
#[derive(Debug, Clone)]
pub struct ExperienceInfo {
    pub id: Experience,
    pub name: String,
}

impl ExperienceInfo {
    /// The name speaks of squad play.
    pub open spec fn spec_is_squad(self) -> bool {
        contains_sub(self.name@, "Squad"@)
    }

    pub fn is_squad(&self) -> (r: bool)
        ensures
            r == self.spec_is_squad(),
    {
        str_contains(self.name.as_str(), "Squad")
    }

    /// A spawn bonus: the name speaks of spawning but not of a kill.
    pub open spec fn spec_is_spawn(self) -> bool {
        contains_sub(self.name@, "Spawn"@) && !contains_sub(self.name@, "Kill"@)
    }

    pub fn is_spawn(&self) -> (r: bool)
        ensures
            r == self.spec_is_spawn(),
    {
        str_contains(self.name.as_str(), "Spawn") && !str_contains(self.name.as_str(), "Kill")
    }

    /// A kill event: the plain and MAX kills, and the band of specific kills.
    pub open spec fn spec_is_kill(self) -> bool {
        self.id.0 == 1 || self.id.0 == 29 || (146 <= self.id.0 && self.id.0 <= 155)
    }

    pub fn is_kill(&self) -> (r: bool)
        ensures
            r == self.spec_is_kill(),
    {
        if self.id.0 == 1 || self.id.0 == 29 {
            true
        } else if 146 <= self.id.0 && self.id.0 <= 155 {
            true
        } else {
            false
        }
    }

    /// A kill assist.
    pub open spec fn spec_is_assist(self) -> bool {
        self.id.0 == 2
    }

    pub fn is_assist(&self) -> (r: bool)
        ensures
            r == self.spec_is_assist(),
    {
        self.id.0 == 2
    }

    /// Defending, attacking or converting a control point.
    pub open spec fn spec_is_control_point(self) -> bool {
        self.id.0 == 15 || self.id.0 == 16 || self.id.0 == 272
    }

    pub fn is_control_point(&self) -> (r: bool)
        ensures
            r == self.spec_is_control_point(),
    {
        match self.id.0 {
            15 => true,
            16 => true,
            272 => true,
            _ => false,
        }
    }

    /// A revive, squad or not.
    pub open spec fn spec_is_revive(self) -> bool {
        self.id.0 == 7 || self.id.0 == 53
    }

    pub fn is_revive(&self) -> (r: bool)
        ensures
            r == self.spec_is_revive(),
    {
        match self.id.0 {
            7 => true,
            53 => true,
            _ => false,
        }
    }

    /// Healing a player, a heal assist, or a squad heal.
    pub open spec fn spec_is_heal(self) -> bool {
        self.id.0 == 4 || self.id.0 == 5 || self.id.0 == 51
    }

    pub fn is_heal(&self) -> (r: bool)
        ensures
            r == self.spec_is_heal(),
    {
        match self.id.0 {
            4 => true,
            5 => true,
            51 => true,
            _ => false,
        }
    }

    /// A shield repair, squad or not.
    pub open spec fn spec_is_shield_repair(self) -> bool {
        self.id.0 == 438 || self.id.0 == 439
    }

    pub fn is_shield_repair(&self) -> (r: bool)
        ensures
            r == self.spec_is_shield_repair(),
    {
        match self.id.0 {
            438 => true,
            439 => true,
            _ => false,
        }
    }

    /// A repair other than a shield repair.
    pub open spec fn spec_is_repair(self) -> bool {
        !self.spec_is_shield_repair() && contains_sub(self.name@, "Repair"@)
    }

    pub fn is_repair(&self) -> (r: bool)
        ensures
            r == self.spec_is_repair(),
    {
        if self.is_shield_repair() {
            return false;
        }
        str_contains(self.name.as_str(), "Repair")
    }

    /// Resupplying a player, squad or not.
    pub open spec fn spec_is_resupply_player(self) -> bool {
        self.id.0 == 34 || self.id.0 == 55
    }

    pub fn is_resupply_player(&self) -> (r: bool)
        ensures
            r == self.spec_is_resupply_player(),
    {
        match self.id.0 {
            34 => true,
            55 => true,
            _ => false,
        }
    }

    /// Resupplying a vehicle, squad or not.
    pub open spec fn spec_is_resupply_vehicle(self) -> bool {
        self.id.0 == 240 || self.id.0 == 241
    }

    pub fn is_resupply_vehicle(&self) -> (r: bool)
        ensures
            r == self.spec_is_resupply_vehicle(),
    {
        match self.id.0 {
            240 => true,
            241 => true,
            _ => false,
        }
    }

    /// Any resupply.
    pub open spec fn spec_is_resupply(self) -> bool {
        self.spec_is_resupply_player() || self.spec_is_resupply_vehicle()
    }

    pub fn is_resupply(&self) -> (r: bool)
        ensures
            r == self.spec_is_resupply(),
    {
        self.is_resupply_player() || self.is_resupply_vehicle()
    }

    /// The name speaks of spotting.
    pub open spec fn spec_is_spot(self) -> bool {
        contains_sub(self.name@, "Spot"@)
    }

    pub fn is_spot(&self) -> (r: bool)
        ensures
            r == self.spec_is_spot(),
    {
        str_contains(self.name.as_str(), "Spot")
    }

    /// A motion detection bonus, squad or not.
    pub open spec fn spec_is_motion_detect(self) -> bool {
        self.id.0 == 293 || self.id.0 == 294
    }

    pub fn is_motion_detect(&self) -> (r: bool)
        ensures
            r == self.spec_is_motion_detect(),
    {
        match self.id.0 {
            293 => true,
            294 => true,
            _ => false,
        }
    }

    /// A scout radar detection bonus, squad or not.
    pub open spec fn spec_is_radar(self) -> bool {
        self.id.0 == 353 || self.id.0 == 354
    }

    pub fn is_radar(&self) -> (r: bool)
        ensures
            r == self.spec_is_radar(),
    {
        match self.id.0 {
            353 => true,
            354 => true,
            _ => false,
        }
    }

    /// A spot bonus, motion detect bonus or radar bonus.
    pub open spec fn spec_is_recon(self) -> bool {
        self.spec_is_spot() || self.spec_is_motion_detect() || self.spec_is_radar()
    }

    pub fn is_recon(&self) -> (r: bool)
        ensures
            r == self.spec_is_recon(),
    {
        self.is_spot() || self.is_motion_detect() || self.is_radar()
    }

    /// The name speaks of damage dealt to a vehicle.
    pub open spec fn spec_is_vehicle_damage(self) -> bool {
        contains_sub(self.name@, "Damage"@)
    }

    pub fn is_vehicle_damage(&self) -> (r: bool)
        ensures
            r == self.spec_is_vehicle_damage(),
    {
        str_contains(self.name.as_str(), "Damage")
    }

    /// Any of the supporting actions.
    pub open spec fn spec_is_support(self) -> bool {
        self.spec_is_spawn() || self.spec_is_revive() || self.spec_is_heal()
            || self.spec_is_shield_repair() || self.spec_is_repair() || self.spec_is_resupply()
            || self.spec_is_recon()
    }

    pub fn is_support(&self) -> (r: bool)
        ensures
            r == self.spec_is_support(),
    {
        self.is_spawn() || self.is_revive() || self.is_heal() || self.is_shield_repair()
            || self.is_repair() || self.is_resupply() || self.is_recon()
    }
}

} // verus!
