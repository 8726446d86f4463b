//! A character's descriptive record as the lookup service returns it.

use vstd::prelude::*;

use crate::data::{BattleRank, Character, Faction, Timestamp};

verus! {

/// A character's full descriptive record.
#[derive(Debug, Clone)]
pub struct CharacterInfo {
    pub character_id: Character,
    pub name: CharacterName,
    pub faction_id: Faction,
    pub head_id: u32,
    pub title_id: u32,
    pub times: CharacterTimes,
    pub certs: CharacterCerts,
    pub battle_rank: CharacterBattleRank,
    pub profile_id: u32,
    pub daily_ribbon: CharacterDailyRibbon,
    pub prestige_level: u32,
}

/// A character's display name and its lowercased form.
#[derive(Debug, Clone)]
pub struct CharacterName {
    pub first: String,
    pub first_lower: String,
}

/// Creation, save and login times for a character.
#[derive(Debug, Clone)]
pub struct CharacterTimes {
    pub creation: Timestamp,
    pub creation_date: String,
    pub last_save: Timestamp,
    pub last_save_date: String,
    pub last_login: Timestamp,
    pub last_login_date: String,
    pub login_count: u32,
    pub minutes_played: u32,
}

/// A character's certification points. The progress fraction is kept as the
/// raw decimal text the service sent.
#[derive(Debug, Clone)]
pub struct CharacterCerts {
    pub earned_points: u32,
    pub gifted_points: u32,
    pub spent_points: u32,
    pub available_points: u32,
    pub percent_to_next: String,
}

/// A character's battle rank and progress toward the next.
#[derive(Debug, Clone)]
pub struct CharacterBattleRank {
    pub percent_to_next: u32,
    pub value: BattleRank,
}

/// A character's daily ribbon counters.
#[derive(Debug, Clone)]
pub struct CharacterDailyRibbon {
    pub count: u32,
    pub time: Timestamp,
    pub date: String,
}

} // verus!
