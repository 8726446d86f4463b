//! The typed event payloads the feed can deliver, and the verified parsing
//! of each from the members of a service-message payload object.
//!
//! Every numeric field arrives as a decimal string (or occasionally a bare
//! JSON number); booleans may arrive as booleans, number texts or the words
//! `true`/`false`.

use vstd::prelude::*;

use crate::data::{Achievement, BattleRank, Character, Experience, Facility, Faction, FireMode,
    Item, Loadout, Outfit, Skill, Timestamp, Vehicle, Weapon, World, Zone};
use crate::json::{JsonEntry, JsonNode, bool_of_node, get_field, lookup_field, spec_bool_of_node,
    spec_u32_of_node, spec_u64_of_node, str_eq_str, u32_of_node, u64_of_node};

verus! {

/// The value under `key`, coerced to a `u64` as the wire sends numbers.
pub open spec fn spec_field_u64(fs: Seq<JsonEntry>, key: Seq<char>) -> Option<u64> {
    match lookup_field(fs, key) {
        Some(n) => spec_u64_of_node(n),
        None => None,
    }
}

pub fn field_u64(fs: &Vec<JsonEntry>, key: &str) -> (r: Option<u64>)
    ensures
        r == spec_field_u64(fs@, key@),
{
    match get_field(fs, key) {
        Some(n) => u64_of_node(n),
        None => None,
    }
}

/// The value under `key`, coerced to a `u32`.
pub open spec fn spec_field_u32(fs: Seq<JsonEntry>, key: Seq<char>) -> Option<u32> {
    match lookup_field(fs, key) {
        Some(n) => spec_u32_of_node(n),
        None => None,
    }
}

pub fn field_u32(fs: &Vec<JsonEntry>, key: &str) -> (r: Option<u32>)
    ensures
        r == spec_field_u32(fs@, key@),
{
    match get_field(fs, key) {
        Some(n) => u32_of_node(n),
        None => None,
    }
}

/// The value under `key`, coerced to a boolean.
pub open spec fn spec_field_bool(fs: Seq<JsonEntry>, key: Seq<char>) -> Option<bool> {
    match lookup_field(fs, key) {
        Some(n) => spec_bool_of_node(n),
        None => None,
    }
}

pub fn field_bool(fs: &Vec<JsonEntry>, key: &str) -> (r: Option<bool>)
    ensures
        r == spec_field_bool(fs@, key@),
{
    match get_field(fs, key) {
        Some(n) => bool_of_node(n),
        None => None,
    }
}

/// The value under `key` where a plain JSON string is required.
pub open spec fn spec_field_text(fs: Seq<JsonEntry>, key: Seq<char>) -> Option<String> {
    match lookup_field(fs, key) {
        Some(JsonNode::Text(s)) => Some(s),
        _ => None,
    }
}

pub fn field_text(fs: &Vec<JsonEntry>, key: &str) -> (r: Option<String>)
    ensures
        r == spec_field_text(fs@, key@),
{
    match get_field(fs, key) {
        Some(JsonNode::Text(s)) => Some(s.clone()),
        _ => None,
    }
}

/// The value under `key` read as a world id: the feed sends these as
/// decimal strings; anything else fails to classify.
pub open spec fn spec_field_world(fs: Seq<JsonEntry>, key: Seq<char>) -> Option<World> {
    match lookup_field(fs, key) {
        Some(JsonNode::Text(s)) => World::spec_from_str(s@),
        _ => None,
    }
}

pub fn field_world(fs: &Vec<JsonEntry>, key: &str) -> (r: Option<World>)
    ensures
        r == spec_field_world(fs@, key@),
{
    match get_field(fs, key) {
        Some(JsonNode::Text(s)) => World::from_str(s.as_str()),
        _ => None,
    }
}

/// The value under `key` read as a zone id.
pub open spec fn spec_field_zone(fs: Seq<JsonEntry>, key: Seq<char>) -> Option<Zone> {
    match lookup_field(fs, key) {
        Some(JsonNode::Text(s)) => Zone::spec_from_str(s@),
        _ => None,
    }
}

pub fn field_zone(fs: &Vec<JsonEntry>, key: &str) -> (r: Option<Zone>)
    ensures
        r == spec_field_zone(fs@, key@),
{
    match get_field(fs, key) {
        Some(JsonNode::Text(s)) => Zone::from_str(s.as_str()),
        _ => None,
    }
}

/// The value under `key` read as a faction id.
pub open spec fn spec_field_faction(fs: Seq<JsonEntry>, key: Seq<char>) -> Option<Faction> {
    match lookup_field(fs, key) {
        Some(JsonNode::Text(s)) => Faction::spec_from_str(s@),
        _ => None,
    }
}

pub fn field_faction(fs: &Vec<JsonEntry>, key: &str) -> (r: Option<Faction>)
    ensures
        r == spec_field_faction(fs@, key@),
{
    match get_field(fs, key) {
        Some(JsonNode::Text(s)) => Faction::from_str(s.as_str()),
        _ => None,
    }
}

/// The kinds of event one can subscribe to.
#[derive(PartialEq, Eq, Structural, Debug, Clone, Copy)]
pub enum EventType {
    All,
    AchievementEarned,
    BattleRankUp,
    Death,
    ItemAdded,
    SkillAdded,
    VehicleDestroy,
    GainExperience,
    PlayerFacilityCapture,
    PlayerFacilityDefend,
    ContinentLock,
    ContinentUnlock,
    FacilityControl,
    MetagameEvent,
    PlayerLogin,
    PlayerLogout,
}

impl EventType {
    /// The name of this event kind on the wire.
    pub open spec fn spec_name(self) -> Seq<char> {
        match self {
            EventType::All => "all"@,
            EventType::AchievementEarned => "AchievementEarned"@,
            EventType::BattleRankUp => "BattleRankUp"@,
            EventType::Death => "Death"@,
            EventType::ItemAdded => "ItemAdded"@,
            EventType::SkillAdded => "SkillAdded"@,
            EventType::VehicleDestroy => "VehicleDestroy"@,
            EventType::GainExperience => "GainExperience"@,
            EventType::PlayerFacilityCapture => "PlayerFacilityCapture"@,
            EventType::PlayerFacilityDefend => "PlayerFacilityDefend"@,
            EventType::ContinentLock => "ContinentLock"@,
            EventType::ContinentUnlock => "ContinentUnlock"@,
            EventType::FacilityControl => "FacilityControl"@,
            EventType::MetagameEvent => "MetagameEvent"@,
            EventType::PlayerLogin => "PlayerLogin"@,
            EventType::PlayerLogout => "PlayerLogout"@,
        }
    }

    /// The name of this event kind on the wire.
    pub fn wire_name(&self) -> (r: &'static str)
        ensures
            r@ == self.spec_name(),
    {
        match self {
            EventType::All => "all",
            EventType::AchievementEarned => "AchievementEarned",
            EventType::BattleRankUp => "BattleRankUp",
            EventType::Death => "Death",
            EventType::ItemAdded => "ItemAdded",
            EventType::SkillAdded => "SkillAdded",
            EventType::VehicleDestroy => "VehicleDestroy",
            EventType::GainExperience => "GainExperience",
            EventType::PlayerFacilityCapture => "PlayerFacilityCapture",
            EventType::PlayerFacilityDefend => "PlayerFacilityDefend",
            EventType::ContinentLock => "ContinentLock",
            EventType::ContinentUnlock => "ContinentUnlock",
            EventType::FacilityControl => "FacilityControl",
            EventType::MetagameEvent => "MetagameEvent",
            EventType::PlayerLogin => "PlayerLogin",
            EventType::PlayerLogout => "PlayerLogout",
        }
    }

    /// The event kind a wire name stands for, if any.
    pub open spec fn spec_from_name(s: Seq<char>) -> Option<EventType> {
        if s == "all"@ {
            Some(EventType::All)
        } else if s == "AchievementEarned"@ {
            Some(EventType::AchievementEarned)
        } else if s == "BattleRankUp"@ {
            Some(EventType::BattleRankUp)
        } else if s == "Death"@ {
            Some(EventType::Death)
        } else if s == "ItemAdded"@ {
            Some(EventType::ItemAdded)
        } else if s == "SkillAdded"@ {
            Some(EventType::SkillAdded)
        } else if s == "VehicleDestroy"@ {
            Some(EventType::VehicleDestroy)
        } else if s == "GainExperience"@ {
            Some(EventType::GainExperience)
        } else if s == "PlayerFacilityCapture"@ {
            Some(EventType::PlayerFacilityCapture)
        } else if s == "PlayerFacilityDefend"@ {
            Some(EventType::PlayerFacilityDefend)
        } else if s == "ContinentLock"@ {
            Some(EventType::ContinentLock)
        } else if s == "ContinentUnlock"@ {
            Some(EventType::ContinentUnlock)
        } else if s == "FacilityControl"@ {
            Some(EventType::FacilityControl)
        } else if s == "MetagameEvent"@ {
            Some(EventType::MetagameEvent)
        } else if s == "PlayerLogin"@ {
            Some(EventType::PlayerLogin)
        } else if s == "PlayerLogout"@ {
            Some(EventType::PlayerLogout)
        } else {
            None
        }
    }

    /// Parse an event kind from its wire name.
    pub fn from_name(s: &str) -> (r: Option<EventType>)
        ensures
            r == EventType::spec_from_name(s@),
    {
        if str_eq_str(s, "all") {
            Some(EventType::All)
        } else if str_eq_str(s, "AchievementEarned") {
            Some(EventType::AchievementEarned)
        } else if str_eq_str(s, "BattleRankUp") {
            Some(EventType::BattleRankUp)
        } else if str_eq_str(s, "Death") {
            Some(EventType::Death)
        } else if str_eq_str(s, "ItemAdded") {
            Some(EventType::ItemAdded)
        } else if str_eq_str(s, "SkillAdded") {
            Some(EventType::SkillAdded)
        } else if str_eq_str(s, "VehicleDestroy") {
            Some(EventType::VehicleDestroy)
        } else if str_eq_str(s, "GainExperience") {
            Some(EventType::GainExperience)
        } else if str_eq_str(s, "PlayerFacilityCapture") {
            Some(EventType::PlayerFacilityCapture)
        } else if str_eq_str(s, "PlayerFacilityDefend") {
            Some(EventType::PlayerFacilityDefend)
        } else if str_eq_str(s, "ContinentLock") {
            Some(EventType::ContinentLock)
        } else if str_eq_str(s, "ContinentUnlock") {
            Some(EventType::ContinentUnlock)
        } else if str_eq_str(s, "FacilityControl") {
            Some(EventType::FacilityControl)
        } else if str_eq_str(s, "MetagameEvent") {
            Some(EventType::MetagameEvent)
        } else if str_eq_str(s, "PlayerLogin") {
            Some(EventType::PlayerLogin)
        } else if str_eq_str(s, "PlayerLogout") {
            Some(EventType::PlayerLogout)
        } else {
            None
        }
    }
}

/// A continent lock or unlock.
#[derive(Debug, Clone)]
pub struct ContinentEvent {
    pub event_type: String,
    pub metagame_event_id: String,
    pub previous_faction: Faction,
    pub triggering_faction: Faction,
    pub vs_population: String,
    pub nc_population: String,
    pub tr_population: String,
    pub timestamp: Timestamp,
    pub world_id: World,
    pub zone_id: Zone,
}

/// What reading a `ContinentEvent` out of a payload object yields: every field
/// present and coerced, else nothing.
pub open spec fn spec_parse_continent(fs: Seq<JsonEntry>) -> Option<ContinentEvent> {
    if spec_field_text(fs, "event_type"@) is Some
        && spec_field_text(fs, "metagame_event_id"@) is Some
        && spec_field_faction(fs, "previous_faction"@) is Some
        && spec_field_faction(fs, "triggering_faction"@) is Some
        && spec_field_text(fs, "vs_population"@) is Some
        && spec_field_text(fs, "nc_population"@) is Some
        && spec_field_text(fs, "tr_population"@) is Some
        && spec_field_u64(fs, "timestamp"@) is Some
        && spec_field_world(fs, "world_id"@) is Some
        && spec_field_zone(fs, "zone_id"@) is Some {
        Some(ContinentEvent {
            event_type: spec_field_text(fs, "event_type"@).unwrap(),
            metagame_event_id: spec_field_text(fs, "metagame_event_id"@).unwrap(),
            previous_faction: spec_field_faction(fs, "previous_faction"@).unwrap(),
            triggering_faction: spec_field_faction(fs, "triggering_faction"@).unwrap(),
            vs_population: spec_field_text(fs, "vs_population"@).unwrap(),
            nc_population: spec_field_text(fs, "nc_population"@).unwrap(),
            tr_population: spec_field_text(fs, "tr_population"@).unwrap(),
            timestamp: Timestamp(spec_field_u64(fs, "timestamp"@).unwrap()),
            world_id: spec_field_world(fs, "world_id"@).unwrap(),
            zone_id: spec_field_zone(fs, "zone_id"@).unwrap(),
        })
    } else {
        None
    }
}

/// Read a `ContinentEvent` out of a payload object.
pub fn parse_continent(fs: &Vec<JsonEntry>) -> (r: Option<ContinentEvent>)
    ensures
        r == spec_parse_continent(fs@),
{
    let event_type = match field_text(fs, "event_type") { Some(v) => v, None => { return None; } };
    let metagame_event_id = match field_text(fs, "metagame_event_id") { Some(v) => v, None => { return None; } };
    let previous_faction = match field_faction(fs, "previous_faction") { Some(v) => v, None => { return None; } };
    let triggering_faction = match field_faction(fs, "triggering_faction") { Some(v) => v, None => { return None; } };
    let vs_population = match field_text(fs, "vs_population") { Some(v) => v, None => { return None; } };
    let nc_population = match field_text(fs, "nc_population") { Some(v) => v, None => { return None; } };
    let tr_population = match field_text(fs, "tr_population") { Some(v) => v, None => { return None; } };
    let timestamp = match field_u64(fs, "timestamp") { Some(v) => Timestamp(v), None => { return None; } };
    let world_id = match field_world(fs, "world_id") { Some(v) => v, None => { return None; } };
    let zone_id = match field_zone(fs, "zone_id") { Some(v) => v, None => { return None; } };
    Some(ContinentEvent { event_type, metagame_event_id, previous_faction, triggering_faction, vs_population, nc_population, tr_population, timestamp, world_id, zone_id })
}

/// An achievement earned by a character.
#[derive(Debug, Clone, Copy)]
pub struct AchievementEvent {
    pub character_id: Character,
    pub achievement_id: Achievement,
    pub timestamp: Timestamp,
    pub world_id: World,
    pub zone_id: Zone,
}

/// What reading a `AchievementEvent` out of a payload object yields: every field
/// present and coerced, else nothing.
pub open spec fn spec_parse_achievement(fs: Seq<JsonEntry>) -> Option<AchievementEvent> {
    if spec_field_u64(fs, "character_id"@) is Some
        && spec_field_u32(fs, "achievement_id"@) is Some
        && spec_field_u64(fs, "timestamp"@) is Some
        && spec_field_world(fs, "world_id"@) is Some
        && spec_field_zone(fs, "zone_id"@) is Some {
        Some(AchievementEvent {
            character_id: Character(spec_field_u64(fs, "character_id"@).unwrap()),
            achievement_id: Achievement(spec_field_u32(fs, "achievement_id"@).unwrap()),
            timestamp: Timestamp(spec_field_u64(fs, "timestamp"@).unwrap()),
            world_id: spec_field_world(fs, "world_id"@).unwrap(),
            zone_id: spec_field_zone(fs, "zone_id"@).unwrap(),
        })
    } else {
        None
    }
}

/// Read a `AchievementEvent` out of a payload object.
pub fn parse_achievement(fs: &Vec<JsonEntry>) -> (r: Option<AchievementEvent>)
    ensures
        r == spec_parse_achievement(fs@),
{
    let character_id = match field_u64(fs, "character_id") { Some(v) => Character(v), None => { return None; } };
    let achievement_id = match field_u32(fs, "achievement_id") { Some(v) => Achievement(v), None => { return None; } };
    let timestamp = match field_u64(fs, "timestamp") { Some(v) => Timestamp(v), None => { return None; } };
    let world_id = match field_world(fs, "world_id") { Some(v) => v, None => { return None; } };
    let zone_id = match field_zone(fs, "zone_id") { Some(v) => v, None => { return None; } };
    Some(AchievementEvent { character_id, achievement_id, timestamp, world_id, zone_id })
}

/// A character reaching a new battle rank.
#[derive(Debug, Clone, Copy)]
pub struct BattleRankEvent {
    pub character_id: Character,
    pub battle_rank: BattleRank,
    pub timestamp: Timestamp,
    pub world_id: World,
    pub zone_id: Zone,
}

/// What reading a `BattleRankEvent` out of a payload object yields: every field
/// present and coerced, else nothing.
pub open spec fn spec_parse_battle_rank(fs: Seq<JsonEntry>) -> Option<BattleRankEvent> {
    if spec_field_u64(fs, "character_id"@) is Some
        && spec_field_u32(fs, "battle_rank"@) is Some
        && spec_field_u64(fs, "timestamp"@) is Some
        && spec_field_world(fs, "world_id"@) is Some
        && spec_field_zone(fs, "zone_id"@) is Some {
        Some(BattleRankEvent {
            character_id: Character(spec_field_u64(fs, "character_id"@).unwrap()),
            battle_rank: BattleRank(spec_field_u32(fs, "battle_rank"@).unwrap()),
            timestamp: Timestamp(spec_field_u64(fs, "timestamp"@).unwrap()),
            world_id: spec_field_world(fs, "world_id"@).unwrap(),
            zone_id: spec_field_zone(fs, "zone_id"@).unwrap(),
        })
    } else {
        None
    }
}

/// Read a `BattleRankEvent` out of a payload object.
pub fn parse_battle_rank(fs: &Vec<JsonEntry>) -> (r: Option<BattleRankEvent>)
    ensures
        r == spec_parse_battle_rank(fs@),
{
    let character_id = match field_u64(fs, "character_id") { Some(v) => Character(v), None => { return None; } };
    let battle_rank = match field_u32(fs, "battle_rank") { Some(v) => BattleRank(v), None => { return None; } };
    let timestamp = match field_u64(fs, "timestamp") { Some(v) => Timestamp(v), None => { return None; } };
    let world_id = match field_world(fs, "world_id") { Some(v) => v, None => { return None; } };
    let zone_id = match field_zone(fs, "zone_id") { Some(v) => v, None => { return None; } };
    Some(BattleRankEvent { character_id, battle_rank, timestamp, world_id, zone_id })
}

/// A player logging in or out.
#[derive(Debug, Clone, Copy)]
pub struct PlayerLogEvent {
    pub character_id: Character,
    pub timestamp: Timestamp,
    pub world_id: World,
}

/// What reading a `PlayerLogEvent` out of a payload object yields: every field
/// present and coerced, else nothing.
pub open spec fn spec_parse_player_log(fs: Seq<JsonEntry>) -> Option<PlayerLogEvent> {
    if spec_field_u64(fs, "character_id"@) is Some
        && spec_field_u64(fs, "timestamp"@) is Some
        && spec_field_world(fs, "world_id"@) is Some {
        Some(PlayerLogEvent {
            character_id: Character(spec_field_u64(fs, "character_id"@).unwrap()),
            timestamp: Timestamp(spec_field_u64(fs, "timestamp"@).unwrap()),
            world_id: spec_field_world(fs, "world_id"@).unwrap(),
        })
    } else {
        None
    }
}

/// Read a `PlayerLogEvent` out of a payload object.
pub fn parse_player_log(fs: &Vec<JsonEntry>) -> (r: Option<PlayerLogEvent>)
    ensures
        r == spec_parse_player_log(fs@),
{
    let character_id = match field_u64(fs, "character_id") { Some(v) => Character(v), None => { return None; } };
    let timestamp = match field_u64(fs, "timestamp") { Some(v) => Timestamp(v), None => { return None; } };
    let world_id = match field_world(fs, "world_id") { Some(v) => v, None => { return None; } };
    Some(PlayerLogEvent { character_id, timestamp, world_id })
}

/// A facility changing hands.
#[derive(Debug, Clone, Copy)]
pub struct FacilityControlEvent {
    pub facility_id: Facility,
    pub old_faction_id: Faction,
    pub new_faction_id: Faction,
    pub outfit_id: Outfit,
    pub timestamp: Timestamp,
    pub world_id: World,
    pub zone_id: Zone,
}

/// What reading a `FacilityControlEvent` out of a payload object yields: every field
/// present and coerced, else nothing.
pub open spec fn spec_parse_facility_control(fs: Seq<JsonEntry>) -> Option<FacilityControlEvent> {
    if spec_field_u32(fs, "facility_id"@) is Some
        && spec_field_faction(fs, "old_faction_id"@) is Some
        && spec_field_faction(fs, "new_faction_id"@) is Some
        && spec_field_u64(fs, "outfit_id"@) is Some
        && spec_field_u64(fs, "timestamp"@) is Some
        && spec_field_world(fs, "world_id"@) is Some
        && spec_field_zone(fs, "zone_id"@) is Some {
        Some(FacilityControlEvent {
            facility_id: Facility(spec_field_u32(fs, "facility_id"@).unwrap()),
            old_faction_id: spec_field_faction(fs, "old_faction_id"@).unwrap(),
            new_faction_id: spec_field_faction(fs, "new_faction_id"@).unwrap(),
            outfit_id: Outfit(spec_field_u64(fs, "outfit_id"@).unwrap()),
            timestamp: Timestamp(spec_field_u64(fs, "timestamp"@).unwrap()),
            world_id: spec_field_world(fs, "world_id"@).unwrap(),
            zone_id: spec_field_zone(fs, "zone_id"@).unwrap(),
        })
    } else {
        None
    }
}

/// Read a `FacilityControlEvent` out of a payload object.
pub fn parse_facility_control(fs: &Vec<JsonEntry>) -> (r: Option<FacilityControlEvent>)
    ensures
        r == spec_parse_facility_control(fs@),
{
    let facility_id = match field_u32(fs, "facility_id") { Some(v) => Facility(v), None => { return None; } };
    let old_faction_id = match field_faction(fs, "old_faction_id") { Some(v) => v, None => { return None; } };
    let new_faction_id = match field_faction(fs, "new_faction_id") { Some(v) => v, None => { return None; } };
    let outfit_id = match field_u64(fs, "outfit_id") { Some(v) => Outfit(v), None => { return None; } };
    let timestamp = match field_u64(fs, "timestamp") { Some(v) => Timestamp(v), None => { return None; } };
    let world_id = match field_world(fs, "world_id") { Some(v) => v, None => { return None; } };
    let zone_id = match field_zone(fs, "zone_id") { Some(v) => v, None => { return None; } };
    Some(FacilityControlEvent { facility_id, old_faction_id, new_faction_id, outfit_id, timestamp, world_id, zone_id })
}

/// A world-wide metagame event changing state.
#[derive(Debug, Clone)]
pub struct MetagameEvent {
    pub metagame_event_id: String,
    pub metagame_event_state: String,
    pub experience_bonus: String,
    pub faction_nc: String,
    pub faction_tr: String,
    pub faction_vs: String,
    pub timestamp: Timestamp,
    pub world_id: World,
    pub zone_id: Zone,
}

/// What reading a `MetagameEvent` out of a payload object yields: every field
/// present and coerced, else nothing.
pub open spec fn spec_parse_metagame(fs: Seq<JsonEntry>) -> Option<MetagameEvent> {
    if spec_field_text(fs, "metagame_event_id"@) is Some
        && spec_field_text(fs, "metagame_event_state"@) is Some
        && spec_field_text(fs, "experience_bonus"@) is Some
        && spec_field_text(fs, "faction_nc"@) is Some
        && spec_field_text(fs, "faction_tr"@) is Some
        && spec_field_text(fs, "faction_vs"@) is Some
        && spec_field_u64(fs, "timestamp"@) is Some
        && spec_field_world(fs, "world_id"@) is Some
        && spec_field_zone(fs, "zone_id"@) is Some {
        Some(MetagameEvent {
            metagame_event_id: spec_field_text(fs, "metagame_event_id"@).unwrap(),
            metagame_event_state: spec_field_text(fs, "metagame_event_state"@).unwrap(),
            experience_bonus: spec_field_text(fs, "experience_bonus"@).unwrap(),
            faction_nc: spec_field_text(fs, "faction_nc"@).unwrap(),
            faction_tr: spec_field_text(fs, "faction_tr"@).unwrap(),
            faction_vs: spec_field_text(fs, "faction_vs"@).unwrap(),
            timestamp: Timestamp(spec_field_u64(fs, "timestamp"@).unwrap()),
            world_id: spec_field_world(fs, "world_id"@).unwrap(),
            zone_id: spec_field_zone(fs, "zone_id"@).unwrap(),
        })
    } else {
        None
    }
}

/// Read a `MetagameEvent` out of a payload object.
pub fn parse_metagame(fs: &Vec<JsonEntry>) -> (r: Option<MetagameEvent>)
    ensures
        r == spec_parse_metagame(fs@),
{
    let metagame_event_id = match field_text(fs, "metagame_event_id") { Some(v) => v, None => { return None; } };
    let metagame_event_state = match field_text(fs, "metagame_event_state") { Some(v) => v, None => { return None; } };
    let experience_bonus = match field_text(fs, "experience_bonus") { Some(v) => v, None => { return None; } };
    let faction_nc = match field_text(fs, "faction_nc") { Some(v) => v, None => { return None; } };
    let faction_tr = match field_text(fs, "faction_tr") { Some(v) => v, None => { return None; } };
    let faction_vs = match field_text(fs, "faction_vs") { Some(v) => v, None => { return None; } };
    let timestamp = match field_u64(fs, "timestamp") { Some(v) => Timestamp(v), None => { return None; } };
    let world_id = match field_world(fs, "world_id") { Some(v) => v, None => { return None; } };
    let zone_id = match field_zone(fs, "zone_id") { Some(v) => v, None => { return None; } };
    Some(MetagameEvent { metagame_event_id, metagame_event_state, experience_bonus, faction_nc, faction_tr, faction_vs, timestamp, world_id, zone_id })
}

/// An item granted to a character.
#[derive(Debug, Clone)]
pub struct ItemAddEvent {
    pub character_id: Character,
    pub context: String,
    pub item_id: Item,
    pub item_count: u32,
    pub timestamp: Timestamp,
    pub world_id: World,
    pub zone_id: Zone,
}

/// What reading a `ItemAddEvent` out of a payload object yields: every field
/// present and coerced, else nothing.
pub open spec fn spec_parse_item_add(fs: Seq<JsonEntry>) -> Option<ItemAddEvent> {
    if spec_field_u64(fs, "character_id"@) is Some
        && spec_field_text(fs, "context"@) is Some
        && spec_field_u32(fs, "item_id"@) is Some
        && spec_field_u32(fs, "item_count"@) is Some
        && spec_field_u64(fs, "timestamp"@) is Some
        && spec_field_world(fs, "world_id"@) is Some
        && spec_field_zone(fs, "zone_id"@) is Some {
        Some(ItemAddEvent {
            character_id: Character(spec_field_u64(fs, "character_id"@).unwrap()),
            context: spec_field_text(fs, "context"@).unwrap(),
            item_id: Item(spec_field_u32(fs, "item_id"@).unwrap()),
            item_count: spec_field_u32(fs, "item_count"@).unwrap(),
            timestamp: Timestamp(spec_field_u64(fs, "timestamp"@).unwrap()),
            world_id: spec_field_world(fs, "world_id"@).unwrap(),
            zone_id: spec_field_zone(fs, "zone_id"@).unwrap(),
        })
    } else {
        None
    }
}

/// Read a `ItemAddEvent` out of a payload object.
pub fn parse_item_add(fs: &Vec<JsonEntry>) -> (r: Option<ItemAddEvent>)
    ensures
        r == spec_parse_item_add(fs@),
{
    let character_id = match field_u64(fs, "character_id") { Some(v) => Character(v), None => { return None; } };
    let context = match field_text(fs, "context") { Some(v) => v, None => { return None; } };
    let item_id = match field_u32(fs, "item_id") { Some(v) => Item(v), None => { return None; } };
    let item_count = match field_u32(fs, "item_count") { Some(v) => v, None => { return None; } };
    let timestamp = match field_u64(fs, "timestamp") { Some(v) => Timestamp(v), None => { return None; } };
    let world_id = match field_world(fs, "world_id") { Some(v) => v, None => { return None; } };
    let zone_id = match field_zone(fs, "zone_id") { Some(v) => v, None => { return None; } };
    Some(ItemAddEvent { character_id, context, item_id, item_count, timestamp, world_id, zone_id })
}

/// A skill granted to a character.
#[derive(Debug, Clone, Copy)]
pub struct SkillAddEvent {
    pub character_id: Character,
    pub skill_id: Skill,
    pub timestamp: Timestamp,
    pub world_id: World,
    pub zone_id: Zone,
}

/// What reading a `SkillAddEvent` out of a payload object yields: every field
/// present and coerced, else nothing.
pub open spec fn spec_parse_skill_add(fs: Seq<JsonEntry>) -> Option<SkillAddEvent> {
    if spec_field_u64(fs, "character_id"@) is Some
        && spec_field_u32(fs, "skill_id"@) is Some
        && spec_field_u64(fs, "timestamp"@) is Some
        && spec_field_world(fs, "world_id"@) is Some
        && spec_field_zone(fs, "zone_id"@) is Some {
        Some(SkillAddEvent {
            character_id: Character(spec_field_u64(fs, "character_id"@).unwrap()),
            skill_id: Skill(spec_field_u32(fs, "skill_id"@).unwrap()),
            timestamp: Timestamp(spec_field_u64(fs, "timestamp"@).unwrap()),
            world_id: spec_field_world(fs, "world_id"@).unwrap(),
            zone_id: spec_field_zone(fs, "zone_id"@).unwrap(),
        })
    } else {
        None
    }
}

/// Read a `SkillAddEvent` out of a payload object.
pub fn parse_skill_add(fs: &Vec<JsonEntry>) -> (r: Option<SkillAddEvent>)
    ensures
        r == spec_parse_skill_add(fs@),
{
    let character_id = match field_u64(fs, "character_id") { Some(v) => Character(v), None => { return None; } };
    let skill_id = match field_u32(fs, "skill_id") { Some(v) => Skill(v), None => { return None; } };
    let timestamp = match field_u64(fs, "timestamp") { Some(v) => Timestamp(v), None => { return None; } };
    let world_id = match field_world(fs, "world_id") { Some(v) => v, None => { return None; } };
    let zone_id = match field_zone(fs, "zone_id") { Some(v) => v, None => { return None; } };
    Some(SkillAddEvent { character_id, skill_id, timestamp, world_id, zone_id })
}

/// A player capturing or defending a facility.
#[derive(Debug, Clone, Copy)]
pub struct PlayerFacilityEvent {
    pub character_id: Character,
    pub facility_id: Facility,
    pub outfit_id: Outfit,
    pub timestamp: Timestamp,
    pub world_id: World,
    pub zone_id: Zone,
}

/// What reading a `PlayerFacilityEvent` out of a payload object yields: every field
/// present and coerced, else nothing.
pub open spec fn spec_parse_player_facility(fs: Seq<JsonEntry>) -> Option<PlayerFacilityEvent> {
    if spec_field_u64(fs, "character_id"@) is Some
        && spec_field_u32(fs, "facility_id"@) is Some
        && spec_field_u64(fs, "outfit_id"@) is Some
        && spec_field_u64(fs, "timestamp"@) is Some
        && spec_field_world(fs, "world_id"@) is Some
        && spec_field_zone(fs, "zone_id"@) is Some {
        Some(PlayerFacilityEvent {
            character_id: Character(spec_field_u64(fs, "character_id"@).unwrap()),
            facility_id: Facility(spec_field_u32(fs, "facility_id"@).unwrap()),
            outfit_id: Outfit(spec_field_u64(fs, "outfit_id"@).unwrap()),
            timestamp: Timestamp(spec_field_u64(fs, "timestamp"@).unwrap()),
            world_id: spec_field_world(fs, "world_id"@).unwrap(),
            zone_id: spec_field_zone(fs, "zone_id"@).unwrap(),
        })
    } else {
        None
    }
}

/// Read a `PlayerFacilityEvent` out of a payload object.
pub fn parse_player_facility(fs: &Vec<JsonEntry>) -> (r: Option<PlayerFacilityEvent>)
    ensures
        r == spec_parse_player_facility(fs@),
{
    let character_id = match field_u64(fs, "character_id") { Some(v) => Character(v), None => { return None; } };
    let facility_id = match field_u32(fs, "facility_id") { Some(v) => Facility(v), None => { return None; } };
    let outfit_id = match field_u64(fs, "outfit_id") { Some(v) => Outfit(v), None => { return None; } };
    let timestamp = match field_u64(fs, "timestamp") { Some(v) => Timestamp(v), None => { return None; } };
    let world_id = match field_world(fs, "world_id") { Some(v) => v, None => { return None; } };
    let zone_id = match field_zone(fs, "zone_id") { Some(v) => v, None => { return None; } };
    Some(PlayerFacilityEvent { character_id, facility_id, outfit_id, timestamp, world_id, zone_id })
}

/// Experience gained by a character.
#[derive(Debug, Clone, Copy)]
pub struct ExperienceEvent {
    pub character_id: Character,
    pub other_id: Character,
    pub experience_id: Experience,
    pub amount: u32,
    pub loadout_id: Loadout,
    pub timestamp: Timestamp,
    pub world_id: World,
    pub zone_id: Zone,
}

/// What reading a `ExperienceEvent` out of a payload object yields: every field
/// present and coerced, else nothing.
pub open spec fn spec_parse_experience(fs: Seq<JsonEntry>) -> Option<ExperienceEvent> {
    if spec_field_u64(fs, "character_id"@) is Some
        && spec_field_u64(fs, "other_id"@) is Some
        && spec_field_u32(fs, "experience_id"@) is Some
        && spec_field_u32(fs, "amount"@) is Some
        && spec_field_u32(fs, "loadout_id"@) is Some
        && spec_field_u64(fs, "timestamp"@) is Some
        && spec_field_world(fs, "world_id"@) is Some
        && spec_field_zone(fs, "zone_id"@) is Some {
        Some(ExperienceEvent {
            character_id: Character(spec_field_u64(fs, "character_id"@).unwrap()),
            other_id: Character(spec_field_u64(fs, "other_id"@).unwrap()),
            experience_id: Experience(spec_field_u32(fs, "experience_id"@).unwrap()),
            amount: spec_field_u32(fs, "amount"@).unwrap(),
            loadout_id: Loadout(spec_field_u32(fs, "loadout_id"@).unwrap()),
            timestamp: Timestamp(spec_field_u64(fs, "timestamp"@).unwrap()),
            world_id: spec_field_world(fs, "world_id"@).unwrap(),
            zone_id: spec_field_zone(fs, "zone_id"@).unwrap(),
        })
    } else {
        None
    }
}

/// Read a `ExperienceEvent` out of a payload object.
pub fn parse_experience(fs: &Vec<JsonEntry>) -> (r: Option<ExperienceEvent>)
    ensures
        r == spec_parse_experience(fs@),
{
    let character_id = match field_u64(fs, "character_id") { Some(v) => Character(v), None => { return None; } };
    let other_id = match field_u64(fs, "other_id") { Some(v) => Character(v), None => { return None; } };
    let experience_id = match field_u32(fs, "experience_id") { Some(v) => Experience(v), None => { return None; } };
    let amount = match field_u32(fs, "amount") { Some(v) => v, None => { return None; } };
    let loadout_id = match field_u32(fs, "loadout_id") { Some(v) => Loadout(v), None => { return None; } };
    let timestamp = match field_u64(fs, "timestamp") { Some(v) => Timestamp(v), None => { return None; } };
    let world_id = match field_world(fs, "world_id") { Some(v) => v, None => { return None; } };
    let zone_id = match field_zone(fs, "zone_id") { Some(v) => v, None => { return None; } };
    Some(ExperienceEvent { character_id, other_id, experience_id, amount, loadout_id, timestamp, world_id, zone_id })
}

/// A character killed by another.
#[derive(Debug, Clone, Copy)]
pub struct DeathEvent {
    pub attacker_character_id: Character,
    pub attacker_fire_mode_id: FireMode,
    pub attacker_loadout_id: Loadout,
    pub attacker_vehicle_id: Vehicle,
    pub attacker_weapon_id: Weapon,
    pub character_id: Character,
    pub character_loadout_id: Loadout,
    pub is_headshot: bool,
    pub timestamp: Timestamp,
    pub world_id: World,
    pub zone_id: Zone,
}

/// What reading a `DeathEvent` out of a payload object yields: every field
/// present and coerced, else nothing.
pub open spec fn spec_parse_death(fs: Seq<JsonEntry>) -> Option<DeathEvent> {
    if spec_field_u64(fs, "attacker_character_id"@) is Some
        && spec_field_u32(fs, "attacker_fire_mode_id"@) is Some
        && spec_field_u32(fs, "attacker_loadout_id"@) is Some
        && spec_field_u32(fs, "attacker_vehicle_id"@) is Some
        && spec_field_u32(fs, "attacker_weapon_id"@) is Some
        && spec_field_u64(fs, "character_id"@) is Some
        && spec_field_u32(fs, "character_loadout_id"@) is Some
        && spec_field_bool(fs, "is_headshot"@) is Some
        && spec_field_u64(fs, "timestamp"@) is Some
        && spec_field_world(fs, "world_id"@) is Some
        && spec_field_zone(fs, "zone_id"@) is Some {
        Some(DeathEvent {
            attacker_character_id: Character(spec_field_u64(fs, "attacker_character_id"@).unwrap()),
            attacker_fire_mode_id: FireMode(spec_field_u32(fs, "attacker_fire_mode_id"@).unwrap()),
            attacker_loadout_id: Loadout(spec_field_u32(fs, "attacker_loadout_id"@).unwrap()),
            attacker_vehicle_id: Vehicle(spec_field_u32(fs, "attacker_vehicle_id"@).unwrap()),
            attacker_weapon_id: Weapon(spec_field_u32(fs, "attacker_weapon_id"@).unwrap()),
            character_id: Character(spec_field_u64(fs, "character_id"@).unwrap()),
            character_loadout_id: Loadout(spec_field_u32(fs, "character_loadout_id"@).unwrap()),
            is_headshot: spec_field_bool(fs, "is_headshot"@).unwrap(),
            timestamp: Timestamp(spec_field_u64(fs, "timestamp"@).unwrap()),
            world_id: spec_field_world(fs, "world_id"@).unwrap(),
            zone_id: spec_field_zone(fs, "zone_id"@).unwrap(),
        })
    } else {
        None
    }
}

/// Read a `DeathEvent` out of a payload object.
pub fn parse_death(fs: &Vec<JsonEntry>) -> (r: Option<DeathEvent>)
    ensures
        r == spec_parse_death(fs@),
{
    let attacker_character_id = match field_u64(fs, "attacker_character_id") { Some(v) => Character(v), None => { return None; } };
    let attacker_fire_mode_id = match field_u32(fs, "attacker_fire_mode_id") { Some(v) => FireMode(v), None => { return None; } };
    let attacker_loadout_id = match field_u32(fs, "attacker_loadout_id") { Some(v) => Loadout(v), None => { return None; } };
    let attacker_vehicle_id = match field_u32(fs, "attacker_vehicle_id") { Some(v) => Vehicle(v), None => { return None; } };
    let attacker_weapon_id = match field_u32(fs, "attacker_weapon_id") { Some(v) => Weapon(v), None => { return None; } };
    let character_id = match field_u64(fs, "character_id") { Some(v) => Character(v), None => { return None; } };
    let character_loadout_id = match field_u32(fs, "character_loadout_id") { Some(v) => Loadout(v), None => { return None; } };
    let is_headshot = match field_bool(fs, "is_headshot") { Some(v) => v, None => { return None; } };
    let timestamp = match field_u64(fs, "timestamp") { Some(v) => Timestamp(v), None => { return None; } };
    let world_id = match field_world(fs, "world_id") { Some(v) => v, None => { return None; } };
    let zone_id = match field_zone(fs, "zone_id") { Some(v) => v, None => { return None; } };
    Some(DeathEvent { attacker_character_id, attacker_fire_mode_id, attacker_loadout_id, attacker_vehicle_id, attacker_weapon_id, character_id, character_loadout_id, is_headshot, timestamp, world_id, zone_id })
}

/// A vehicle destroyed.
#[derive(Debug, Clone, Copy)]
pub struct VehicleDestroyEvent {
    pub attacker_character_id: Character,
    pub attacker_loadout_id: Loadout,
    pub attacker_vehicle_id: Vehicle,
    pub attacker_weapon_id: Weapon,
    pub character_id: Character,
    pub vehicle_id: Vehicle,
    pub facility_id: Facility,
    pub faction_id: Faction,
    pub timestamp: Timestamp,
    pub world_id: World,
    pub zone_id: Zone,
}

/// What reading a `VehicleDestroyEvent` out of a payload object yields: every field
/// present and coerced, else nothing.
pub open spec fn spec_parse_vehicle_destroy(fs: Seq<JsonEntry>) -> Option<VehicleDestroyEvent> {
    if spec_field_u64(fs, "attacker_character_id"@) is Some
        && spec_field_u32(fs, "attacker_loadout_id"@) is Some
        && spec_field_u32(fs, "attacker_vehicle_id"@) is Some
        && spec_field_u32(fs, "attacker_weapon_id"@) is Some
        && spec_field_u64(fs, "character_id"@) is Some
        && spec_field_u32(fs, "vehicle_id"@) is Some
        && spec_field_u32(fs, "facility_id"@) is Some
        && spec_field_faction(fs, "faction_id"@) is Some
        && spec_field_u64(fs, "timestamp"@) is Some
        && spec_field_world(fs, "world_id"@) is Some
        && spec_field_zone(fs, "zone_id"@) is Some {
        Some(VehicleDestroyEvent {
            attacker_character_id: Character(spec_field_u64(fs, "attacker_character_id"@).unwrap()),
            attacker_loadout_id: Loadout(spec_field_u32(fs, "attacker_loadout_id"@).unwrap()),
            attacker_vehicle_id: Vehicle(spec_field_u32(fs, "attacker_vehicle_id"@).unwrap()),
            attacker_weapon_id: Weapon(spec_field_u32(fs, "attacker_weapon_id"@).unwrap()),
            character_id: Character(spec_field_u64(fs, "character_id"@).unwrap()),
            vehicle_id: Vehicle(spec_field_u32(fs, "vehicle_id"@).unwrap()),
            facility_id: Facility(spec_field_u32(fs, "facility_id"@).unwrap()),
            faction_id: spec_field_faction(fs, "faction_id"@).unwrap(),
            timestamp: Timestamp(spec_field_u64(fs, "timestamp"@).unwrap()),
            world_id: spec_field_world(fs, "world_id"@).unwrap(),
            zone_id: spec_field_zone(fs, "zone_id"@).unwrap(),
        })
    } else {
        None
    }
}

/// Read a `VehicleDestroyEvent` out of a payload object.
pub fn parse_vehicle_destroy(fs: &Vec<JsonEntry>) -> (r: Option<VehicleDestroyEvent>)
    ensures
        r == spec_parse_vehicle_destroy(fs@),
{
    let attacker_character_id = match field_u64(fs, "attacker_character_id") { Some(v) => Character(v), None => { return None; } };
    let attacker_loadout_id = match field_u32(fs, "attacker_loadout_id") { Some(v) => Loadout(v), None => { return None; } };
    let attacker_vehicle_id = match field_u32(fs, "attacker_vehicle_id") { Some(v) => Vehicle(v), None => { return None; } };
    let attacker_weapon_id = match field_u32(fs, "attacker_weapon_id") { Some(v) => Weapon(v), None => { return None; } };
    let character_id = match field_u64(fs, "character_id") { Some(v) => Character(v), None => { return None; } };
    let vehicle_id = match field_u32(fs, "vehicle_id") { Some(v) => Vehicle(v), None => { return None; } };
    let facility_id = match field_u32(fs, "facility_id") { Some(v) => Facility(v), None => { return None; } };
    let faction_id = match field_faction(fs, "faction_id") { Some(v) => v, None => { return None; } };
    let timestamp = match field_u64(fs, "timestamp") { Some(v) => Timestamp(v), None => { return None; } };
    let world_id = match field_world(fs, "world_id") { Some(v) => v, None => { return None; } };
    let zone_id = match field_zone(fs, "zone_id") { Some(v) => v, None => { return None; } };
    Some(VehicleDestroyEvent { attacker_character_id, attacker_loadout_id, attacker_vehicle_id, attacker_weapon_id, character_id, vehicle_id, facility_id, faction_id, timestamp, world_id, zone_id })
}

/// One delivered event, tagged by its `event_name` field.
#[derive(Debug, Clone)]
pub enum EventPayload {
    AchievementEarned(AchievementEvent),
    BattleRankUp(BattleRankEvent),
    Death(DeathEvent),
    ItemAdded(ItemAddEvent),
    SkillAdded(SkillAddEvent),
    VehicleDestroy(VehicleDestroyEvent),
    GainExperience(ExperienceEvent),
    PlayerFacilityCapture(PlayerFacilityEvent),
    PlayerFacilityDefend(PlayerFacilityEvent),
    ContinentLock(ContinentEvent),
    ContinentUnlock(ContinentEvent),
    FacilityControl(FacilityControlEvent),
    MetagameEvent(MetagameEvent),
    PlayerLogin(PlayerLogEvent),
    PlayerLogout(PlayerLogEvent),
}

/// What reading a whole event payload object yields: the `event_name`
/// member picks the shape, and that shape's fields must all parse. An
/// absent or unknown name, or a missing field, yields nothing.
pub open spec fn spec_parse_payload(fs: Seq<JsonEntry>) -> Option<EventPayload> {
    match lookup_field(fs, "event_name"@) {
        Some(JsonNode::Text(s)) => {
        if s@ == "AchievementEarned"@ {
            match spec_parse_achievement(fs) {
                Some(e) => Some(EventPayload::AchievementEarned(e)),
                None => None,
            }
        } else if s@ == "BattleRankUp"@ {
            match spec_parse_battle_rank(fs) {
                Some(e) => Some(EventPayload::BattleRankUp(e)),
                None => None,
            }
        } else if s@ == "Death"@ {
            match spec_parse_death(fs) {
                Some(e) => Some(EventPayload::Death(e)),
                None => None,
            }
        } else if s@ == "ItemAdded"@ {
            match spec_parse_item_add(fs) {
                Some(e) => Some(EventPayload::ItemAdded(e)),
                None => None,
            }
        } else if s@ == "SkillAdded"@ {
            match spec_parse_skill_add(fs) {
                Some(e) => Some(EventPayload::SkillAdded(e)),
                None => None,
            }
        } else if s@ == "VehicleDestroy"@ {
            match spec_parse_vehicle_destroy(fs) {
                Some(e) => Some(EventPayload::VehicleDestroy(e)),
                None => None,
            }
        } else if s@ == "GainExperience"@ {
            match spec_parse_experience(fs) {
                Some(e) => Some(EventPayload::GainExperience(e)),
                None => None,
            }
        } else if s@ == "PlayerFacilityCapture"@ {
            match spec_parse_player_facility(fs) {
                Some(e) => Some(EventPayload::PlayerFacilityCapture(e)),
                None => None,
            }
        } else if s@ == "PlayerFacilityDefend"@ {
            match spec_parse_player_facility(fs) {
                Some(e) => Some(EventPayload::PlayerFacilityDefend(e)),
                None => None,
            }
        } else if s@ == "ContinentLock"@ {
            match spec_parse_continent(fs) {
                Some(e) => Some(EventPayload::ContinentLock(e)),
                None => None,
            }
        } else if s@ == "ContinentUnlock"@ {
            match spec_parse_continent(fs) {
                Some(e) => Some(EventPayload::ContinentUnlock(e)),
                None => None,
            }
        } else if s@ == "FacilityControl"@ {
            match spec_parse_facility_control(fs) {
                Some(e) => Some(EventPayload::FacilityControl(e)),
                None => None,
            }
        } else if s@ == "MetagameEvent"@ {
            match spec_parse_metagame(fs) {
                Some(e) => Some(EventPayload::MetagameEvent(e)),
                None => None,
            }
        } else if s@ == "PlayerLogin"@ {
            match spec_parse_player_log(fs) {
                Some(e) => Some(EventPayload::PlayerLogin(e)),
                None => None,
            }
        } else if s@ == "PlayerLogout"@ {
            match spec_parse_player_log(fs) {
                Some(e) => Some(EventPayload::PlayerLogout(e)),
                None => None,
            }
        } else {
            None
        }
        },
        _ => None,
    }
}

/// Read a whole event payload object.
pub fn parse_payload(fs: &Vec<JsonEntry>) -> (r: Option<EventPayload>)
    ensures
        r == spec_parse_payload(fs@),
{
    match get_field(fs, "event_name") {
        Some(JsonNode::Text(s)) => {
            if str_eq_str(s.as_str(), "AchievementEarned") {
                match parse_achievement(fs) {
                    Some(e) => Some(EventPayload::AchievementEarned(e)),
                    None => None,
                }
            } else if str_eq_str(s.as_str(), "BattleRankUp") {
                match parse_battle_rank(fs) {
                    Some(e) => Some(EventPayload::BattleRankUp(e)),
                    None => None,
                }
            } else if str_eq_str(s.as_str(), "Death") {
                match parse_death(fs) {
                    Some(e) => Some(EventPayload::Death(e)),
                    None => None,
                }
            } else if str_eq_str(s.as_str(), "ItemAdded") {
                match parse_item_add(fs) {
                    Some(e) => Some(EventPayload::ItemAdded(e)),
                    None => None,
                }
            } else if str_eq_str(s.as_str(), "SkillAdded") {
                match parse_skill_add(fs) {
                    Some(e) => Some(EventPayload::SkillAdded(e)),
                    None => None,
                }
            } else if str_eq_str(s.as_str(), "VehicleDestroy") {
                match parse_vehicle_destroy(fs) {
                    Some(e) => Some(EventPayload::VehicleDestroy(e)),
                    None => None,
                }
            } else if str_eq_str(s.as_str(), "GainExperience") {
                match parse_experience(fs) {
                    Some(e) => Some(EventPayload::GainExperience(e)),
                    None => None,
                }
            } else if str_eq_str(s.as_str(), "PlayerFacilityCapture") {
                match parse_player_facility(fs) {
                    Some(e) => Some(EventPayload::PlayerFacilityCapture(e)),
                    None => None,
                }
            } else if str_eq_str(s.as_str(), "PlayerFacilityDefend") {
                match parse_player_facility(fs) {
                    Some(e) => Some(EventPayload::PlayerFacilityDefend(e)),
                    None => None,
                }
            } else if str_eq_str(s.as_str(), "ContinentLock") {
                match parse_continent(fs) {
                    Some(e) => Some(EventPayload::ContinentLock(e)),
                    None => None,
                }
            } else if str_eq_str(s.as_str(), "ContinentUnlock") {
                match parse_continent(fs) {
                    Some(e) => Some(EventPayload::ContinentUnlock(e)),
                    None => None,
                }
            } else if str_eq_str(s.as_str(), "FacilityControl") {
                match parse_facility_control(fs) {
                    Some(e) => Some(EventPayload::FacilityControl(e)),
                    None => None,
                }
            } else if str_eq_str(s.as_str(), "MetagameEvent") {
                match parse_metagame(fs) {
                    Some(e) => Some(EventPayload::MetagameEvent(e)),
                    None => None,
                }
            } else if str_eq_str(s.as_str(), "PlayerLogin") {
                match parse_player_log(fs) {
                    Some(e) => Some(EventPayload::PlayerLogin(e)),
                    None => None,
                }
            } else if str_eq_str(s.as_str(), "PlayerLogout") {
                match parse_player_log(fs) {
                    Some(e) => Some(EventPayload::PlayerLogout(e)),
                    None => None,
                }
            } else {
                None
            }
        },
        _ => None,
    }
}

/// An `event_name` outside the known set never classifies: the payload is
/// dropped as a parse failure, not an error.
pub proof fn lemma_unknown_event_name_rejected(fs: Seq<JsonEntry>, s: String)
    requires
        lookup_field(fs, "event_name"@) == Some(JsonNode::Text(s)),
        EventType::spec_from_name(s@) is None,
    ensures
        spec_parse_payload(fs) is None,
{
}

} // verus!

