//! The memoizing lookup client: verified cache bookkeeping, exact request
//! URLs, and verified parsing of the lookup service's responses. The one
//! network step — fetching a URL the client hands out — belongs to the
//! caller; everything around it is verified.

use vstd::prelude::*;

use crate::character::{CharacterBattleRank, CharacterCerts, CharacterDailyRibbon, CharacterInfo,
    CharacterName, CharacterTimes};
use crate::data::{BattleRank, Character, Class, Faction, FireMode, Item, Loadout, LocaleText,
    Timestamp, Vehicle, Experience};
use crate::events::{field_faction, field_text, field_u32, field_u64, spec_field_faction,
    spec_field_text, spec_field_u32, spec_field_u64};
use crate::fire_mode::FireModeInfo;
use crate::json::{JsonEntry, JsonNode, get_field, json_doc, lookup_field, parse_json,
    string_eq_str};
use crate::loadout::ClassInfo;
use crate::text::{dec_repr, parse_u32_spec, parse_u32_text, u64_to_text};
use crate::vehicle::VehicleInfo;

use std::collections::HashMap;

verus! {

broadcast use vstd::std_specs::hash::group_hash_axioms;

/// Why a lookup failed. None of these is ever cached: a later retry of the
/// same key starts clean.
#[derive(PartialEq, Eq, Structural, Debug, Clone, Copy)]
pub enum LookupError {
    /// The request could not be sent or answered.
    Network,
    /// The response was not shaped as the service promises.
    MalformedResponse,
    /// The response was well shaped but its result list was empty.
    NotFound,
}

/// One step of a memoized lookup: either the cache already holds the
/// answer, or the caller must fetch this URL and hand the body back.
#[derive(Debug)]
pub enum LookupStep<T> {
    Hit(T),
    Fetch(String),
}

/// The value under `key` where a bare JSON number is required, read as a
/// `u32`.
pub open spec fn spec_field_num_u32(fs: Seq<JsonEntry>, key: Seq<char>) -> Option<u32> {
    match lookup_field(fs, key) {
        Some(JsonNode::Num(s)) => parse_u32_spec(s@),
        _ => None,
    }
}

fn field_num_u32(fs: &Vec<JsonEntry>, key: &str) -> (r: Option<u32>)
    ensures
        r == spec_field_num_u32(fs@, key@),
{
    match get_field(fs, key) {
        Some(JsonNode::Num(s)) => parse_u32_text(s.as_str()),
        _ => None,
    }
}

/// The value under `key` kept as the raw text it was sent as, whether the
/// service quoted it or not.
pub open spec fn spec_field_raw_text(fs: Seq<JsonEntry>, key: Seq<char>) -> Option<String> {
    match lookup_field(fs, key) {
        Some(JsonNode::Text(s)) => Some(s),
        Some(JsonNode::Num(s)) => Some(s),
        _ => None,
    }
}

fn field_raw_text(fs: &Vec<JsonEntry>, key: &str) -> (r: Option<String>)
    ensures
        r == spec_field_raw_text(fs@, key@),
{
    match get_field(fs, key) {
        Some(JsonNode::Text(s)) => Some(s.clone()),
        Some(JsonNode::Num(s)) => Some(s.clone()),
        _ => None,
    }
}

impl LocaleText {
    /// An owned copy, equal to the original.
    pub fn duplicate(&self) -> (r: LocaleText)
        ensures
            r == *self,
    {
        LocaleText {
            de: self.de.clone(),
            en: self.en.clone(),
            es: self.es.clone(),
            fr: self.fr.clone(),
            it: self.it.clone(),
            tr: self.tr.clone(),
        }
    }
}

impl VehicleInfo {
    /// An owned copy, equal to the original.
    pub fn duplicate(&self) -> (r: VehicleInfo)
        ensures
            r == *self,
    {
        VehicleInfo {
            vehicle_id: self.vehicle_id,
            name: self.name.duplicate(),
            description: self.description.duplicate(),
            type_id: self.type_id,
            type_label: self.type_label.clone(),
            cost_resource_id: self.cost_resource_id,
            image_set_id: self.image_set_id,
            image_id: self.image_id,
            image_path: self.image_path.clone(),
        }
    }
}

impl FireModeInfo {
    /// An owned copy, equal to the original.
    pub fn duplicate(&self) -> (r: FireModeInfo)
        ensures
            r == *self,
    {
        FireModeInfo {
            item_id: self.item_id,
            weapon_type: self.weapon_type.clone(),
            weapon_name: self.weapon_name.duplicate(),
            weapon_is_vehicle_weapon: self.weapon_is_vehicle_weapon,
        }
    }
}

/// What reading a locale-text object yields: all six languages present as
/// strings.
pub open spec fn spec_parse_locale(fs: Seq<JsonEntry>) -> Option<LocaleText> {
    if spec_field_text(fs, "de"@) is Some && spec_field_text(fs, "en"@) is Some && spec_field_text(
        fs,
        "es"@,
    ) is Some && spec_field_text(fs, "fr"@) is Some && spec_field_text(fs, "it"@) is Some
        && spec_field_text(fs, "tr"@) is Some {
        Some(LocaleText {
            de: spec_field_text(fs, "de"@).unwrap(),
            en: spec_field_text(fs, "en"@).unwrap(),
            es: spec_field_text(fs, "es"@).unwrap(),
            fr: spec_field_text(fs, "fr"@).unwrap(),
            it: spec_field_text(fs, "it"@).unwrap(),
            tr: spec_field_text(fs, "tr"@).unwrap(),
        })
    } else {
        None
    }
}

fn parse_locale(fs: &Vec<JsonEntry>) -> (r: Option<LocaleText>)
    ensures
        r == spec_parse_locale(fs@),
{
    let de = match field_text(fs, "de") { Some(v) => v, None => { return None; } };
    let en = match field_text(fs, "en") { Some(v) => v, None => { return None; } };
    let es = match field_text(fs, "es") { Some(v) => v, None => { return None; } };
    let fr = match field_text(fs, "fr") { Some(v) => v, None => { return None; } };
    let it = match field_text(fs, "it") { Some(v) => v, None => { return None; } };
    let tr = match field_text(fs, "tr") { Some(v) => v, None => { return None; } };
    Some(LocaleText { de, en, es, fr, it, tr })
}

/// The locale-text object under `key`.
pub open spec fn spec_field_locale(fs: Seq<JsonEntry>, key: Seq<char>) -> Option<LocaleText> {
    match lookup_field(fs, key) {
        Some(JsonNode::Object(lfs)) => spec_parse_locale(lfs@),
        _ => None,
    }
}

fn field_locale(fs: &Vec<JsonEntry>, key: &str) -> (r: Option<LocaleText>)
    ensures
        r == spec_field_locale(fs@, key@),
{
    match get_field(fs, key) {
        Some(JsonNode::Object(lfs)) => parse_locale(lfs),
        _ => None,
    }
}

/// The value under `key` where a decimal string is required, read as a
/// `u64`.
pub open spec fn spec_field_text_u64(fs: Seq<JsonEntry>, key: Seq<char>) -> Option<u64> {
    match lookup_field(fs, key) {
        Some(JsonNode::Text(s)) => crate::text::parse_u64_spec(s@),
        _ => None,
    }
}

fn field_text_u64(fs: &Vec<JsonEntry>, key: &str) -> (r: Option<u64>)
    ensures
        r == spec_field_text_u64(fs@, key@),
{
    match get_field(fs, key) {
        Some(JsonNode::Text(s)) => crate::text::parse_u64_text(s.as_str()),
        _ => None,
    }
}

/// The value under `key` where a decimal string is required, read as a
/// `u32`.
pub open spec fn spec_field_text_u32(fs: Seq<JsonEntry>, key: Seq<char>) -> Option<u32> {
    match lookup_field(fs, key) {
        Some(JsonNode::Text(s)) => parse_u32_spec(s@),
        _ => None,
    }
}

fn field_text_u32(fs: &Vec<JsonEntry>, key: &str) -> (r: Option<u32>)
    ensures
        r == spec_field_text_u32(fs@, key@),
{
    match get_field(fs, key) {
        Some(JsonNode::Text(s)) => parse_u32_text(s.as_str()),
        _ => None,
    }
}

/// What reading a vehicle record yields: every member present and coerced.
pub open spec fn spec_parse_vehicle_record(fs: Seq<JsonEntry>) -> Option<VehicleInfo> {
    if spec_field_u32(fs, "vehicle_id"@) is Some
        && spec_field_locale(fs, "name"@) is Some
        && spec_field_locale(fs, "description"@) is Some
        && spec_field_u32(fs, "type_id"@) is Some
        && spec_field_text(fs, "type_name"@) is Some
        && spec_field_u32(fs, "cost_resource_id"@) is Some
        && spec_field_u32(fs, "image_set_id"@) is Some
        && spec_field_u32(fs, "image_id"@) is Some
        && spec_field_text(fs, "image_path"@) is Some {
        Some(VehicleInfo {
            vehicle_id: Vehicle(spec_field_u32(fs, "vehicle_id"@).unwrap()),
            name: spec_field_locale(fs, "name"@).unwrap(),
            description: spec_field_locale(fs, "description"@).unwrap(),
            type_id: spec_field_u32(fs, "type_id"@).unwrap(),
            type_label: spec_field_text(fs, "type_name"@).unwrap(),
            cost_resource_id: spec_field_u32(fs, "cost_resource_id"@).unwrap(),
            image_set_id: spec_field_u32(fs, "image_set_id"@).unwrap(),
            image_id: spec_field_u32(fs, "image_id"@).unwrap(),
            image_path: spec_field_text(fs, "image_path"@).unwrap(),
        })
    } else {
        None
    }
}

fn parse_vehicle_record(fs: &Vec<JsonEntry>) -> (r: Option<VehicleInfo>)
    ensures
        r == spec_parse_vehicle_record(fs@),
{
    let vehicle_id = match field_u32(fs, "vehicle_id") { Some(v) => Vehicle(v), None => { return None; } };
    let name = match field_locale(fs, "name") { Some(v) => v, None => { return None; } };
    let description = match field_locale(fs, "description") { Some(v) => v, None => { return None; } };
    let type_id = match field_u32(fs, "type_id") { Some(v) => v, None => { return None; } };
    let type_label = match field_text(fs, "type_name") { Some(v) => v, None => { return None; } };
    let cost_resource_id = match field_u32(fs, "cost_resource_id") { Some(v) => v, None => { return None; } };
    let image_set_id = match field_u32(fs, "image_set_id") { Some(v) => v, None => { return None; } };
    let image_id = match field_u32(fs, "image_id") { Some(v) => v, None => { return None; } };
    let image_path = match field_text(fs, "image_path") { Some(v) => v, None => { return None; } };
    Some(VehicleInfo { vehicle_id, name, description, type_id, type_label, cost_resource_id, image_set_id, image_id, image_path })
}

/// What reading a character's name record yields: every member present and coerced.
pub open spec fn spec_parse_character_name_rec(fs: Seq<JsonEntry>) -> Option<CharacterName> {
    if spec_field_text(fs, "first"@) is Some
        && spec_field_text(fs, "first_lower"@) is Some {
        Some(CharacterName {
            first: spec_field_text(fs, "first"@).unwrap(),
            first_lower: spec_field_text(fs, "first_lower"@).unwrap(),
        })
    } else {
        None
    }
}

fn parse_character_name_rec(fs: &Vec<JsonEntry>) -> (r: Option<CharacterName>)
    ensures
        r == spec_parse_character_name_rec(fs@),
{
    let first = match field_text(fs, "first") { Some(v) => v, None => { return None; } };
    let first_lower = match field_text(fs, "first_lower") { Some(v) => v, None => { return None; } };
    Some(CharacterName { first, first_lower })
}

/// What reading a character's times record yields: every member present and coerced.
pub open spec fn spec_parse_character_times(fs: Seq<JsonEntry>) -> Option<CharacterTimes> {
    if spec_field_u64(fs, "creation"@) is Some
        && spec_field_text(fs, "creation_date"@) is Some
        && spec_field_u64(fs, "last_save"@) is Some
        && spec_field_text(fs, "last_save_date"@) is Some
        && spec_field_u64(fs, "last_login"@) is Some
        && spec_field_text(fs, "last_login_date"@) is Some
        && spec_field_u32(fs, "login_count"@) is Some
        && spec_field_u32(fs, "minutes_played"@) is Some {
        Some(CharacterTimes {
            creation: Timestamp(spec_field_u64(fs, "creation"@).unwrap()),
            creation_date: spec_field_text(fs, "creation_date"@).unwrap(),
            last_save: Timestamp(spec_field_u64(fs, "last_save"@).unwrap()),
            last_save_date: spec_field_text(fs, "last_save_date"@).unwrap(),
            last_login: Timestamp(spec_field_u64(fs, "last_login"@).unwrap()),
            last_login_date: spec_field_text(fs, "last_login_date"@).unwrap(),
            login_count: spec_field_u32(fs, "login_count"@).unwrap(),
            minutes_played: spec_field_u32(fs, "minutes_played"@).unwrap(),
        })
    } else {
        None
    }
}

fn parse_character_times(fs: &Vec<JsonEntry>) -> (r: Option<CharacterTimes>)
    ensures
        r == spec_parse_character_times(fs@),
{
    let creation = match field_u64(fs, "creation") { Some(v) => Timestamp(v), None => { return None; } };
    let creation_date = match field_text(fs, "creation_date") { Some(v) => v, None => { return None; } };
    let last_save = match field_u64(fs, "last_save") { Some(v) => Timestamp(v), None => { return None; } };
    let last_save_date = match field_text(fs, "last_save_date") { Some(v) => v, None => { return None; } };
    let last_login = match field_u64(fs, "last_login") { Some(v) => Timestamp(v), None => { return None; } };
    let last_login_date = match field_text(fs, "last_login_date") { Some(v) => v, None => { return None; } };
    let login_count = match field_u32(fs, "login_count") { Some(v) => v, None => { return None; } };
    let minutes_played = match field_u32(fs, "minutes_played") { Some(v) => v, None => { return None; } };
    Some(CharacterTimes { creation, creation_date, last_save, last_save_date, last_login, last_login_date, login_count, minutes_played })
}

/// What reading a character's certification record yields: every member present and coerced.
pub open spec fn spec_parse_character_certs(fs: Seq<JsonEntry>) -> Option<CharacterCerts> {
    if spec_field_u32(fs, "earned_points"@) is Some
        && spec_field_u32(fs, "gifted_points"@) is Some
        && spec_field_u32(fs, "spent_points"@) is Some
        && spec_field_u32(fs, "available_points"@) is Some
        && spec_field_raw_text(fs, "percent_to_next"@) is Some {
        Some(CharacterCerts {
            earned_points: spec_field_u32(fs, "earned_points"@).unwrap(),
            gifted_points: spec_field_u32(fs, "gifted_points"@).unwrap(),
            spent_points: spec_field_u32(fs, "spent_points"@).unwrap(),
            available_points: spec_field_u32(fs, "available_points"@).unwrap(),
            percent_to_next: spec_field_raw_text(fs, "percent_to_next"@).unwrap(),
        })
    } else {
        None
    }
}

fn parse_character_certs(fs: &Vec<JsonEntry>) -> (r: Option<CharacterCerts>)
    ensures
        r == spec_parse_character_certs(fs@),
{
    let earned_points = match field_u32(fs, "earned_points") { Some(v) => v, None => { return None; } };
    let gifted_points = match field_u32(fs, "gifted_points") { Some(v) => v, None => { return None; } };
    let spent_points = match field_u32(fs, "spent_points") { Some(v) => v, None => { return None; } };
    let available_points = match field_u32(fs, "available_points") { Some(v) => v, None => { return None; } };
    let percent_to_next = match field_raw_text(fs, "percent_to_next") { Some(v) => v, None => { return None; } };
    Some(CharacterCerts { earned_points, gifted_points, spent_points, available_points, percent_to_next })
}

/// What reading a character's battle-rank record yields: every member present and coerced.
pub open spec fn spec_parse_character_battle_rank(fs: Seq<JsonEntry>) -> Option<CharacterBattleRank> {
    if spec_field_u32(fs, "percent_to_next"@) is Some
        && spec_field_u32(fs, "value"@) is Some {
        Some(CharacterBattleRank {
            percent_to_next: spec_field_u32(fs, "percent_to_next"@).unwrap(),
            value: BattleRank(spec_field_u32(fs, "value"@).unwrap()),
        })
    } else {
        None
    }
}

fn parse_character_battle_rank(fs: &Vec<JsonEntry>) -> (r: Option<CharacterBattleRank>)
    ensures
        r == spec_parse_character_battle_rank(fs@),
{
    let percent_to_next = match field_u32(fs, "percent_to_next") { Some(v) => v, None => { return None; } };
    let value = match field_u32(fs, "value") { Some(v) => BattleRank(v), None => { return None; } };
    Some(CharacterBattleRank { percent_to_next, value })
}

/// What reading a character's daily-ribbon record yields: every member present and coerced.
pub open spec fn spec_parse_daily_ribbon(fs: Seq<JsonEntry>) -> Option<CharacterDailyRibbon> {
    if spec_field_u32(fs, "count"@) is Some
        && spec_field_u64(fs, "time"@) is Some
        && spec_field_text(fs, "date"@) is Some {
        Some(CharacterDailyRibbon {
            count: spec_field_u32(fs, "count"@).unwrap(),
            time: Timestamp(spec_field_u64(fs, "time"@).unwrap()),
            date: spec_field_text(fs, "date"@).unwrap(),
        })
    } else {
        None
    }
}

fn parse_daily_ribbon(fs: &Vec<JsonEntry>) -> (r: Option<CharacterDailyRibbon>)
    ensures
        r == spec_parse_daily_ribbon(fs@),
{
    let count = match field_u32(fs, "count") { Some(v) => v, None => { return None; } };
    let time = match field_u64(fs, "time") { Some(v) => Timestamp(v), None => { return None; } };
    let date = match field_text(fs, "date") { Some(v) => v, None => { return None; } };
    Some(CharacterDailyRibbon { count, time, date })
}

/// The object under `key`, read with the given nested record reader.
pub open spec fn spec_field_name_rec(fs: Seq<JsonEntry>, key: Seq<char>) -> Option<CharacterName> {
    match lookup_field(fs, key) {
        Some(JsonNode::Object(nfs)) => spec_parse_character_name_rec(nfs@),
        _ => None,
    }
}

/// What reading a whole character record yields.
pub open spec fn spec_parse_character_record(fs: Seq<JsonEntry>) -> Option<CharacterInfo> {
    let name = spec_field_name_rec(fs, "name"@);
    let times = match lookup_field(fs, "times"@) {
        Some(JsonNode::Object(nfs)) => spec_parse_character_times(nfs@),
        _ => None,
    };
    let certs = match lookup_field(fs, "certs"@) {
        Some(JsonNode::Object(nfs)) => spec_parse_character_certs(nfs@),
        _ => None,
    };
    let battle_rank = match lookup_field(fs, "battle_rank"@) {
        Some(JsonNode::Object(nfs)) => spec_parse_character_battle_rank(nfs@),
        _ => None,
    };
    let daily_ribbon = match lookup_field(fs, "daily_ribbon"@) {
        Some(JsonNode::Object(nfs)) => spec_parse_daily_ribbon(nfs@),
        _ => None,
    };
    if spec_field_u64(fs, "character_id"@) is Some && name is Some && spec_field_faction(
        fs,
        "faction_id"@,
    ) is Some && spec_field_u32(fs, "head_id"@) is Some && spec_field_u32(fs, "title_id"@) is Some
        && times is Some && certs is Some && battle_rank is Some && spec_field_u32(
        fs,
        "profile_id"@,
    ) is Some && daily_ribbon is Some && spec_field_u32(fs, "prestige_level"@) is Some {
        Some(CharacterInfo {
            character_id: Character(spec_field_u64(fs, "character_id"@).unwrap()),
            name: name.unwrap(),
            faction_id: spec_field_faction(fs, "faction_id"@).unwrap(),
            head_id: spec_field_u32(fs, "head_id"@).unwrap(),
            title_id: spec_field_u32(fs, "title_id"@).unwrap(),
            times: times.unwrap(),
            certs: certs.unwrap(),
            battle_rank: battle_rank.unwrap(),
            profile_id: spec_field_u32(fs, "profile_id"@).unwrap(),
            daily_ribbon: daily_ribbon.unwrap(),
            prestige_level: spec_field_u32(fs, "prestige_level"@).unwrap(),
        })
    } else {
        None
    }
}

fn parse_character_record(fs: &Vec<JsonEntry>) -> (r: Option<CharacterInfo>)
    ensures
        r == spec_parse_character_record(fs@),
{
    let character_id = match field_u64(fs, "character_id") {
        Some(v) => Character(v),
        None => { return None; },
    };
    let name = match get_field(fs, "name") {
        Some(JsonNode::Object(nfs)) => match parse_character_name_rec(nfs) {
            Some(v) => v,
            None => { return None; },
        },
        _ => { return None; },
    };
    let faction_id = match field_faction(fs, "faction_id") {
        Some(v) => v,
        None => { return None; },
    };
    let head_id = match field_u32(fs, "head_id") { Some(v) => v, None => { return None; } };
    let title_id = match field_u32(fs, "title_id") { Some(v) => v, None => { return None; } };
    let times = match get_field(fs, "times") {
        Some(JsonNode::Object(nfs)) => match parse_character_times(nfs) {
            Some(v) => v,
            None => { return None; },
        },
        _ => { return None; },
    };
    let certs = match get_field(fs, "certs") {
        Some(JsonNode::Object(nfs)) => match parse_character_certs(nfs) {
            Some(v) => v,
            None => { return None; },
        },
        _ => { return None; },
    };
    let battle_rank = match get_field(fs, "battle_rank") {
        Some(JsonNode::Object(nfs)) => match parse_character_battle_rank(nfs) {
            Some(v) => v,
            None => { return None; },
        },
        _ => { return None; },
    };
    let profile_id = match field_u32(fs, "profile_id") { Some(v) => v, None => { return None; } };
    let daily_ribbon = match get_field(fs, "daily_ribbon") {
        Some(JsonNode::Object(nfs)) => match parse_daily_ribbon(nfs) {
            Some(v) => v,
            None => { return None; },
        },
        _ => { return None; },
    };
    let prestige_level = match field_u32(fs, "prestige_level") {
        Some(v) => v,
        None => { return None; },
    };
    Some(CharacterInfo {
        character_id,
        name,
        faction_id,
        head_id,
        title_id,
        times,
        certs,
        battle_rank,
        profile_id,
        daily_ribbon,
        prestige_level,
    })
}

/// What reading a fire-mode record yields: the weapon fields live partly on
/// the record and partly on the joined `item_info` object.
pub open spec fn spec_parse_fire_mode_record(fs: Seq<JsonEntry>) -> Option<FireModeInfo> {
    let info = match lookup_field(fs, "item_info"@) {
        Some(JsonNode::Object(nfs)) => Some(nfs@),
        _ => None,
    };
    if spec_field_text_u32(fs, "item_id"@) is Some && spec_field_text(fs, "type"@) is Some
        && info is Some && spec_field_locale(info.unwrap(), "name"@) is Some && spec_field_text(
        info.unwrap(),
        "is_vehicle_weapon"@,
    ) is Some {
        Some(FireModeInfo {
            item_id: Item(spec_field_text_u32(fs, "item_id"@).unwrap()),
            weapon_type: spec_field_text(fs, "type"@).unwrap(),
            weapon_name: spec_field_locale(info.unwrap(), "name"@).unwrap(),
            weapon_is_vehicle_weapon: spec_field_text(
                info.unwrap(),
                "is_vehicle_weapon"@,
            ).unwrap()@ != "0"@,
        })
    } else {
        None
    }
}

fn parse_fire_mode_record(fs: &Vec<JsonEntry>) -> (r: Option<FireModeInfo>)
    ensures
        r == spec_parse_fire_mode_record(fs@),
{
    let item_id = match field_text_u32(fs, "item_id") {
        Some(v) => Item(v),
        None => { return None; },
    };
    let weapon_type = match field_text(fs, "type") { Some(v) => v, None => { return None; } };
    match get_field(fs, "item_info") {
        Some(JsonNode::Object(nfs)) => {
            let weapon_name = match field_locale(nfs, "name") {
                Some(v) => v,
                None => { return None; },
            };
            let flag = match field_text(nfs, "is_vehicle_weapon") {
                Some(v) => v,
                None => { return None; },
            };
            let weapon_is_vehicle_weapon = !string_eq_str(&flag, "0");
            Some(FireModeInfo { item_id, weapon_type, weapon_name, weapon_is_vehicle_weapon })
        },
        _ => None,
    }
}

/// What reading a loadout record yields: the class sits on a joined object.
pub open spec fn spec_parse_loadout_record(fs: Seq<JsonEntry>, id: Loadout) -> Option<ClassInfo> {
    let cls = match lookup_field(fs, "class"@) {
        Some(JsonNode::Object(nfs)) => match spec_field_text_u32(nfs@, "profile_type_id"@) {
            Some(c) => Class::spec_from_code(c),
            None => None,
        },
        _ => None,
    };
    match (spec_field_text_u32(fs, "faction_id"@), cls) {
        (Some(f), Some(c)) => match Faction::spec_from_code(f) {
            Some(fac) => Some(ClassInfo { loadout_id: id, faction_id: fac, class: c }),
            None => None,
        },
        _ => None,
    }
}

fn parse_loadout_record(fs: &Vec<JsonEntry>, id: Loadout) -> (r: Option<ClassInfo>)
    ensures
        r == spec_parse_loadout_record(fs@, id),
{
    let faction_code = match field_text_u32(fs, "faction_id") {
        Some(v) => v,
        None => { return None; },
    };
    let class = match get_field(fs, "class") {
        Some(JsonNode::Object(nfs)) => match field_text_u32(nfs, "profile_type_id") {
            Some(c) => match Class::from_code(c) {
                Some(cl) => cl,
                None => { return None; },
            },
            None => { return None; },
        },
        _ => { return None; },
    };
    match Faction::from_code(faction_code) {
        Some(faction_id) => Some(ClassInfo { loadout_id: id, faction_id, class }),
        None => None,
    }
}

/// What a vehicle lookup response yields: one JSON object holding `vehicle_list` and a
/// `returned` count; the first listed record is the result, an empty list
/// is a miss, anything malformed is an error.
pub open spec fn spec_vehicle_response(b: Seq<u8>) -> Result<VehicleInfo, LookupError> {
    match json_doc(b) {
        Some(JsonNode::Object(fs)) => match (lookup_field(fs@, "vehicle_list"@), spec_field_num_u32(
            fs@,
            "returned"@,
        )) {
            (Some(JsonNode::List(xs)), Some(_)) => if xs@.len() == 0 {
                Err(LookupError::NotFound)
            } else {
                match xs@[0] {
                    JsonNode::Object(rfs) => match spec_parse_vehicle_record(rfs@) {
                        Some(v) => Ok(v),
                        None => Err(LookupError::MalformedResponse),
                    },
                    _ => Err(LookupError::MalformedResponse),
                }
            },
            _ => Err(LookupError::MalformedResponse),
        },
        _ => Err(LookupError::MalformedResponse),
    }
}

/// Read a vehicle lookup response.
pub fn parse_vehicle_response(body: &[u8]) -> (r: Result<VehicleInfo, LookupError>)
    ensures
        r == spec_vehicle_response(body@),
{
    match parse_json(body) {
        Some(JsonNode::Object(fs)) => {
            match field_num_u32(&fs, "returned") {
                Some(_) => {},
                None => {
                    return Err(LookupError::MalformedResponse);
                },
            }
            match get_field(&fs, "vehicle_list") {
                Some(JsonNode::List(xs)) => {
                    if xs.len() == 0 {
                        Err(LookupError::NotFound)
                    } else {
                        match &xs[0] {
                            JsonNode::Object(rfs) => match parse_vehicle_record(rfs) {
                                Some(v) => Ok(v),
                                None => Err(LookupError::MalformedResponse),
                            },
                            _ => Err(LookupError::MalformedResponse),
                        }
                    }
                },
                _ => Err(LookupError::MalformedResponse),
            }
        },
        _ => Err(LookupError::MalformedResponse),
    }
}

/// What a fire-mode lookup response yields: one JSON object holding `fire_mode_list` and a
/// `returned` count; the first listed record is the result, an empty list
/// is a miss, anything malformed is an error.
pub open spec fn spec_fire_mode_response(b: Seq<u8>) -> Result<FireModeInfo, LookupError> {
    match json_doc(b) {
        Some(JsonNode::Object(fs)) => match (lookup_field(fs@, "fire_mode_list"@), spec_field_num_u32(
            fs@,
            "returned"@,
        )) {
            (Some(JsonNode::List(xs)), Some(_)) => if xs@.len() == 0 {
                Err(LookupError::NotFound)
            } else {
                match xs@[0] {
                    JsonNode::Object(rfs) => match spec_parse_fire_mode_record(rfs@) {
                        Some(v) => Ok(v),
                        None => Err(LookupError::MalformedResponse),
                    },
                    _ => Err(LookupError::MalformedResponse),
                }
            },
            _ => Err(LookupError::MalformedResponse),
        },
        _ => Err(LookupError::MalformedResponse),
    }
}

/// Read a fire-mode lookup response.
pub fn parse_fire_mode_response(body: &[u8]) -> (r: Result<FireModeInfo, LookupError>)
    ensures
        r == spec_fire_mode_response(body@),
{
    match parse_json(body) {
        Some(JsonNode::Object(fs)) => {
            match field_num_u32(&fs, "returned") {
                Some(_) => {},
                None => {
                    return Err(LookupError::MalformedResponse);
                },
            }
            match get_field(&fs, "fire_mode_list") {
                Some(JsonNode::List(xs)) => {
                    if xs.len() == 0 {
                        Err(LookupError::NotFound)
                    } else {
                        match &xs[0] {
                            JsonNode::Object(rfs) => match parse_fire_mode_record(rfs) {
                                Some(v) => Ok(v),
                                None => Err(LookupError::MalformedResponse),
                            },
                            _ => Err(LookupError::MalformedResponse),
                        }
                    }
                },
                _ => Err(LookupError::MalformedResponse),
            }
        },
        _ => Err(LookupError::MalformedResponse),
    }
}

/// What a character lookup response yields: one JSON object holding `character_list` and a
/// `returned` count; the first listed record is the result, an empty list
/// is a miss, anything malformed is an error.
pub open spec fn spec_character_info_response(b: Seq<u8>) -> Result<CharacterInfo, LookupError> {
    match json_doc(b) {
        Some(JsonNode::Object(fs)) => match (lookup_field(fs@, "character_list"@), spec_field_num_u32(
            fs@,
            "returned"@,
        )) {
            (Some(JsonNode::List(xs)), Some(_)) => if xs@.len() == 0 {
                Err(LookupError::NotFound)
            } else {
                match xs@[0] {
                    JsonNode::Object(rfs) => match spec_parse_character_record(rfs@) {
                        Some(v) => Ok(v),
                        None => Err(LookupError::MalformedResponse),
                    },
                    _ => Err(LookupError::MalformedResponse),
                }
            },
            _ => Err(LookupError::MalformedResponse),
        },
        _ => Err(LookupError::MalformedResponse),
    }
}

/// Read a character lookup response.
pub fn parse_character_info_response(body: &[u8]) -> (r: Result<CharacterInfo, LookupError>)
    ensures
        r == spec_character_info_response(body@),
{
    match parse_json(body) {
        Some(JsonNode::Object(fs)) => {
            match field_num_u32(&fs, "returned") {
                Some(_) => {},
                None => {
                    return Err(LookupError::MalformedResponse);
                },
            }
            match get_field(&fs, "character_list") {
                Some(JsonNode::List(xs)) => {
                    if xs.len() == 0 {
                        Err(LookupError::NotFound)
                    } else {
                        match &xs[0] {
                            JsonNode::Object(rfs) => match parse_character_record(rfs) {
                                Some(v) => Ok(v),
                                None => Err(LookupError::MalformedResponse),
                            },
                            _ => Err(LookupError::MalformedResponse),
                        }
                    }
                },
                _ => Err(LookupError::MalformedResponse),
            }
        },
        _ => Err(LookupError::MalformedResponse),
    }
}

/// What an experience lookup response yields: the record's `description`
/// is the experience's name.
pub open spec fn spec_experience_response(b: Seq<u8>) -> Result<String, LookupError> {
    match json_doc(b) {
        Some(JsonNode::Object(fs)) => match (lookup_field(fs@, "experience_list"@),
        spec_field_num_u32(fs@, "returned"@)) {
            (Some(JsonNode::List(xs)), Some(_)) => if xs@.len() == 0 {
                Err(LookupError::NotFound)
            } else {
                match xs@[0] {
                    JsonNode::Object(rfs) => match spec_field_text(rfs@, "description"@) {
                        Some(s) => Ok(s),
                        None => Err(LookupError::MalformedResponse),
                    },
                    _ => Err(LookupError::MalformedResponse),
                }
            },
            _ => Err(LookupError::MalformedResponse),
        },
        _ => Err(LookupError::MalformedResponse),
    }
}

/// Read an experience lookup response.
pub fn parse_experience_response(body: &[u8]) -> (r: Result<String, LookupError>)
    ensures
        r == spec_experience_response(body@),
{
    match parse_json(body) {
        Some(JsonNode::Object(fs)) => {
            match field_num_u32(&fs, "returned") {
                Some(_) => {},
                None => {
                    return Err(LookupError::MalformedResponse);
                },
            }
            match get_field(&fs, "experience_list") {
                Some(JsonNode::List(xs)) => {
                    if xs.len() == 0 {
                        Err(LookupError::NotFound)
                    } else {
                        match &xs[0] {
                            JsonNode::Object(rfs) => match field_text(rfs, "description") {
                                Some(s) => Ok(s),
                                None => Err(LookupError::MalformedResponse),
                            },
                            _ => Err(LookupError::MalformedResponse),
                        }
                    }
                },
                _ => Err(LookupError::MalformedResponse),
            }
        },
        _ => Err(LookupError::MalformedResponse),
    }
}

/// What a loadout lookup response yields, for the asked-for loadout id.
pub open spec fn spec_loadout_response(b: Seq<u8>, id: Loadout) -> Result<ClassInfo, LookupError> {
    match json_doc(b) {
        Some(JsonNode::Object(fs)) => match (lookup_field(fs@, "loadout_list"@),
        spec_field_num_u32(fs@, "returned"@)) {
            (Some(JsonNode::List(xs)), Some(_)) => if xs@.len() == 0 {
                Err(LookupError::NotFound)
            } else {
                match xs@[0] {
                    JsonNode::Object(rfs) => match spec_parse_loadout_record(rfs@, id) {
                        Some(v) => Ok(v),
                        None => Err(LookupError::MalformedResponse),
                    },
                    _ => Err(LookupError::MalformedResponse),
                }
            },
            _ => Err(LookupError::MalformedResponse),
        },
        _ => Err(LookupError::MalformedResponse),
    }
}

/// Read a loadout lookup response.
pub fn parse_loadout_response(body: &[u8], id: Loadout) -> (r: Result<ClassInfo, LookupError>)
    ensures
        r == spec_loadout_response(body@, id),
{
    match parse_json(body) {
        Some(JsonNode::Object(fs)) => {
            match field_num_u32(&fs, "returned") {
                Some(_) => {},
                None => {
                    return Err(LookupError::MalformedResponse);
                },
            }
            match get_field(&fs, "loadout_list") {
                Some(JsonNode::List(xs)) => {
                    if xs.len() == 0 {
                        Err(LookupError::NotFound)
                    } else {
                        match &xs[0] {
                            JsonNode::Object(rfs) => match parse_loadout_record(rfs, id) {
                                Some(v) => Ok(v),
                                None => Err(LookupError::MalformedResponse),
                            },
                            _ => Err(LookupError::MalformedResponse),
                        }
                    }
                },
                _ => Err(LookupError::MalformedResponse),
            }
        },
        _ => Err(LookupError::MalformedResponse),
    }
}

/// What a character-name lookup response yields: the first record's
/// `character_id` as a decimal string.
pub open spec fn spec_character_name_response(b: Seq<u8>) -> Result<Character, LookupError> {
    match json_doc(b) {
        Some(JsonNode::Object(fs)) => match (lookup_field(fs@, "character_name_list"@),
        spec_field_num_u32(fs@, "returned"@)) {
            (Some(JsonNode::List(xs)), Some(_)) => if xs@.len() == 0 {
                Err(LookupError::NotFound)
            } else {
                match xs@[0] {
                    JsonNode::Object(rfs) => match spec_field_text_u64(rfs@, "character_id"@) {
                        Some(v) => Ok(Character(v)),
                        None => Err(LookupError::MalformedResponse),
                    },
                    _ => Err(LookupError::MalformedResponse),
                }
            },
            _ => Err(LookupError::MalformedResponse),
        },
        _ => Err(LookupError::MalformedResponse),
    }
}

/// Read a character-name lookup response.
pub fn parse_character_name_response(body: &[u8]) -> (r: Result<Character, LookupError>)
    ensures
        r == spec_character_name_response(body@),
{
    match parse_json(body) {
        Some(JsonNode::Object(fs)) => {
            match field_num_u32(&fs, "returned") {
                Some(_) => {},
                None => {
                    return Err(LookupError::MalformedResponse);
                },
            }
            match get_field(&fs, "character_name_list") {
                Some(JsonNode::List(xs)) => {
                    if xs.len() == 0 {
                        Err(LookupError::NotFound)
                    } else {
                        match &xs[0] {
                            JsonNode::Object(rfs) => match field_text_u64(rfs, "character_id") {
                                Some(v) => Ok(Character(v)),
                                None => Err(LookupError::MalformedResponse),
                            },
                            _ => Err(LookupError::MalformedResponse),
                        }
                    }
                },
                _ => Err(LookupError::MalformedResponse),
            }
        },
        _ => Err(LookupError::MalformedResponse),
    }
}

/// One cached binding from a lower-cased character name to its id.
#[derive(Debug, Clone)]
pub struct NameEntry {
    pub name: String,
    pub id: Character,
}

/// The id bound to `key` among the cached names, first match.
pub open spec fn spec_name_lookup(es: Seq<NameEntry>, key: Seq<char>) -> Option<Character>
    decreases es.len(),
{
    if es.len() == 0 {
        None
    } else if es[0].name@ == key {
        Some(es[0].id)
    } else {
        spec_name_lookup(es.drop_first(), key)
    }
}

/// What `str::to_lowercase` yields: a function of the characters alone.
pub uninterp spec fn lower_of(s: Seq<char>) -> Seq<char>;

/// Relies on `str::to_lowercase`: the result depends on the characters
/// alone, so repeated calls on equal text agree.
#[verifier::external_body]
fn lowercase(s: &str) -> (r: String)
    ensures
        r@ == lower_of(s@),
{
    s.to_lowercase()
}

/// The base URL every lookup request starts from, for a service id.
pub open spec fn spec_census_base(sid: Seq<char>) -> Seq<char> {
    "http://census.daybreakgames.com/s:"@ + sid + "/json/get/ps2:v2/"@
}

/// The memoizing lookup client: the per-kind caches and the base URL. Once
/// a key is present it is never invalidated or evicted; recreate the client
/// to clear it. Failed lookups are never cached.
pub struct CensusClient {
    pub base_url: String,
    pub vehicle_cache: HashMap<u32, VehicleInfo>,
    pub experience_cache: HashMap<u32, String>,
    pub loadout_cache: HashMap<u32, ClassInfo>,
    /// a cache for mapping lower-cased character names to ids
    pub character_cache: Vec<NameEntry>,
    pub fire_mode_cache: HashMap<u32, FireModeInfo>,
}

impl CensusClient {
    /// A fresh client for a service id: the exact base URL, every cache
    /// empty.
    pub fn new(service_id: String) -> (r: CensusClient)
        ensures
            r.base_url@ == spec_census_base(service_id@),
            r.vehicle_cache@ == Map::<u32, VehicleInfo>::empty(),
            r.experience_cache@ == Map::<u32, String>::empty(),
            r.loadout_cache@ == Map::<u32, ClassInfo>::empty(),
            r.character_cache@ == Seq::<NameEntry>::empty(),
            r.fire_mode_cache@ == Map::<u32, FireModeInfo>::empty(),
    {
        let mut base_url = String::new();
        base_url.append("http://census.daybreakgames.com/s:");
        base_url.append(service_id.as_str());
        base_url.append("/json/get/ps2:v2/");
        proof {
            assert(base_url@ =~= spec_census_base(service_id@));
        }
        CensusClient {
            base_url,
            vehicle_cache: HashMap::new(),
            experience_cache: HashMap::new(),
            loadout_cache: HashMap::new(),
            character_cache: Vec::new(),
            fire_mode_cache: HashMap::new(),
        }
    }

    /// The request URL for a vehicle id.
    pub open spec fn spec_vehicle_url(self, id: Vehicle) -> Seq<char> {
        self.base_url@ + "vehicle?vehicle_id="@ + dec_repr(id.0 as nat)
    }

    fn vehicle_url(&self, id: Vehicle) -> (r: String)
        ensures
            r@ == self.spec_vehicle_url(id),
    {
        let mut url = self.base_url.clone();
        url.append("vehicle?vehicle_id=");
        let num = u64_to_text(id.0 as u64);
        url.append(num.as_str());
        proof {
            assert(url@ =~= self.spec_vehicle_url(id));
        }
        url
    }

    /// The cached record for a vehicle id, if any.
    pub open spec fn spec_vehicle_cached(self, id: Vehicle) -> Option<VehicleInfo> {
        if self.vehicle_cache@.contains_key(id.0) {
            Some(self.vehicle_cache@[id.0])
        } else {
            None
        }
    }

    /// One step of a vehicle lookup: the cached record, with no request
    /// owed, exactly when the id is cached; else the one URL to fetch.
    pub fn vehicle_lookup(&self, id: Vehicle) -> (r: LookupStep<VehicleInfo>)
        ensures
            match r {
                LookupStep::Hit(v) => self.spec_vehicle_cached(id) == Some(v),
                LookupStep::Fetch(url) => self.spec_vehicle_cached(id) is None && url@
                    == self.spec_vehicle_url(id),
            },
    {
        match self.vehicle_cache.get(&id.0) {
            Some(v) => LookupStep::Hit(v.duplicate()),
            None => LookupStep::Fetch(self.vehicle_url(id)),
        }
    }

    /// Fold a fetched vehicle response into the cache: exactly the parsed
    /// record is cached under the id and returned; on any error nothing
    /// changes, so the lookup can be retried.
    pub fn apply_vehicle_response(&mut self, id: Vehicle, body: &[u8]) -> (r: Result<
        VehicleInfo,
        LookupError,
    >)
        ensures
            r == spec_vehicle_response(body@),
            match r {
                Ok(v) => final(self).vehicle_cache@ == old(self).vehicle_cache@.insert(id.0, v)
                    && final(self).base_url == old(self).base_url && final(self).experience_cache
                    == old(self).experience_cache && final(self).loadout_cache == old(self).loadout_cache && final(self).character_cache == old(self).character_cache
                    && final(self).fire_mode_cache == old(self).fire_mode_cache,
                Err(_) => *final(self) == *old(self),
            },
    {
        match parse_vehicle_response(body) {
            Ok(v) => {
                self.vehicle_cache.insert(id.0, v.duplicate());
                Ok(v)
            },
            Err(e) => Err(e),
        }
    }

    /// The request URL for a fire-mode id.
    pub open spec fn spec_fire_mode_url(self, id: FireMode) -> Seq<char> {
        self.base_url@
            + "fire_mode?c:join=item^inject_at:item_info^show:name'is_vehicle_weapon&fire_mode_id="@
            + dec_repr(id.0 as nat)
    }

    fn fire_mode_url(&self, id: FireMode) -> (r: String)
        ensures
            r@ == self.spec_fire_mode_url(id),
    {
        let mut url = self.base_url.clone();
        url.append("fire_mode?c:join=item^inject_at:item_info^show:name'is_vehicle_weapon&fire_mode_id=");
        let num = u64_to_text(id.0 as u64);
        url.append(num.as_str());
        proof {
            assert(url@ =~= self.spec_fire_mode_url(id));
        }
        url
    }

    /// The cached record for a fire-mode id, if any.
    pub open spec fn spec_fire_mode_cached(self, id: FireMode) -> Option<FireModeInfo> {
        if self.fire_mode_cache@.contains_key(id.0) {
            Some(self.fire_mode_cache@[id.0])
        } else {
            None
        }
    }

    /// One step of a fire-mode lookup.
    pub fn fire_mode_lookup(&self, id: FireMode) -> (r: LookupStep<FireModeInfo>)
        ensures
            match r {
                LookupStep::Hit(v) => self.spec_fire_mode_cached(id) == Some(v),
                LookupStep::Fetch(url) => self.spec_fire_mode_cached(id) is None && url@
                    == self.spec_fire_mode_url(id),
            },
    {
        match self.fire_mode_cache.get(&id.0) {
            Some(v) => LookupStep::Hit(v.duplicate()),
            None => LookupStep::Fetch(self.fire_mode_url(id)),
        }
    }

    /// Fold a fetched fire-mode response into the cache.
    pub fn apply_fire_mode_response(&mut self, id: FireMode, body: &[u8]) -> (r: Result<
        FireModeInfo,
        LookupError,
    >)
        ensures
            r == spec_fire_mode_response(body@),
            match r {
                Ok(v) => final(self).fire_mode_cache@ == old(self).fire_mode_cache@.insert(id.0, v)
                    && final(self).base_url == old(self).base_url && final(self).experience_cache
                    == old(self).experience_cache && final(self).loadout_cache == old(self).loadout_cache && final(self).character_cache == old(self).character_cache
                    && final(self).vehicle_cache == old(self).vehicle_cache,
                Err(_) => *final(self) == *old(self),
            },
    {
        match parse_fire_mode_response(body) {
            Ok(v) => {
                self.fire_mode_cache.insert(id.0, v.duplicate());
                Ok(v)
            },
            Err(e) => Err(e),
        }
    }

    /// The request URL for an experience id.
    pub open spec fn spec_experience_url(self, id: Experience) -> Seq<char> {
        self.base_url@ + "experience?experience_id="@ + dec_repr(id.0 as nat)
    }

    fn experience_url(&self, id: Experience) -> (r: String)
        ensures
            r@ == self.spec_experience_url(id),
    {
        let mut url = self.base_url.clone();
        url.append("experience?experience_id=");
        let num = u64_to_text(id.0 as u64);
        url.append(num.as_str());
        proof {
            assert(url@ =~= self.spec_experience_url(id));
        }
        url
    }

    /// The cached name for an experience id, if any.
    pub open spec fn spec_experience_cached(self, id: Experience) -> Option<String> {
        if self.experience_cache@.contains_key(id.0) {
            Some(self.experience_cache@[id.0])
        } else {
            None
        }
    }

    /// One step of an experience-name lookup.
    pub fn experience_lookup(&self, id: Experience) -> (r: LookupStep<String>)
        ensures
            match r {
                LookupStep::Hit(v) => self.spec_experience_cached(id) == Some(v),
                LookupStep::Fetch(url) => self.spec_experience_cached(id) is None && url@
                    == self.spec_experience_url(id),
            },
    {
        match self.experience_cache.get(&id.0) {
            Some(v) => LookupStep::Hit(v.clone()),
            None => LookupStep::Fetch(self.experience_url(id)),
        }
    }

    /// Fold a fetched experience response into the cache.
    pub fn apply_experience_response(&mut self, id: Experience, body: &[u8]) -> (r: Result<
        String,
        LookupError,
    >)
        ensures
            r == spec_experience_response(body@),
            match r {
                Ok(v) => final(self).experience_cache@ == old(self).experience_cache@.insert(
                    id.0,
                    v,
                ) && final(self).base_url == old(self).base_url && final(self).vehicle_cache == old(self).vehicle_cache && final(self).loadout_cache == old(self).loadout_cache && final(self).character_cache == old(self).character_cache && final(self).fire_mode_cache
                    == old(self).fire_mode_cache,
                Err(_) => *final(self) == *old(self),
            },
    {
        match parse_experience_response(body) {
            Ok(v) => {
                self.experience_cache.insert(id.0, v.clone());
                Ok(v)
            },
            Err(e) => Err(e),
        }
    }

    /// The request URL for a loadout id.
    pub open spec fn spec_loadout_url(self, id: Loadout) -> Seq<char> {
        self.base_url@
            + "loadout?c:join=profile^inject_at:class^show:profile_type_id&loadout_id="@
            + dec_repr(id.0 as nat)
    }

    fn loadout_url(&self, id: Loadout) -> (r: String)
        ensures
            r@ == self.spec_loadout_url(id),
    {
        let mut url = self.base_url.clone();
        url.append("loadout?c:join=profile^inject_at:class^show:profile_type_id&loadout_id=");
        let num = u64_to_text(id.0 as u64);
        url.append(num.as_str());
        proof {
            assert(url@ =~= self.spec_loadout_url(id));
        }
        url
    }

    /// The cached record for a loadout id, if any.
    pub open spec fn spec_loadout_cached(self, id: Loadout) -> Option<ClassInfo> {
        if self.loadout_cache@.contains_key(id.0) {
            Some(self.loadout_cache@[id.0])
        } else {
            None
        }
    }

    /// One step of a loadout lookup.
    pub fn loadout_lookup(&self, id: Loadout) -> (r: LookupStep<ClassInfo>)
        ensures
            match r {
                LookupStep::Hit(v) => self.spec_loadout_cached(id) == Some(v),
                LookupStep::Fetch(url) => self.spec_loadout_cached(id) is None && url@
                    == self.spec_loadout_url(id),
            },
    {
        match self.loadout_cache.get(&id.0) {
            Some(v) => LookupStep::Hit(*v),
            None => LookupStep::Fetch(self.loadout_url(id)),
        }
    }

    /// Fold a fetched loadout response into the cache.
    pub fn apply_loadout_response(&mut self, id: Loadout, body: &[u8]) -> (r: Result<
        ClassInfo,
        LookupError,
    >)
        ensures
            r == spec_loadout_response(body@, id),
            match r {
                Ok(v) => final(self).loadout_cache@ == old(self).loadout_cache@.insert(id.0, v)
                    && final(self).base_url == old(self).base_url && final(self).vehicle_cache
                    == old(self).vehicle_cache && final(self).experience_cache == old(self).experience_cache && final(self).character_cache == old(self).character_cache
                    && final(self).fire_mode_cache == old(self).fire_mode_cache,
                Err(_) => *final(self) == *old(self),
            },
    {
        match parse_loadout_response(body, id) {
            Ok(v) => {
                self.loadout_cache.insert(id.0, v);
                Ok(v)
            },
            Err(e) => Err(e),
        }
    }

    /// The request URL for a character name, queried by its lower-cased
    /// form: the server stores case-sensitively but matches the lowered
    /// name.
    pub open spec fn spec_character_name_url(self, name: Seq<char>) -> Seq<char> {
        self.base_url@ + "character_name?name.first_lower="@ + lower_of(name)
    }

    /// The request URL for a character id.
    pub open spec fn spec_character_info_url(self, id: Character) -> Seq<char> {
        self.base_url@ + "character?character_id="@ + dec_repr(id.0 as nat)
    }

    /// The URL a character-by-id lookup fetches. These lookups are not
    /// cached: every call fetches.
    pub fn character_info_url(&self, id: Character) -> (r: String)
        ensures
            r@ == self.spec_character_info_url(id),
    {
        let mut url = self.base_url.clone();
        url.append("character?character_id=");
        let num = u64_to_text(id.0);
        url.append(num.as_str());
        proof {
            assert(url@ =~= self.spec_character_info_url(id));
        }
        url
    }

    /// One step of a name-to-id lookup: the cache is keyed by the
    /// lower-cased name, so names differing only in case share an entry.
    pub fn character_name_lookup(&self, name: &str) -> (r: LookupStep<Character>)
        ensures
            match r {
                LookupStep::Hit(c) => spec_name_lookup(self.character_cache@, lower_of(name@))
                    == Some(c),
                LookupStep::Fetch(url) => spec_name_lookup(self.character_cache@, lower_of(name@))
                    is None && url@ == self.spec_character_name_url(name@),
            },
    {
        let lname = lowercase(name);
        let n = self.character_cache.len();
        let mut i: usize = 0;
        proof {
            assert(self.character_cache@.skip(0) =~= self.character_cache@);
        }
        while i < n
            invariant
                n == self.character_cache@.len(),
                0 <= i <= n,
                lname@ == lower_of(name@),
                spec_name_lookup(self.character_cache@, lower_of(name@)) == spec_name_lookup(
                    self.character_cache@.skip(i as int),
                    lower_of(name@),
                ),
            decreases n - i,
        {
            proof {
                assert(self.character_cache@.skip(i as int)[0] == self.character_cache@[i as int]);
                assert(self.character_cache@.skip(i as int).drop_first() =~= self.character_cache@.skip(
                    i + 1,
                ));
            }
            if self.character_cache[i].name == lname {
                return LookupStep::Hit(self.character_cache[i].id);
            }
            i = i + 1;
        }
        proof {
            assert(self.character_cache@.skip(n as int) =~= Seq::<NameEntry>::empty());
        }
        let mut url = self.base_url.clone();
        url.append("character_name?name.first_lower=");
        url.append(lname.as_str());
        proof {
            assert(url@ =~= self.spec_character_name_url(name@));
        }
        LookupStep::Fetch(url)
    }

    /// Fold a fetched name-to-id response into the cache: the id is bound
    /// to the lower-cased name, every other binding keeps its answer.
    pub fn apply_character_name_response(&mut self, name: &str, body: &[u8]) -> (r: Result<
        Character,
        LookupError,
    >)
        ensures
            r == spec_character_name_response(body@),
            match r {
                Ok(id) => (forall|k: Seq<char>|
                    #[trigger] spec_name_lookup(final(self).character_cache@, k) == (
                    if k == lower_of(name@) {
                        Some(id)
                    } else {
                        spec_name_lookup(old(self).character_cache@, k)
                    })) && final(self).base_url == old(self).base_url && final(self).vehicle_cache
                    == old(self).vehicle_cache && final(self).experience_cache == old(self).experience_cache && final(self).loadout_cache == old(self).loadout_cache
                    && final(self).fire_mode_cache == old(self).fire_mode_cache,
                Err(_) => *final(self) == *old(self),
            },
    {
        match parse_character_name_response(body) {
            Ok(id) => {
                let lname = lowercase(name);
                let ghost before = self.character_cache@;
                self.character_cache.insert(0, NameEntry { name: lname, id });
                proof {
                    assert(self.character_cache@.drop_first() =~= before);
                    assert forall|k: Seq<char>|
                        #[trigger] spec_name_lookup(self.character_cache@, k) == (
                        if k == lower_of(name@) {
                            Some(id)
                        } else {
                            spec_name_lookup(before, k)
                        }) by {
                        assert(self.character_cache@[0].name@ == lower_of(name@));
                    }
                }
                Ok(id)
            },
            Err(e) => Err(e),
        }
    }
}

/// Once an applied response has bound a record to an id, a lookup of that
/// id is a hit carrying exactly that record: the first resolve fetched, the
/// second is free.
pub proof fn lemma_vehicle_hit_after_apply(
    c1: CensusClient,
    c2: CensusClient,
    id: Vehicle,
    v: VehicleInfo,
)
    requires
        c2.vehicle_cache@ == c1.vehicle_cache@.insert(id.0, v),
    ensures
        c2.spec_vehicle_cached(id) == Some(v),
{
}

/// Two names that lower to the same text read the same cache entry: what
/// one resolves to from the cache, the other resolves to.
pub proof fn lemma_name_lookup_case_insensitive(es: Seq<NameEntry>, n1: Seq<char>, n2: Seq<char>)
    requires
        lower_of(n1) == lower_of(n2),
    ensures
        spec_name_lookup(es, lower_of(n1)) == spec_name_lookup(es, lower_of(n2)),
{
}

} // verus!

