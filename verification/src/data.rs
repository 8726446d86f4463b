//! Identifier newtypes and closed enumerations of the game's worlds, zones,
//! factions and classes, with verified decimal parsing for each.

use vstd::prelude::*;

use crate::text::{dec_repr, parse_u32_spec, parse_u64_spec, parse_u32_text, parse_u64_text,
    u64_to_text};

verus! {

/// A character identifier.
#[derive(PartialEq, Eq, Structural, Debug, Clone, Copy)]
pub struct Character(pub u64);

/// A timestamp in seconds.
#[derive(PartialEq, Eq, Structural, Debug, Clone, Copy)]
pub struct Timestamp(pub u64);

/// A skill identifier.
#[derive(PartialEq, Eq, Structural, Debug, Clone, Copy)]
pub struct Skill(pub u32);

/// An item identifier.
#[derive(PartialEq, Eq, Structural, Debug, Clone, Copy)]
pub struct Item(pub u32);

/// An achievement identifier.
#[derive(PartialEq, Eq, Structural, Debug, Clone, Copy)]
pub struct Achievement(pub u32);

/// A battle-rank value.
#[derive(PartialEq, Eq, Structural, Debug, Clone, Copy)]
pub struct BattleRank(pub u32);

/// A facility identifier.
#[derive(PartialEq, Eq, Structural, Debug, Clone, Copy)]
pub struct Facility(pub u32);

/// Not a specific weapon, more a general class of weapon.
#[derive(PartialEq, Eq, Structural, Debug, Clone, Copy)]
pub struct Weapon(pub u32);

/// An outfit identifier.
#[derive(PartialEq, Eq, Structural, Debug, Clone, Copy)]
pub struct Outfit(pub u64);

/// A vehicle identifier.
#[derive(PartialEq, Eq, Structural, Debug, Clone, Copy, Hash)]
pub struct Vehicle(pub u32);

/// A fire-mode identifier.
#[derive(PartialEq, Eq, Structural, Debug, Clone, Copy, Hash)]
pub struct FireMode(pub u32);

/// A loadout identifier.
#[derive(PartialEq, Eq, Structural, Debug, Clone, Copy, Hash)]
pub struct Loadout(pub u32);

/// An experience-type identifier.
#[derive(PartialEq, Eq, Structural, Debug, Clone, Copy, Hash, PartialOrd, Ord)]
pub struct Experience(pub u32);

impl Character {
    /// Parse a decimal character id.
    pub fn from_str(s: &str) -> (r: Option<Character>)
        ensures
            r == (match parse_u64_spec(s@) { Some(v) => Some(Character(v)), None => None::<Character> }),
    {
        match parse_u64_text(s) {
            Some(v) => Some(Character(v)),
            None => None,
        }
    }

    /// The id rendered in decimal, as it appears on the wire.
    pub fn to_text(&self) -> (r: String)
        ensures
            r@ == dec_repr(self.0 as nat),
    {
        u64_to_text(self.0)
    }
}

impl Timestamp {
    /// Parse a decimal timestamp.
    pub fn from_str(s: &str) -> (r: Option<Timestamp>)
        ensures
            r == (match parse_u64_spec(s@) { Some(v) => Some(Timestamp(v)), None => None::<Timestamp> }),
    {
        match parse_u64_text(s) {
            Some(v) => Some(Timestamp(v)),
            None => None,
        }
    }
}

impl Outfit {
    /// Parse a decimal outfit id.
    pub fn from_str(s: &str) -> (r: Option<Outfit>)
        ensures
            r == (match parse_u64_spec(s@) { Some(v) => Some(Outfit(v)), None => None::<Outfit> }),
    {
        match parse_u64_text(s) {
            Some(v) => Some(Outfit(v)),
            None => None,
        }
    }
}

impl Skill {
    /// Parse a decimal skill id.
    pub fn from_str(s: &str) -> (r: Option<Skill>)
        ensures
            r == (match parse_u32_spec(s@) { Some(v) => Some(Skill(v)), None => None::<Skill> }),
    {
        match parse_u32_text(s) {
            Some(v) => Some(Skill(v)),
            None => None,
        }
    }
}

impl Item {
    /// Parse a decimal item id.
    pub fn from_str(s: &str) -> (r: Option<Item>)
        ensures
            r == (match parse_u32_spec(s@) { Some(v) => Some(Item(v)), None => None::<Item> }),
    {
        match parse_u32_text(s) {
            Some(v) => Some(Item(v)),
            None => None,
        }
    }
}

impl Achievement {
    /// Parse a decimal achievement id.
    pub fn from_str(s: &str) -> (r: Option<Achievement>)
        ensures
            r == (match parse_u32_spec(s@) { Some(v) => Some(Achievement(v)), None => None::<Achievement> }),
    {
        match parse_u32_text(s) {
            Some(v) => Some(Achievement(v)),
            None => None,
        }
    }
}

impl BattleRank {
    /// Parse a decimal battle rank.
    pub fn from_str(s: &str) -> (r: Option<BattleRank>)
        ensures
            r == (match parse_u32_spec(s@) { Some(v) => Some(BattleRank(v)), None => None::<BattleRank> }),
    {
        match parse_u32_text(s) {
            Some(v) => Some(BattleRank(v)),
            None => None,
        }
    }
}

impl Facility {
    /// Parse a decimal facility id.
    pub fn from_str(s: &str) -> (r: Option<Facility>)
        ensures
            r == (match parse_u32_spec(s@) { Some(v) => Some(Facility(v)), None => None::<Facility> }),
    {
        match parse_u32_text(s) {
            Some(v) => Some(Facility(v)),
            None => None,
        }
    }
}

impl Weapon {
    /// Parse a decimal weapon id.
    pub fn from_str(s: &str) -> (r: Option<Weapon>)
        ensures
            r == (match parse_u32_spec(s@) { Some(v) => Some(Weapon(v)), None => None::<Weapon> }),
    {
        match parse_u32_text(s) {
            Some(v) => Some(Weapon(v)),
            None => None,
        }
    }
}

impl Vehicle {
    /// Parse a decimal vehicle id.
    pub fn from_str(s: &str) -> (r: Option<Vehicle>)
        ensures
            r == (match parse_u32_spec(s@) { Some(v) => Some(Vehicle(v)), None => None::<Vehicle> }),
    {
        match parse_u32_text(s) {
            Some(v) => Some(Vehicle(v)),
            None => None,
        }
    }
}

impl FireMode {
    /// Parse a decimal fire-mode id.
    pub fn from_str(s: &str) -> (r: Option<FireMode>)
        ensures
            r == (match parse_u32_spec(s@) { Some(v) => Some(FireMode(v)), None => None::<FireMode> }),
    {
        match parse_u32_text(s) {
            Some(v) => Some(FireMode(v)),
            None => None,
        }
    }
}

impl Loadout {
    /// Parse a decimal loadout id.
    pub fn from_str(s: &str) -> (r: Option<Loadout>)
        ensures
            r == (match parse_u32_spec(s@) { Some(v) => Some(Loadout(v)), None => None::<Loadout> }),
    {
        match parse_u32_text(s) {
            Some(v) => Some(Loadout(v)),
            None => None,
        }
    }
}

impl Experience {
    /// Parse a decimal experience id.
    pub fn from_str(s: &str) -> (r: Option<Experience>)
        ensures
            r == (match parse_u32_spec(s@) { Some(v) => Some(Experience(v)), None => None::<Experience> }),
    {
        match parse_u32_text(s) {
            Some(v) => Some(Experience(v)),
            None => None,
        }
    }
}

/// The environments the feed can be reached in.
#[derive(PartialEq, Eq, Structural, Debug, Clone, Copy)]
pub enum Environment {
    PC,
    Ps4US,
    Ps4EU,
}

impl Environment {
    /// The token that names this environment in a connection URL.
    pub open spec fn spec_text(self) -> Seq<char> {
        match self {
            Environment::PC => "ps2"@,
            Environment::Ps4US => "ps2ps4us"@,
            Environment::Ps4EU => "ps2ps4eu"@,
        }
    }

    /// The token that names this environment in a connection URL.
    pub fn as_text(&self) -> (r: &'static str)
        ensures
            r@ == self.spec_text(),
    {
        match self {
            Environment::PC => "ps2",
            Environment::Ps4US => "ps2ps4us",
            Environment::Ps4EU => "ps2ps4eu",
        }
    }
}

/// The game's servers.
#[derive(PartialEq, Eq, Structural, Debug, Clone, Copy)]
pub enum World {
    Connery,
    Miller,
    Cobalt,
    Emerald,
    Jaeger,
    Apex,
    Briggs,
    SolTech,
}

impl World {
    /// The numeric id of this world on the wire.
    pub open spec fn spec_code(self) -> u32 {
        match self {
            World::Connery => 1,
            World::Miller => 10,
            World::Cobalt => 13,
            World::Emerald => 17,
            World::Jaeger => 19,
            World::Apex => 24,
            World::Briggs => 25,
            World::SolTech => 40,
        }
    }

    /// The world with the given numeric id, if any.
    pub open spec fn spec_from_code(c: u32) -> Option<World> {
        if c == 1 {
            Some(World::Connery)
        } else if c == 10 {
            Some(World::Miller)
        } else if c == 13 {
            Some(World::Cobalt)
        } else if c == 17 {
            Some(World::Emerald)
        } else if c == 19 {
            Some(World::Jaeger)
        } else if c == 24 {
            Some(World::Apex)
        } else if c == 25 {
            Some(World::Briggs)
        } else if c == 40 {
            Some(World::SolTech)
        } else {
            None
        }
    }

    /// The numeric id of this world on the wire.
    pub fn code(&self) -> (r: u32)
        ensures
            r == self.spec_code(),
    {
        match self {
            World::Connery => 1,
            World::Miller => 10,
            World::Cobalt => 13,
            World::Emerald => 17,
            World::Jaeger => 19,
            World::Apex => 24,
            World::Briggs => 25,
            World::SolTech => 40,
        }
    }

    /// The world with the given numeric id, if any.
    pub fn from_code(c: u32) -> (r: Option<World>)
        ensures
            r == World::spec_from_code(c),
    {
        match c {
            1 => Some(World::Connery),
            10 => Some(World::Miller),
            13 => Some(World::Cobalt),
            17 => Some(World::Emerald),
            19 => Some(World::Jaeger),
            24 => Some(World::Apex),
            25 => Some(World::Briggs),
            40 => Some(World::SolTech),
            _ => None,
        }
    }

    /// What parsing a world from its decimal id text yields.
    pub open spec fn spec_from_str(s: Seq<char>) -> Option<World> {
        match parse_u32_spec(s) {
            Some(c) => World::spec_from_code(c),
            None => None,
        }
    }

    /// Parse a world from its decimal id text.
    pub fn from_str(s: &str) -> (r: Option<World>)
        ensures
            r == World::spec_from_str(s@),
    {
        match parse_u32_text(s) {
            Some(c) => World::from_code(c),
            None => None,
        }
    }

    /// Every world, in name order.
    pub fn all_worlds() -> (r: Vec<World>)
        ensures
            r@ == seq![
                World::Apex,
                World::Briggs,
                World::Cobalt,
                World::Connery,
                World::Emerald,
                World::Jaeger,
                World::Miller,
                World::SolTech,
            ],
    {
        let mut v: Vec<World> = Vec::new();
        v.push(World::Apex);
        v.push(World::Briggs);
        v.push(World::Cobalt);
        v.push(World::Connery);
        v.push(World::Emerald);
        v.push(World::Jaeger);
        v.push(World::Miller);
        v.push(World::SolTech);
        proof {
            assert(v@ =~= seq![
                World::Apex,
                World::Briggs,
                World::Cobalt,
                World::Connery,
                World::Emerald,
                World::Jaeger,
                World::Miller,
                World::SolTech,
            ]);
        }
        v
    }
}

/// The game's continents.
#[derive(PartialEq, Eq, Structural, Debug, Clone, Copy)]
pub enum Zone {
    Indar,
    Hossin,
    Amerish,
    Esamir,
    Oshur,
    VRTrainingNC,
    VRTrainingTR,
    VRTrainingVS,
    Koltyr,
    Desolation,
    Sanctuary,
}

impl Zone {
    /// The numeric id of this zone on the wire.
    pub open spec fn spec_code(self) -> u32 {
        match self {
            Zone::Indar => 2,
            Zone::Hossin => 4,
            Zone::Amerish => 6,
            Zone::Esamir => 8,
            Zone::Oshur => 344,
            Zone::VRTrainingNC => 96,
            Zone::VRTrainingTR => 97,
            Zone::VRTrainingVS => 98,
            Zone::Koltyr => 10000,
            Zone::Desolation => 20000,
            Zone::Sanctuary => 131434,
        }
    }

    /// The zone with the given numeric id, if any.
    pub open spec fn spec_from_code(c: u32) -> Option<Zone> {
        if c == 2 {
            Some(Zone::Indar)
        } else if c == 4 {
            Some(Zone::Hossin)
        } else if c == 6 {
            Some(Zone::Amerish)
        } else if c == 8 {
            Some(Zone::Esamir)
        } else if c == 344 {
            Some(Zone::Oshur)
        } else if c == 96 {
            Some(Zone::VRTrainingNC)
        } else if c == 97 {
            Some(Zone::VRTrainingTR)
        } else if c == 98 {
            Some(Zone::VRTrainingVS)
        } else if c == 10000 {
            Some(Zone::Koltyr)
        } else if c == 20000 {
            Some(Zone::Desolation)
        } else if c == 131434 {
            Some(Zone::Sanctuary)
        } else {
            None
        }
    }

    /// The numeric id of this zone on the wire.
    pub fn code(&self) -> (r: u32)
        ensures
            r == self.spec_code(),
    {
        match self {
            Zone::Indar => 2,
            Zone::Hossin => 4,
            Zone::Amerish => 6,
            Zone::Esamir => 8,
            Zone::Oshur => 344,
            Zone::VRTrainingNC => 96,
            Zone::VRTrainingTR => 97,
            Zone::VRTrainingVS => 98,
            Zone::Koltyr => 10000,
            Zone::Desolation => 20000,
            Zone::Sanctuary => 131434,
        }
    }

    /// The zone with the given numeric id, if any.
    pub fn from_code(c: u32) -> (r: Option<Zone>)
        ensures
            r == Zone::spec_from_code(c),
    {
        match c {
            2 => Some(Zone::Indar),
            4 => Some(Zone::Hossin),
            6 => Some(Zone::Amerish),
            8 => Some(Zone::Esamir),
            344 => Some(Zone::Oshur),
            96 => Some(Zone::VRTrainingNC),
            97 => Some(Zone::VRTrainingTR),
            98 => Some(Zone::VRTrainingVS),
            10000 => Some(Zone::Koltyr),
            20000 => Some(Zone::Desolation),
            131434 => Some(Zone::Sanctuary),
            _ => None,
        }
    }

    /// What parsing a zone from its decimal id text yields.
    pub open spec fn spec_from_str(s: Seq<char>) -> Option<Zone> {
        match parse_u32_spec(s) {
            Some(c) => Zone::spec_from_code(c),
            None => None,
        }
    }

    /// Parse a zone from its decimal id text.
    pub fn from_str(s: &str) -> (r: Option<Zone>)
        ensures
            r == Zone::spec_from_str(s@),
    {
        match parse_u32_text(s) {
            Some(c) => Zone::from_code(c),
            None => None,
        }
    }
}

/// The empires a character can fight for.
#[derive(PartialEq, Eq, Structural, Debug, Clone, Copy)]
pub enum Faction {
    NoFaction,
    VanuSovereignty,
    NewConglomerate,
    TerranRepublic,
    NSOperatives,
}

impl Faction {
    /// The numeric id of this faction on the wire.
    pub open spec fn spec_code(self) -> u32 {
        match self {
            Faction::NoFaction => 0,
            Faction::VanuSovereignty => 1,
            Faction::NewConglomerate => 2,
            Faction::TerranRepublic => 3,
            Faction::NSOperatives => 4,
        }
    }

    /// The faction with the given numeric id, if any.
    pub open spec fn spec_from_code(c: u32) -> Option<Faction> {
        if c == 0 {
            Some(Faction::NoFaction)
        } else if c == 1 {
            Some(Faction::VanuSovereignty)
        } else if c == 2 {
            Some(Faction::NewConglomerate)
        } else if c == 3 {
            Some(Faction::TerranRepublic)
        } else if c == 4 {
            Some(Faction::NSOperatives)
        } else {
            None
        }
    }

    /// The numeric id of this faction on the wire.
    pub fn code(&self) -> (r: u32)
        ensures
            r == self.spec_code(),
    {
        match self {
            Faction::NoFaction => 0,
            Faction::VanuSovereignty => 1,
            Faction::NewConglomerate => 2,
            Faction::TerranRepublic => 3,
            Faction::NSOperatives => 4,
        }
    }

    /// The faction with the given numeric id, if any.
    pub fn from_code(c: u32) -> (r: Option<Faction>)
        ensures
            r == Faction::spec_from_code(c),
    {
        match c {
            0 => Some(Faction::NoFaction),
            1 => Some(Faction::VanuSovereignty),
            2 => Some(Faction::NewConglomerate),
            3 => Some(Faction::TerranRepublic),
            4 => Some(Faction::NSOperatives),
            _ => None,
        }
    }

    /// What parsing a faction from its decimal id text yields.
    pub open spec fn spec_from_str(s: Seq<char>) -> Option<Faction> {
        match parse_u32_spec(s) {
            Some(c) => Faction::spec_from_code(c),
            None => None,
        }
    }

    /// Parse a faction from its decimal id text.
    pub fn from_str(s: &str) -> (r: Option<Faction>)
        ensures
            r == Faction::spec_from_str(s@),
    {
        match parse_u32_text(s) {
            Some(c) => Faction::from_code(c),
            None => None,
        }
    }
}

/// The infantry classes.
#[derive(PartialEq, Eq, Structural, Debug, Clone, Copy)]
pub enum Class {
    Infiltrator,
    LightAssault,
    CombatMedic,
    Engineer,
    HeavyAssault,
    MAX,
}

impl Class {
    /// The numeric id of this class on the wire.
    pub open spec fn spec_code(self) -> u32 {
        match self {
            Class::Infiltrator => 1,
            Class::LightAssault => 3,
            Class::CombatMedic => 4,
            Class::Engineer => 5,
            Class::HeavyAssault => 6,
            Class::MAX => 7,
        }
    }

    /// The class with the given numeric id, if any.
    pub open spec fn spec_from_code(c: u32) -> Option<Class> {
        if c == 1 {
            Some(Class::Infiltrator)
        } else if c == 3 {
            Some(Class::LightAssault)
        } else if c == 4 {
            Some(Class::CombatMedic)
        } else if c == 5 {
            Some(Class::Engineer)
        } else if c == 6 {
            Some(Class::HeavyAssault)
        } else if c == 7 {
            Some(Class::MAX)
        } else {
            None
        }
    }

    /// The numeric id of this class on the wire.
    pub fn code(&self) -> (r: u32)
        ensures
            r == self.spec_code(),
    {
        match self {
            Class::Infiltrator => 1,
            Class::LightAssault => 3,
            Class::CombatMedic => 4,
            Class::Engineer => 5,
            Class::HeavyAssault => 6,
            Class::MAX => 7,
        }
    }

    /// The class with the given numeric id, if any.
    pub fn from_code(c: u32) -> (r: Option<Class>)
        ensures
            r == Class::spec_from_code(c),
    {
        match c {
            1 => Some(Class::Infiltrator),
            3 => Some(Class::LightAssault),
            4 => Some(Class::CombatMedic),
            5 => Some(Class::Engineer),
            6 => Some(Class::HeavyAssault),
            7 => Some(Class::MAX),
            _ => None,
        }
    }

    /// What parsing a class from its decimal id text yields.
    pub open spec fn spec_from_str(s: Seq<char>) -> Option<Class> {
        match parse_u32_spec(s) {
            Some(c) => Class::spec_from_code(c),
            None => None,
        }
    }

    /// Parse a class from its decimal id text.
    pub fn from_str(s: &str) -> (r: Option<Class>)
        ensures
            r == Class::spec_from_str(s@),
    {
        match parse_u32_text(s) {
            Some(c) => Class::from_code(c),
            None => None,
        }
    }
}

/// A name given in each of the game's display languages.
#[derive(Debug, Clone)]
pub struct LocaleText {
    pub de: String,
    pub en: String,
    pub es: String,
    pub fr: String,
    pub it: String,
    pub tr: String,
}

} // verus!
