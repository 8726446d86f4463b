use ps2events::data::{Character, Class, Environment, Faction, Outfit, Timestamp, World, Zone};

#[test]
fn world_codes_round_trip() {
    let worlds = World::all_worlds();
    assert_eq!(worlds.len(), 8);
    for w in worlds {
        assert_eq!(World::from_code(w.code()), Some(w));
    }
    assert_eq!(World::from_code(2), None);
    assert_eq!(World::from_str("1"), Some(World::Connery));
    assert_eq!(World::from_str("40"), Some(World::SolTech));
    assert_eq!(World::from_str("connery"), None);
}

#[test]
fn zone_codes_round_trip() {
    assert_eq!(Zone::from_str("2"), Some(Zone::Indar));
    assert_eq!(Zone::from_str("131434"), Some(Zone::Sanctuary));
    assert_eq!(Zone::from_str("3"), None);
    assert_eq!(Zone::from_code(Zone::Oshur.code()), Some(Zone::Oshur));
}

#[test]
fn faction_codes_round_trip() {
    assert_eq!(Faction::from_str("0"), Some(Faction::NoFaction));
    assert_eq!(Faction::from_str("1"), Some(Faction::VanuSovereignty));
    assert_eq!(Faction::from_str("4"), Some(Faction::NSOperatives));
    assert_eq!(Faction::from_str("5"), None);
}

#[test]
fn class_codes_round_trip() {
    assert_eq!(Class::from_str("1"), Some(Class::Infiltrator));
    assert_eq!(Class::from_str("7"), Some(Class::MAX));
    assert_eq!(Class::from_str("2"), None);
}

#[test]
fn id_types_parse_decimals() {
    assert_eq!(Character::from_str("5428010618020694785"), Some(Character(5428010618020694785)));
    assert_eq!(Character::from_str("nope"), None);
    assert_eq!(Timestamp::from_str("1600000000"), Some(Timestamp(1600000000)));
    assert_eq!(Outfit::from_str("37509488620602936"), Some(Outfit(37509488620602936)));
}

#[test]
fn character_renders_its_id() {
    assert_eq!(Character(42).to_text(), "42");
}

#[test]
fn environment_names() {
    assert_eq!(Environment::PC.as_text(), "ps2");
    assert_eq!(Environment::Ps4US.as_text(), "ps2ps4us");
    assert_eq!(Environment::Ps4EU.as_text(), "ps2ps4eu");
}
