use ps2events::census::{CensusClient, LookupError, LookupStep, parse_character_info_response};
use ps2events::data::{Character, Class, Experience, Faction, FireMode, Item, Loadout, Vehicle};

const VEHICLE_BODY: &[u8] = br#"{"vehicle_list":[{"vehicle_id":"2","name":{"de":"Sunderer","en":"Sunderer","es":"Sunderer","fr":"Sunderer","it":"Sunderer","tr":"Sunderer"},"description":{"de":"d","en":"d","es":"d","fr":"d","it":"d","tr":"d"},"type_id":"5","type_name":"Land","cost_resource_id":"0","image_set_id":"4","image_id":"5","image_path":"/files/sunderer.png"}],"returned":1}"#;

#[test]
fn new_client_builds_the_exact_base_url() {
    let c = CensusClient::new("example".to_string());
    assert_eq!(c.base_url, "http://census.daybreakgames.com/s:example/json/get/ps2:v2/");
}

#[test]
fn first_vehicle_resolve_fetches_then_hits() {
    let mut c = CensusClient::new("example".to_string());
    let id = Vehicle(2);
    let url = match c.vehicle_lookup(id) {
        LookupStep::Fetch(url) => url,
        LookupStep::Hit(_) => panic!("nothing cached yet"),
    };
    assert_eq!(
        url,
        "http://census.daybreakgames.com/s:example/json/get/ps2:v2/vehicle?vehicle_id=2"
    );
    let v = c.apply_vehicle_response(id, VEHICLE_BODY).expect("should parse");
    assert_eq!(v.vehicle_id, Vehicle(2));
    assert_eq!(v.name.en, "Sunderer");
    assert_eq!(v.type_id, 5);
    assert!(v.is_ground());
    match c.vehicle_lookup(id) {
        LookupStep::Hit(cached) => {
            assert_eq!(cached.vehicle_id, v.vehicle_id);
            assert_eq!(cached.name.en, v.name.en);
            assert_eq!(cached.image_path, v.image_path);
        },
        LookupStep::Fetch(_) => panic!("second resolve must be a cache hit"),
    }
}

#[test]
fn vehicle_errors_are_not_cached() {
    let mut c = CensusClient::new("x".to_string());
    let id = Vehicle(9);
    let empty = br#"{"vehicle_list":[],"returned":0}"#;
    assert!(matches!(c.apply_vehicle_response(id, empty), Err(LookupError::NotFound)));
    assert!(matches!(c.apply_vehicle_response(id, b"garbage"), Err(LookupError::MalformedResponse)));
    match c.vehicle_lookup(id) {
        LookupStep::Fetch(_) => {},
        LookupStep::Hit(_) => panic!("failed lookups must not poison the cache"),
    }
}

#[test]
fn experience_resolve_reads_the_description() {
    let mut c = CensusClient::new("x".to_string());
    let id = Experience(7);
    match c.experience_lookup(id) {
        LookupStep::Fetch(url) => {
            assert_eq!(
                url,
                "http://census.daybreakgames.com/s:x/json/get/ps2:v2/experience?experience_id=7"
            );
        },
        LookupStep::Hit(_) => panic!("nothing cached yet"),
    }
    let body = br#"{"experience_list":[{"experience_id":"7","description":"Revive","xp":"75"}],"returned":1}"#;
    assert_eq!(c.apply_experience_response(id, body), Ok("Revive".to_string()));
    match c.experience_lookup(id) {
        LookupStep::Hit(name) => assert_eq!(name, "Revive"),
        LookupStep::Fetch(_) => panic!("second resolve must be a cache hit"),
    }
}

#[test]
fn loadout_resolve_reads_faction_and_class() {
    let mut c = CensusClient::new("x".to_string());
    let id = Loadout(20);
    match c.loadout_lookup(id) {
        LookupStep::Fetch(url) => {
            assert_eq!(
                url,
                "http://census.daybreakgames.com/s:x/json/get/ps2:v2/loadout?c:join=profile^inject_at:class^show:profile_type_id&loadout_id=20"
            );
        },
        LookupStep::Hit(_) => panic!("nothing cached yet"),
    }
    let body = br#"{"loadout_list":[{"loadout_id":"20","profile_id":"190","faction_id":"3","code_name":"TR Engineer","class":{"profile_type_id":"5"}}],"returned":1}"#;
    let info = c.apply_loadout_response(id, body).expect("should parse");
    assert_eq!(info.loadout_id, Loadout(20));
    assert_eq!(info.faction_id, Faction::TerranRepublic);
    assert_eq!(info.class, Class::Engineer);
    match c.loadout_lookup(id) {
        LookupStep::Hit(cached) => assert_eq!(cached.class, Class::Engineer),
        LookupStep::Fetch(_) => panic!("second resolve must be a cache hit"),
    }
}

#[test]
fn fire_mode_resolve_reads_the_joined_item() {
    let mut c = CensusClient::new("x".to_string());
    let id = FireMode(557);
    let body = br#"{"fire_mode_list":[{"fire_mode_id":"557","item_id":"7170","type":"primary","item_info":{"name":{"de":"n","en":"n","es":"n","fr":"n","it":"n","tr":"n"},"is_vehicle_weapon":"0"}}],"returned":1}"#;
    let info = c.apply_fire_mode_response(id, body).expect("should parse");
    assert_eq!(info.item_id, Item(7170));
    assert_eq!(info.weapon_type, "primary");
    assert_eq!(info.weapon_name.en, "n");
    assert!(!info.weapon_is_vehicle_weapon);
    match c.fire_mode_lookup(id) {
        LookupStep::Hit(cached) => assert_eq!(cached.item_id, Item(7170)),
        LookupStep::Fetch(_) => panic!("second resolve must be a cache hit"),
    }
}

#[test]
fn character_name_resolution_is_case_insensitive() {
    let mut c = CensusClient::new("x".to_string());
    match c.character_name_lookup("Higby") {
        LookupStep::Fetch(url) => {
            assert_eq!(
                url,
                "http://census.daybreakgames.com/s:x/json/get/ps2:v2/character_name?name.first_lower=higby"
            );
        },
        LookupStep::Hit(_) => panic!("nothing cached yet"),
    }
    let body = br#"{"character_name_list":[{"character_id":"5428010618020694785","name":{"first":"Higby","first_lower":"higby"}}],"returned":1}"#;
    let id = c.apply_character_name_response("Higby", body).expect("should parse");
    assert_eq!(id, Character(5428010618020694785));
    for name in ["Higby", "higby", "HIGBY", "hIgBy"] {
        match c.character_name_lookup(name) {
            LookupStep::Hit(got) => assert_eq!(got, id),
            LookupStep::Fetch(_) => panic!("{name} must hit the shared cache entry"),
        }
    }
}

#[test]
fn character_name_empty_list_is_not_found() {
    let mut c = CensusClient::new("x".to_string());
    let body = br#"{"character_name_list":[],"returned":0}"#;
    assert_eq!(c.apply_character_name_response("ghost", body), Err(LookupError::NotFound));
}

#[test]
fn character_info_parses_the_whole_record() {
    let c = CensusClient::new("x".to_string());
    assert_eq!(
        c.character_info_url(Character(99)),
        "http://census.daybreakgames.com/s:x/json/get/ps2:v2/character?character_id=99"
    );
    let body = br#"{"character_list":[{"character_id":"99","name":{"first":"Higby","first_lower":"higby"},"faction_id":"2","head_id":"1","title_id":"0","times":{"creation":"1340000000","creation_date":"2012-06-28","last_save":"1600000000","last_save_date":"2020-09-13","last_login":"1599990000","last_login_date":"2020-09-13","login_count":"500","minutes_played":"60000"},"certs":{"earned_points":"10000","gifted_points":"100","spent_points":"9000","available_points":"1100","percent_to_next":"41.5"},"battle_rank":{"percent_to_next":"20","value":"100"},"profile_id":"5","daily_ribbon":{"count":"3","time":"1599900000","date":"2020-09-12"},"prestige_level":"1"}],"returned":1}"#;
    let info = parse_character_info_response(body).expect("should parse");
    assert_eq!(info.character_id, Character(99));
    assert_eq!(info.name.first, "Higby");
    assert_eq!(info.faction_id, Faction::NewConglomerate);
    assert_eq!(info.times.login_count, 500);
    assert_eq!(info.certs.available_points, 1100);
    assert_eq!(info.certs.percent_to_next, "41.5");
    assert_eq!(info.battle_rank.value, ps2events::data::BattleRank(100));
    assert_eq!(info.daily_ribbon.count, 3);
    assert_eq!(info.prestige_level, 1);
}

#[test]
fn character_info_missing_member_is_malformed() {
    let body = br#"{"character_list":[{"character_id":"99"}],"returned":1}"#;
    assert!(matches!(parse_character_info_response(body), Err(LookupError::MalformedResponse)));
}
