use ps2events::data::Experience;
use ps2events::experience::ExperienceInfo;
use ps2events::vehicle::VehicleInfo;
use ps2events::data::{LocaleText, Vehicle};

fn info(id: u32, name: &str) -> ExperienceInfo {
    ExperienceInfo { id: Experience(id), name: name.to_string() }
}

#[test]
fn kill_band_is_recognized() {
    assert!(info(1, "Kill Player").is_kill());
    assert!(info(29, "Kill Max").is_kill());
    assert!(info(146, "Kill something specific").is_kill());
    assert!(info(155, "Kill something specific").is_kill());
    assert!(!info(145, "Not a kill").is_kill());
    assert!(!info(156, "Not a kill").is_kill());
    assert!(!info(2, "Kill Player Assist").is_kill());
}

#[test]
fn assist_is_exactly_id_two() {
    assert!(info(2, "Kill Player Assist").is_assist());
    assert!(!info(3, "Kill Player Assist").is_assist());
}

#[test]
fn squad_spawn_and_spot_go_by_the_name() {
    assert!(info(53, "Squad Revive").is_squad());
    assert!(!info(7, "Revive").is_squad());
    assert!(info(56, "Squad Spawn").is_spawn());
    assert!(!info(1, "Spawn Kill").is_spawn());
    assert!(info(36, "Spot Kill").is_spot());
}

#[test]
fn repairs_exclude_shield_repairs() {
    assert!(info(438, "Shield Repair").is_shield_repair());
    assert!(info(439, "Squad Shield Repair").is_shield_repair());
    assert!(!info(438, "Shield Repair").is_repair());
    assert!(info(88, "Vehicle Repair").is_repair());
}

#[test]
fn resupply_and_recon_groups() {
    assert!(info(34, "Resupply Player").is_resupply_player());
    assert!(info(241, "Squad Vehicle Resupply").is_resupply_vehicle());
    assert!(info(55, "Squad Resupply").is_resupply());
    assert!(info(293, "Motion Detect").is_motion_detect());
    assert!(info(354, "Squad Scout Radar Detect").is_radar());
    assert!(info(293, "Motion Detect").is_recon());
    assert!(info(36, "Spot Kill").is_recon());
    assert!(!info(1, "Kill Player").is_recon());
}

#[test]
fn support_covers_the_supporting_actions() {
    assert!(info(7, "Revive").is_support());
    assert!(info(4, "Heal Player").is_support());
    assert!(info(438, "Shield Repair").is_support());
    assert!(info(34, "Resupply Player").is_support());
    assert!(!info(1, "Kill Player").is_support());
}

#[test]
fn vehicle_damage_goes_by_the_name() {
    assert!(info(300, "Tank Damage").is_vehicle_damage());
    assert!(!info(300, "Tank Kill").is_vehicle_damage());
}

fn locale(name: &str) -> LocaleText {
    LocaleText {
        de: name.to_string(),
        en: name.to_string(),
        es: name.to_string(),
        fr: name.to_string(),
        it: name.to_string(),
        tr: name.to_string(),
    }
}

fn vehicle(type_id: u32) -> VehicleInfo {
    VehicleInfo {
        vehicle_id: Vehicle(2),
        name: locale("Sunderer"),
        description: locale("A bus"),
        type_id,
        type_label: "Land".to_string(),
        cost_resource_id: 0,
        image_set_id: 0,
        image_id: 0,
        image_path: "".to_string(),
    }
}

#[test]
fn vehicle_kind_predicates() {
    assert!(vehicle(2).is_ground());
    assert!(vehicle(5).is_ground());
    assert!(!vehicle(1).is_ground());
    assert!(vehicle(1).is_air());
    assert!(vehicle(8).is_air());
    assert!(!vehicle(5).is_air());
    assert!(!vehicle(2).is_boat());
    assert!(!vehicle(1).is_boat());
}
