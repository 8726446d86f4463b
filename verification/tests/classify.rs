use ps2events::data::{Character, Faction, FireMode, Loadout, Timestamp, Vehicle, Weapon, World,
    Zone};
use ps2events::events::{EventPayload, EventType};
use ps2events::json::parse_json;
use ps2events::message::{classify, EventResponse, ExternallyTaggedEventResponse,
    InternallyTaggedEventResponse, Service, UntaggedEventResponse};

fn classify_bytes(bytes: &[u8]) -> Option<EventResponse> {
    parse_json(bytes).and_then(classify)
}

const DEATH_FRAME: &[u8] = br#"{"payload":{"attacker_character_id":"5428010618020694785","attacker_fire_mode_id":"557","attacker_loadout_id":"20","attacker_vehicle_id":"0","attacker_weapon_id":"7170","character_id":"5428011263335537297","character_loadout_id":"15","event_name":"Death","is_headshot":"1","timestamp":"1600000500","world_id":"1","zone_id":"2"},"service":"event","type":"serviceMessage"}"#;

#[test]
fn service_message_with_known_event_name_classifies_fully() {
    let resp = classify_bytes(DEATH_FRAME).expect("should classify");
    match resp {
        EventResponse::InternallyTagged(InternallyTaggedEventResponse::ServiceMessage {
            service,
            payload,
        }) => {
            assert_eq!(service, Service::Event);
            match payload {
                EventPayload::Death(d) => {
                    assert_eq!(d.attacker_character_id, Character(5428010618020694785));
                    assert_eq!(d.attacker_fire_mode_id, FireMode(557));
                    assert_eq!(d.attacker_loadout_id, Loadout(20));
                    assert_eq!(d.attacker_vehicle_id, Vehicle(0));
                    assert_eq!(d.attacker_weapon_id, Weapon(7170));
                    assert_eq!(d.character_id, Character(5428011263335537297));
                    assert_eq!(d.character_loadout_id, Loadout(15));
                    assert!(d.is_headshot);
                    assert_eq!(d.timestamp, Timestamp(1600000500));
                    assert_eq!(d.world_id, World::Connery);
                    assert_eq!(d.zone_id, Zone::Indar);
                },
                other => panic!("expected a death payload, got {:?}", other),
            }
        },
        other => panic!("expected a service message, got {:?}", other),
    }
}

#[test]
fn unknown_event_name_is_a_parse_failure_not_a_crash() {
    let frame = br#"{"payload":{"event_name":"SomethingNew","timestamp":"1"},"service":"event","type":"serviceMessage"}"#;
    assert!(classify_bytes(frame).is_none());
}

#[test]
fn missing_payload_field_is_a_parse_failure() {
    let frame = br#"{"payload":{"event_name":"Death","timestamp":"1"},"service":"event","type":"serviceMessage"}"#;
    assert!(classify_bytes(frame).is_none());
}

#[test]
fn heartbeat_classifies() {
    let frame = br#"{"type":"heartbeat","service":"event","online":"true"}"#;
    match classify_bytes(frame).expect("should classify") {
        EventResponse::InternallyTagged(InternallyTaggedEventResponse::Heartbeat {
            service, ..
        }) => {
            assert_eq!(service, Service::Event);
        },
        other => panic!("expected a heartbeat, got {:?}", other),
    }
}

#[test]
fn service_state_change_coerces_its_flag() {
    let frame = br#"{"type":"serviceStateChanged","service":"event","online":"1","detail":"EventServerEndpoint_Connery_1"}"#;
    match classify_bytes(frame).expect("should classify") {
        EventResponse::InternallyTagged(InternallyTaggedEventResponse::ServiceStateChanged {
            service,
            online,
            detail,
        }) => {
            assert_eq!(service, Service::Event);
            assert!(online);
            assert_eq!(detail, "EventServerEndpoint_Connery_1");
        },
        other => panic!("expected a state change, got {:?}", other),
    }
}

#[test]
fn connection_state_change_accepts_a_true_boolean() {
    let frame = br#"{"connected":true,"service":"push","type":"connectionStateChanged"}"#;
    match classify_bytes(frame).expect("should classify") {
        EventResponse::InternallyTagged(
            InternallyTaggedEventResponse::ConnectionStateChanged { service, connected },
        ) => {
            assert_eq!(service, Service::Push);
            assert!(connected);
        },
        other => panic!("expected a connection change, got {:?}", other),
    }
}

#[test]
fn subscription_acknowledgment_classifies() {
    let frame = br#"{"subscription":{"characterCount":2,"characters":["a","b"],"eventNames":["Death","all"],"logicalAndCharactersWithWorlds":false,"worlds":["1","10"]}}"#;
    match classify_bytes(frame).expect("should classify") {
        EventResponse::ExternallyTagged(ExternallyTaggedEventResponse::Subscription(s)) => {
            assert_eq!(s.character_count, Some(2));
            assert_eq!(s.characters, Some(vec!["a".to_string(), "b".to_string()]));
            assert_eq!(s.event_names, vec![EventType::Death, EventType::All]);
            assert!(!s.logical_and_characters_with_worlds);
            assert_eq!(s.worlds, vec!["1".to_string(), "10".to_string()]);
        },
        other => panic!("expected a subscription, got {:?}", other),
    }
}

#[test]
fn subscription_with_extra_outer_member_falls_through() {
    let frame = br#"{"extra":"1","subscription":{"eventNames":[],"logicalAndCharactersWithWorlds":true,"worlds":[]}}"#;
    assert!(classify_bytes(frame).is_none());
}

#[test]
fn subscription_with_unknown_event_name_falls_through() {
    let frame = br#"{"subscription":{"eventNames":["Nonsense"],"logicalAndCharactersWithWorlds":true,"worlds":[]}}"#;
    assert!(classify_bytes(frame).is_none());
}

#[test]
fn help_info_classifies() {
    let frame = br#"{"send this for help":{"action":"help","service":"event"}}"#;
    match classify_bytes(frame).expect("should classify") {
        EventResponse::Untagged(UntaggedEventResponse::HelpInfo { .. }) => {},
        other => panic!("expected help info, got {:?}", other),
    }
}

#[test]
fn help_response_classifies() {
    let frame = br#"{"example event service message payloads":{"a":"1"},"example messages to event service":{"b":"2"}}"#;
    match classify_bytes(frame).expect("should classify") {
        EventResponse::Untagged(UntaggedEventResponse::HelpResponse { .. }) => {},
        other => panic!("expected a help response, got {:?}", other),
    }
}

#[test]
fn echoes_and_junk_are_silently_dropped() {
    assert!(classify_bytes(br#"{"weird":"echo"}"#).is_none());
    assert!(classify_bytes(br#"not json at all"#).is_none());
    assert!(classify_bytes(br#"[1,2,3]"#).is_none());
    assert!(classify_bytes(br#"{"type":"unknownKind","service":"event"}"#).is_none());
}

#[test]
fn heartbeat_without_service_falls_through_to_failure() {
    let frame = br#"{"type":"heartbeat","online":"true"}"#;
    assert!(classify_bytes(frame).is_none());
}
