use ps2events::data::World;
use ps2events::events::EventType;
use ps2events::message::{EventRequest, EventRequestAction, Service};

#[test]
fn default_request_asks_for_help() {
    let req = EventRequest::default();
    assert_eq!(req.to_json(), r#"{"service":"event","action":"help"}"#);
}

#[test]
fn subscribe_request_serializes_every_member_in_order() {
    let req = EventRequest {
        service: Service::Event,
        action: EventRequestAction::Subscribe,
        all: None,
        list_characters: None,
        payload: None,
        characters: Some(vec!["all".to_string()]),
        worlds: Some(vec![World::Connery, World::Miller]),
        event_names: Some(vec![EventType::Death, EventType::All]),
    };
    assert_eq!(
        req.to_json(),
        r#"{"service":"event","action":"subscribe","characters":["all"],"worlds":[1,10],"eventNames":["Death","all"]}"#
    );
}

#[test]
fn clear_subscribe_carries_the_all_flag() {
    let req = EventRequest {
        service: Service::Event,
        action: EventRequestAction::ClearSubscribe,
        all: Some(true),
        list_characters: None,
        payload: None,
        characters: None,
        worlds: None,
        event_names: None,
    };
    assert_eq!(req.to_json(), r#"{"service":"event","action":"clearSubscribe","all":true}"#);
}

#[test]
fn echo_request_splices_its_payload_raw() {
    let req = EventRequest {
        service: Service::Event,
        action: EventRequestAction::Echo,
        all: None,
        list_characters: Some(false),
        payload: Some(r#"{"test":"echo"}"#.to_string()),
        characters: None,
        worlds: None,
        event_names: None,
    };
    assert_eq!(
        req.to_json(),
        r#"{"service":"event","action":"echo","listCharacters":false,"payload":{"test":"echo"}}"#
    );
}

#[test]
fn character_names_are_json_escaped() {
    let req = EventRequest {
        service: Service::Push,
        action: EventRequestAction::Subscribe,
        all: None,
        list_characters: None,
        payload: None,
        characters: Some(vec!["a\"b\\c\n".to_string()]),
        worlds: None,
        event_names: None,
    };
    assert_eq!(
        req.to_json(),
        "{\"service\":\"push\",\"action\":\"subscribe\",\"characters\":[\"a\\\"b\\\\c\\n\"]}"
    );
}

#[test]
fn control_characters_are_escaped_by_code() {
    let req = EventRequest {
        service: Service::Event,
        action: EventRequestAction::Echo,
        all: None,
        list_characters: None,
        payload: None,
        characters: Some(vec!["a\u{1}b\u{1f}".to_string()]),
        worlds: None,
        event_names: None,
    };
    assert_eq!(
        req.to_json(),
        "{\"service\":\"event\",\"action\":\"echo\",\"characters\":[\"a\\u0001b\\u001f\"]}"
    );
}

#[test]
fn the_parsed_request_round_trips_through_the_classifier_json() {
    // The serialized request is real JSON: the library's own parser reads
    // it back.
    let req = EventRequest::default();
    let text = req.to_json();
    let node = ps2events::json::parse_json(text.as_bytes());
    assert!(node.is_some());
}
