use ps2events::client::{CallbackHolder, EventStreamingClient, RecordingEventListener,
    RecordingRawListener, RecordingResponseListener, ResponseTag, SessionState};
use ps2events::data::Environment;
use ps2events::events::EventPayload;
use ps2events::message::EventRequest;

type Holder = CallbackHolder<RecordingResponseListener, RecordingRawListener,
    RecordingEventListener>;
type Session = EventStreamingClient<RecordingResponseListener, RecordingRawListener,
    RecordingEventListener>;

const HEARTBEAT: &[u8] = br#"{"type":"heartbeat","service":"event","online":"true"}"#;

const DEATH: &[u8] = br#"{"payload":{"attacker_character_id":"1","attacker_fire_mode_id":"557","attacker_loadout_id":"20","attacker_vehicle_id":"0","attacker_weapon_id":"7170","character_id":"2","character_loadout_id":"15","event_name":"Death","is_headshot":"0","timestamp":"1600000500","world_id":"1","zone_id":"2"},"service":"event","type":"serviceMessage"}"#;

#[test]
fn session_url_and_state_machine() {
    let mut session: Session = EventStreamingClient::new(
        Environment::PC,
        "example".to_string(),
        CallbackHolder::new(),
    );
    assert_eq!(
        session.connect_url,
        "wss://push.planetside2.com/streaming?environment=ps2&service-id=s:example"
    );
    assert!(session.needs_connect());
    assert!(session.prepare_request(&EventRequest::default()).is_err());
    session.on_connected();
    assert!(!session.needs_connect());
    let text = session.prepare_request(&EventRequest::default()).expect("connected");
    assert_eq!(text, r#"{"service":"event","action":"help"}"#);
    session.on_run_start();
    assert_eq!(session.state, SessionState::Running);
    session.on_disconnected();
    assert_eq!(session.state, SessionState::Terminated);
    assert!(session.prepare_request(&EventRequest::default()).is_err());
}

#[test]
fn one_dispatch_reaches_every_event_listener_once() {
    let mut holder: Holder = CallbackHolder::new();
    for _ in 0..3 {
        holder.register_event_listener(RecordingEventListener::new());
    }
    holder.handle_message(DEATH);
    assert_eq!(holder.event_callbacks.len(), 3);
    for listener in &holder.event_callbacks {
        assert_eq!(listener.events.len(), 1);
        match &listener.events[0] {
            EventPayload::Death(d) => {
                assert_eq!(d.attacker_weapon_id, ps2events::data::Weapon(7170));
                assert!(!d.is_headshot);
            },
            other => panic!("expected a death payload, got {:?}", other),
        }
    }
}

#[test]
fn raw_listeners_fire_for_valid_json_even_when_unclassified() {
    let mut holder: Holder = CallbackHolder::new();
    holder.register_all_response_listener(RecordingRawListener::new());
    holder.handle_message(br#"{"weird":"echo"}"#);
    holder.handle_message(br#"not json"#);
    holder.handle_message(HEARTBEAT);
    assert_eq!(holder.all_callbacks[0].count, 2);
}

#[test]
fn unclassified_candidates_reach_no_response_listener() {
    let mut holder: Holder = CallbackHolder::new();
    holder.register_ps2_response_listener(RecordingResponseListener::new());
    holder.handle_message(br#"{"weird":"echo"}"#);
    assert_eq!(holder.ps2_callbacks[0].tags.len(), 0);
}

#[test]
fn a_frame_with_two_messages_dispatches_both_in_order() {
    let mut holder: Holder = CallbackHolder::new();
    holder.register_ps2_response_listener(RecordingResponseListener::new());
    holder.register_event_listener(RecordingEventListener::new());
    let mut session: Session = EventStreamingClient::new(
        Environment::PC,
        "example".to_string(),
        holder,
    );
    session.on_connected();
    session.on_run_start();
    let mut frame = HEARTBEAT.to_vec();
    frame.extend_from_slice(DEATH);
    session.handle_frame(&frame);
    let tags = &session.callbacks.ps2_callbacks[0].tags;
    assert_eq!(&tags[..], &[ResponseTag::Heartbeat, ResponseTag::ServiceMessage][..]);
    let events = &session.callbacks.event_callbacks[0].events;
    assert_eq!(events.len(), 1);
    match &events[0] {
        EventPayload::Death(d) => {
            assert_eq!(d.character_id, ps2events::data::Character(2));
        },
        other => panic!("expected a death payload, got {:?}", other),
    }
}

struct OrderProbe {
    tag: usize,
    order: std::rc::Rc<std::cell::RefCell<Vec<usize>>>,
}

impl ps2events::client::EventListener for OrderProbe {
    // The ghost history member is proof-only and never runs.
    fn history(&self) -> vstd::seq::Seq<EventPayload> {
        panic!()
    }

    fn on_event(&mut self, _payload: &EventPayload) {
        self.order.borrow_mut().push(self.tag);
    }
}

#[test]
fn event_listeners_fire_in_registration_order() {
    let order = std::rc::Rc::new(std::cell::RefCell::new(Vec::new()));
    let mut holder: CallbackHolder<RecordingResponseListener, RecordingRawListener, OrderProbe> =
        CallbackHolder::new();
    for tag in 0..4 {
        holder.register_event_listener(OrderProbe { tag, order: order.clone() });
    }
    holder.handle_message(DEATH);
    assert_eq!(&order.borrow()[..], &[0, 1, 2, 3][..]);
}
