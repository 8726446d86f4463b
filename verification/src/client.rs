//! The dispatch registry and the streaming session's state machine.
//!
//! Listeners are capability values: each implements one of the listener
//! traits, whose contract records every value handed to it in a ghost
//! history. The registry holds three independent append-only lists and
//! invokes each list synchronously, in registration order. The session owns
//! the registry and the decisions of the run loop; the caller owns the
//! connection itself and feeds raw frames in.

use vstd::prelude::*;

use crate::data::Environment;
use crate::events::EventPayload;
use crate::frames::{split, split_spec};
use crate::json::{JsonNode, json_doc, parse_json};
use crate::message::{EventRequest, EventResponse, InternallyTaggedEventResponse, classify,
    spec_external_applies, spec_serialize, spec_subscription_matches, spec_try_internal,
    spec_try_untagged, ExternallyTaggedEventResponse, SubscriptionInfoEventResponse};

verus! {

/// A listener for every candidate that is valid JSON, classified or not.
pub trait RawListener: Sized {
    /// The values this listener has been handed, oldest first.
    spec fn history(&self) -> Seq<JsonNode>;

    fn on_raw(&mut self, value: &JsonNode)
        ensures
            final(self).history() == old(self).history().push(*value),
    ;
}

/// A listener for every candidate that classifies as a known response.
pub trait ResponseListener: Sized {
    /// The responses this listener has been handed, oldest first.
    spec fn history(&self) -> Seq<EventResponse>;

    fn on_response(&mut self, response: &EventResponse)
        ensures
            final(self).history() == old(self).history().push(*response),
    ;
}

/// A listener for every delivered typed event payload.
pub trait EventListener: Sized {
    /// The payloads this listener has been handed, oldest first.
    spec fn history(&self) -> Seq<EventPayload>;

    fn on_event(&mut self, payload: &EventPayload)
        ensures
            final(self).history() == old(self).history().push(*payload),
    ;
}

/// Every listener in `post` has seen exactly one more value than it had in
/// `pre`: the same `v`, appended to its history.
pub open spec fn raw_pushed<A: RawListener>(pre: Seq<A>, post: Seq<A>, v: JsonNode) -> bool {
    &&& post.len() == pre.len()
    &&& forall|i: int|
        0 <= i < pre.len() ==> (#[trigger] post[i].history()) == pre[i].history().push(v)
}

pub open spec fn resp_pushed<R: ResponseListener>(
    pre: Seq<R>,
    post: Seq<R>,
    v: EventResponse,
) -> bool {
    &&& post.len() == pre.len()
    &&& forall|i: int|
        0 <= i < pre.len() ==> (#[trigger] post[i].history()) == pre[i].history().push(v)
}

pub open spec fn event_pushed<E: EventListener>(
    pre: Seq<E>,
    post: Seq<E>,
    v: EventPayload,
) -> bool {
    &&& post.len() == pre.len()
    &&& forall|i: int|
        0 <= i < pre.len() ==> (#[trigger] post[i].history()) == pre[i].history().push(v)
}

/// The three independent listener registries. Registration is append-only:
/// there is no unregister.
pub struct CallbackHolder<R, A, E> {
    pub ps2_callbacks: Vec<R>,
    pub all_callbacks: Vec<A>,
    pub event_callbacks: Vec<E>,
}

/// What one handled candidate message does to the registries: nothing for
/// bytes that are not one JSON document; otherwise the raw listeners see
/// the document (only if any are registered), the response listeners see
/// the classification when one applies, and the event listeners see the
/// payload when the classification is a service message.
pub open spec fn spec_dispatched<R: ResponseListener, A: RawListener, E: EventListener>(
    pre: CallbackHolder<R, A, E>,
    post: CallbackHolder<R, A, E>,
    msg: Seq<u8>,
) -> bool {
    match json_doc(msg) {
        None => post == pre,
        Some(doc) => {
            &&& (if pre.all_callbacks@.len() > 0 {
                raw_pushed(pre.all_callbacks@, post.all_callbacks@, doc)
            } else {
                post.all_callbacks == pre.all_callbacks
            })
            &&& match doc {
                JsonNode::Object(fs) => {
                    if spec_try_internal(fs@) is Some {
                        let resp = EventResponse::InternallyTagged(spec_try_internal(fs@).unwrap());
                        &&& resp_pushed(pre.ps2_callbacks@, post.ps2_callbacks@, resp)
                        &&& match spec_try_internal(fs@).unwrap() {
                            InternallyTaggedEventResponse::ServiceMessage { service, payload } => {
                                event_pushed(pre.event_callbacks@, post.event_callbacks@, payload)
                            },
                            _ => post.event_callbacks == pre.event_callbacks,
                        }
                    } else if spec_external_applies(fs@) {
                        &&& exists|s: SubscriptionInfoEventResponse|
                            #[trigger] spec_subscription_matches((fs@[0].value->Object_0)@, s)
                                && resp_pushed(
                                pre.ps2_callbacks@,
                                post.ps2_callbacks@,
                                EventResponse::ExternallyTagged(
                                    ExternallyTaggedEventResponse::Subscription(s),
                                ),
                            )
                        &&& post.event_callbacks == pre.event_callbacks
                    } else if spec_try_untagged(fs@) is Some {
                        &&& resp_pushed(
                            pre.ps2_callbacks@,
                            post.ps2_callbacks@,
                            EventResponse::Untagged(spec_try_untagged(fs@).unwrap()),
                        )
                        &&& post.event_callbacks == pre.event_callbacks
                    } else {
                        &&& post.ps2_callbacks == pre.ps2_callbacks
                        &&& post.event_callbacks == pre.event_callbacks
                    }
                },
                _ => {
                    &&& post.ps2_callbacks == pre.ps2_callbacks
                    &&& post.event_callbacks == pre.event_callbacks
                },
            }
        },
    }
}

impl<R: ResponseListener, A: RawListener, E: EventListener> CallbackHolder<R, A, E> {
    /// A registry with no listeners.
    pub fn new() -> (r: CallbackHolder<R, A, E>)
        ensures
            r.ps2_callbacks@ == Seq::<R>::empty(),
            r.all_callbacks@ == Seq::<A>::empty(),
            r.event_callbacks@ == Seq::<E>::empty(),
    {
        CallbackHolder { ps2_callbacks: Vec::new(), all_callbacks: Vec::new(), event_callbacks: Vec::new() }
    }

    /// add a listener that fires on all responses from the server that
    /// parse as valid responses
    pub fn register_ps2_response_listener(&mut self, callback: R)
        ensures
            final(self).ps2_callbacks@ == old(self).ps2_callbacks@.push(callback),
            final(self).all_callbacks == old(self).all_callbacks,
            final(self).event_callbacks == old(self).event_callbacks,
    {
        self.ps2_callbacks.push(callback);
    }

    /// add a listener that fires on all responses that parse as valid
    /// event payloads
    pub fn register_event_listener(&mut self, callback: E)
        ensures
            final(self).event_callbacks@ == old(self).event_callbacks@.push(callback),
            final(self).ps2_callbacks == old(self).ps2_callbacks,
            final(self).all_callbacks == old(self).all_callbacks,
    {
        self.event_callbacks.push(callback);
    }

    /// add a listener that fires on all responses from the server that are
    /// valid JSON, even if they cannot be parsed as valid messages
    pub fn register_all_response_listener(&mut self, callback: A)
        ensures
            final(self).all_callbacks@ == old(self).all_callbacks@.push(callback),
            final(self).ps2_callbacks == old(self).ps2_callbacks,
            final(self).event_callbacks == old(self).event_callbacks,
    {
        self.all_callbacks.push(callback);
    }

    /// Hand one response to every response listener, in registration
    /// order: each is invoked exactly once with the identical value.
    fn call_ps2_response_callbacks(callbacks: &mut Vec<R>, response: &EventResponse)
        ensures
            resp_pushed(old(callbacks)@, final(callbacks)@, *response),
    {
        let n = callbacks.len();
        let mut i: usize = 0;
        while i < n
            invariant
                n == callbacks@.len(),
                callbacks@.len() == old(callbacks)@.len(),
                0 <= i <= n,
                forall|k: int|
                    0 <= k < i ==> (#[trigger] callbacks@[k].history()) == old(
                        callbacks,
                    )@[k].history().push(*response),
                forall|k: int| i <= k < n ==> #[trigger] callbacks@[k] == old(callbacks)@[k],
            decreases n - i,
        {
            callbacks[i].on_response(response);
            i = i + 1;
        }
    }

    /// Hand one payload to every event listener, in registration order.
    fn call_event_callbacks(callbacks: &mut Vec<E>, response: &EventPayload)
        ensures
            event_pushed(old(callbacks)@, final(callbacks)@, *response),
    {
        let n = callbacks.len();
        let mut i: usize = 0;
        while i < n
            invariant
                n == callbacks@.len(),
                callbacks@.len() == old(callbacks)@.len(),
                0 <= i <= n,
                forall|k: int|
                    0 <= k < i ==> (#[trigger] callbacks@[k].history()) == old(
                        callbacks,
                    )@[k].history().push(*response),
                forall|k: int| i <= k < n ==> #[trigger] callbacks@[k] == old(callbacks)@[k],
            decreases n - i,
        {
            callbacks[i].on_event(response);
            i = i + 1;
        }
    }

    /// Hand one raw document to every raw listener, in registration order.
    fn call_all_reponse_callbacks(callbacks: &mut Vec<A>, response: &JsonNode)
        ensures
            raw_pushed(old(callbacks)@, final(callbacks)@, *response),
    {
        let n = callbacks.len();
        let mut i: usize = 0;
        while i < n
            invariant
                n == callbacks@.len(),
                callbacks@.len() == old(callbacks)@.len(),
                0 <= i <= n,
                forall|k: int|
                    0 <= k < i ==> (#[trigger] callbacks@[k].history()) == old(
                        callbacks,
                    )@[k].history().push(*response),
                forall|k: int| i <= k < n ==> #[trigger] callbacks@[k] == old(callbacks)@[k],
            decreases n - i,
        {
            callbacks[i].on_raw(response);
            i = i + 1;
        }
    }

    /// parse an incoming candidate message and call the relevant callback
    /// functions
    pub fn handle_message(&mut self, message: &[u8])
        ensures
            spec_dispatched(*old(self), *final(self), message@),
    {
        let doc = match parse_json(message) {
            Some(d) => d,
            None => {
                return;
            },
        };
        if self.all_callbacks.len() > 0 {
            Self::call_all_reponse_callbacks(&mut self.all_callbacks, &doc);
        }
        match classify(doc) {
            Some(r) => {
                Self::call_ps2_response_callbacks(&mut self.ps2_callbacks, &r);
                match &r {
                    EventResponse::InternallyTagged(
                        InternallyTaggedEventResponse::ServiceMessage { service: _, payload },
                    ) => {
                        Self::call_event_callbacks(&mut self.event_callbacks, payload);
                    },
                    _ => {},
                }
            },
            None => {},
        }
    }
}


/// The life of a session's connection.
#[derive(PartialEq, Eq, Structural, Debug, Clone, Copy)]
pub enum SessionState {
    Disconnected,
    Connected,
    Running,
    Terminated,
}

/// The error for sending before the connection is up.
#[derive(PartialEq, Eq, Structural, Debug, Clone, Copy)]
pub struct NotConnectedError;

/// The URL a session connects to, for an environment and a service id.
pub open spec fn spec_event_url(environment: Environment, sid: Seq<char>) -> Seq<char> {
    "wss://push.planetside2.com/streaming?environment="@ + environment.spec_text()
        + "&service-id=s:"@ + sid
}

/// What a whole raw frame does to the registries: its candidates are
/// handled one after another, in order of appearance.
pub open spec fn spec_frames_dispatched<R: ResponseListener, A: RawListener, E: EventListener>(
    pre: CallbackHolder<R, A, E>,
    post: CallbackHolder<R, A, E>,
    cands: Seq<Seq<u8>>,
) -> bool
    decreases cands.len(),
{
    if cands.len() == 0 {
        post == pre
    } else {
        exists|mid: CallbackHolder<R, A, E>|
            #[trigger] spec_dispatched(pre, mid, cands[0]) && spec_frames_dispatched(
                mid,
                post,
                cands.drop_first(),
            )
    }
}

/// A dispatched step extends a dispatched chain at its end.
proof fn lemma_frames_dispatched_snoc<R: ResponseListener, A: RawListener, E: EventListener>(
    pre: CallbackHolder<R, A, E>,
    mid: CallbackHolder<R, A, E>,
    post: CallbackHolder<R, A, E>,
    cands: Seq<Seq<u8>>,
    last: Seq<u8>,
)
    requires
        spec_frames_dispatched(pre, mid, cands),
        spec_dispatched(mid, post, last),
    ensures
        spec_frames_dispatched(pre, post, cands.push(last)),
    decreases cands.len(),
{
    if cands.len() == 0 {
        assert(cands.push(last)[0] == last);
        assert(cands.push(last).drop_first() =~= Seq::<Seq<u8>>::empty());
        assert(spec_dispatched(pre, post, last));
        assert(spec_frames_dispatched(post, post, cands.push(last).drop_first()));
    } else {
        let step = choose|m: CallbackHolder<R, A, E>|
            #[trigger] spec_dispatched(pre, m, cands[0]) && spec_frames_dispatched(
                m,
                mid,
                cands.drop_first(),
            );
        lemma_frames_dispatched_snoc(step, mid, post, cands.drop_first(), last);
        assert(cands.push(last)[0] == cands[0]);
        assert(cands.push(last).drop_first() =~= cands.drop_first().push(last));
    }
}

/// The streaming session: the connection URL, the state of the connection,
/// and the registry it dispatches into. The connection itself, and the
/// loop that reads frames from it, belong to the caller, who reports what
/// happened through `on_connected`, `handle_frame` and `on_disconnected`.
pub struct EventStreamingClient<R, A, E> {
    pub connect_url: String,
    pub state: SessionState,
    pub callbacks: CallbackHolder<R, A, E>,
}

impl<R: ResponseListener, A: RawListener, E: EventListener> EventStreamingClient<R, A, E> {
    /// A fresh, disconnected session with the exact connection URL for the
    /// environment and service id.
    pub fn new(environment: Environment, service_id: String, callbacks: CallbackHolder<R, A, E>) -> (r:
        EventStreamingClient<R, A, E>)
        ensures
            r.connect_url@ == spec_event_url(environment, service_id@),
            r.state == SessionState::Disconnected,
            r.callbacks == callbacks,
    {
        let mut url = String::new();
        url.append("wss://push.planetside2.com/streaming?environment=");
        url.append(environment.as_text());
        url.append("&service-id=s:");
        url.append(service_id.as_str());
        proof {
            assert(url@ =~= spec_event_url(environment, service_id@));
        }
        EventStreamingClient { connect_url: url, state: SessionState::Disconnected, callbacks }
    }

    /// Whether a connect attempt is owed: connecting is idempotent, so a
    /// session already connected needs nothing.
    pub fn needs_connect(&self) -> (r: bool)
        ensures
            r == (self.state == SessionState::Disconnected),
    {
        match self.state {
            SessionState::Disconnected => true,
            _ => false,
        }
    }

    /// Record that the transport handshake succeeded.
    pub fn on_connected(&mut self)
        requires
            old(self).state == SessionState::Disconnected || old(self).state
                == SessionState::Connected,
        ensures
            final(self).state == SessionState::Connected,
            final(self).connect_url == old(self).connect_url,
            final(self).callbacks == old(self).callbacks,
    {
        self.state = SessionState::Connected;
    }

    /// The wire text to send for a request: owed exactly when the session
    /// is connected or running; sending from a disconnected session is the
    /// caller's error.
    pub fn prepare_request(&self, request: &EventRequest) -> (r: Result<String, NotConnectedError>)
        ensures
            match r {
                Ok(text) => (self.state == SessionState::Connected || self.state
                    == SessionState::Running) && text@ == spec_serialize(*request),
                Err(_) => self.state == SessionState::Disconnected || self.state
                    == SessionState::Terminated,
            },
    {
        match self.state {
            SessionState::Connected => Ok(request.to_json()),
            SessionState::Running => Ok(request.to_json()),
            _ => Err(NotConnectedError),
        }
    }

    /// Record that the run loop has taken the session over.
    pub fn on_run_start(&mut self)
        requires
            old(self).state == SessionState::Connected,
        ensures
            final(self).state == SessionState::Running,
            final(self).connect_url == old(self).connect_url,
            final(self).callbacks == old(self).callbacks,
    {
        self.state = SessionState::Running;
    }

    /// Handle one raw frame from the transport: split it into candidate
    /// messages and dispatch each, in order of appearance.
    pub fn handle_frame(&mut self, frame: &[u8])
        ensures
            spec_frames_dispatched(
                old(self).callbacks,
                final(self).callbacks,
                split_spec(frame@),
            ),
            final(self).state == old(self).state,
            final(self).connect_url == old(self).connect_url,
    {
        let parts = split(frame);
        let n = parts.len();
        let mut i: usize = 0;
        while i < n
            invariant
                n == parts@.len(),
                parts.deep_view() == split_spec(frame@),
                0 <= i <= n,
                spec_frames_dispatched(
                    old(self).callbacks,
                    self.callbacks,
                    split_spec(frame@).take(i as int),
                ),
                self.state == old(self).state,
                self.connect_url == old(self).connect_url,
            decreases n - i,
        {
            let ghost mid = self.callbacks;
            self.callbacks.handle_message(parts[i].as_slice());
            proof {
                assert(parts@[i as int]@ == split_spec(frame@)[i as int]);
                lemma_frames_dispatched_snoc(
                    old(self).callbacks,
                    mid,
                    self.callbacks,
                    split_spec(frame@).take(i as int),
                    split_spec(frame@)[i as int],
                );
                assert(split_spec(frame@).take(i + 1) =~= split_spec(frame@).take(i as int).push(
                    split_spec(frame@)[i as int],
                ));
            }
            i = i + 1;
        }
        proof {
            assert(split_spec(frame@).take(n as int) =~= split_spec(frame@));
        }
    }

    /// Record that the connection closed or failed: the session is over
    /// and will not reconnect on its own.
    pub fn on_disconnected(&mut self)
        ensures
            final(self).state == SessionState::Terminated,
            final(self).connect_url == old(self).connect_url,
            final(self).callbacks == old(self).callbacks,
    {
        self.state = SessionState::Terminated;
    }
}

/// The shape family a classified response falls in, for plain inspection.
#[derive(PartialEq, Eq, Structural, Debug, Clone, Copy)]
pub enum ResponseTag {
    Heartbeat,
    ServiceMessage,
    ServiceStateChanged,
    ConnectionStateChanged,
    Subscription,
    HelpText,
}

/// The tag of a classified response.
pub open spec fn spec_response_tag(r: EventResponse) -> ResponseTag {
    match r {
        EventResponse::InternallyTagged(i) => match i {
            InternallyTaggedEventResponse::Heartbeat { .. } => ResponseTag::Heartbeat,
            InternallyTaggedEventResponse::ServiceMessage { .. } => ResponseTag::ServiceMessage,
            InternallyTaggedEventResponse::ServiceStateChanged { .. } => ResponseTag::ServiceStateChanged,
            InternallyTaggedEventResponse::ConnectionStateChanged { .. } => ResponseTag::ConnectionStateChanged,
        },
        EventResponse::ExternallyTagged(_) => ResponseTag::Subscription,
        EventResponse::Untagged(_) => ResponseTag::HelpText,
    }
}

/// The tag of a classified response.
pub fn response_tag(r: &EventResponse) -> (t: ResponseTag)
    ensures
        t == spec_response_tag(*r),
{
    match r {
        EventResponse::InternallyTagged(i) => match i {
            InternallyTaggedEventResponse::Heartbeat { .. } => ResponseTag::Heartbeat,
            InternallyTaggedEventResponse::ServiceMessage { .. } => ResponseTag::ServiceMessage,
            InternallyTaggedEventResponse::ServiceStateChanged { .. } => ResponseTag::ServiceStateChanged,
            InternallyTaggedEventResponse::ConnectionStateChanged { .. } => ResponseTag::ConnectionStateChanged,
        },
        EventResponse::ExternallyTagged(_) => ResponseTag::Subscription,
        EventResponse::Untagged(_) => ResponseTag::HelpText,
    }
}

/// A raw listener that counts what it is handed.
pub struct RecordingRawListener {
    pub count: u64,
    pub log: Ghost<Seq<JsonNode>>,
}

impl RecordingRawListener {
    pub fn new() -> (r: RecordingRawListener)
        ensures
            r.count == 0,
            r.history() == Seq::<JsonNode>::empty(),
    {
        RecordingRawListener { count: 0, log: Ghost(Seq::empty()) }
    }
}

impl RawListener for RecordingRawListener {
    open spec fn history(&self) -> Seq<JsonNode> {
        self.log@
    }

    fn on_raw(&mut self, value: &JsonNode) {
        if self.count < u64::MAX {
            self.count = self.count + 1;
        }
        proof {
            self.log@ = self.log@.push(*value);
        }
    }
}

/// A response listener that keeps the tag of each response, in order.
pub struct RecordingResponseListener {
    pub tags: Vec<ResponseTag>,
    pub log: Ghost<Seq<EventResponse>>,
}

impl RecordingResponseListener {
    pub fn new() -> (r: RecordingResponseListener)
        ensures
            r.tags@ == Seq::<ResponseTag>::empty(),
            r.history() == Seq::<EventResponse>::empty(),
    {
        RecordingResponseListener { tags: Vec::new(), log: Ghost(Seq::empty()) }
    }
}

impl ResponseListener for RecordingResponseListener {
    open spec fn history(&self) -> Seq<EventResponse> {
        self.log@
    }

    fn on_response(&mut self, response: &EventResponse) {
        self.tags.push(response_tag(response));
        proof {
            self.log@ = self.log@.push(*response);
        }
    }
}

/// An event listener that keeps a copy of each payload, in order.
pub struct RecordingEventListener {
    pub events: Vec<EventPayload>,
    pub log: Ghost<Seq<EventPayload>>,
}

impl RecordingEventListener {
    pub fn new() -> (r: RecordingEventListener)
        ensures
            r.events@ == Seq::<EventPayload>::empty(),
            r.history() == Seq::<EventPayload>::empty(),
    {
        RecordingEventListener { events: Vec::new(), log: Ghost(Seq::empty()) }
    }
}

impl EventListener for RecordingEventListener {
    open spec fn history(&self) -> Seq<EventPayload> {
        self.log@
    }

    fn on_event(&mut self, payload: &EventPayload) {
        self.events.push(payload.clone());
        proof {
            self.log@ = self.log@.push(*payload);
        }
    }
}

} // verus!

