//! The wire messages: the subscription request the client sends, with its
//! verified JSON serialization, and the closed set of response shapes the
//! classifier recognizes.

use vstd::prelude::*;

use crate::data::World;
use crate::events::{EventPayload, EventType, field_bool, field_text, parse_payload,
    spec_field_bool, spec_field_text, spec_parse_payload};
use crate::json::{JsonEntry, JsonNode, lookup_field, get_field, take_field, string_eq_str,
    str_eq_str};
use crate::text::{dec_repr, parse_i32_spec, parse_i32_text, push_plain_char, u64_to_text};

verus! {

/// The two streaming services the endpoint exposes.
#[derive(PartialEq, Eq, Structural, Debug, Clone, Copy)]
pub enum Service {
    Event,
    Push,
}

impl Service {
    /// The name of this service on the wire.
    pub open spec fn spec_name(self) -> Seq<char> {
        match self {
            Service::Event => "event"@,
            Service::Push => "push"@,
        }
    }

    /// The name of this service on the wire.
    pub fn wire_name(&self) -> (r: &'static str)
        ensures
            r@ == self.spec_name(),
    {
        match self {
            Service::Event => "event",
            Service::Push => "push",
        }
    }

    /// The service a wire name stands for, if any.
    pub open spec fn spec_from_name(s: Seq<char>) -> Option<Service> {
        if s == "event"@ {
            Some(Service::Event)
        } else if s == "push"@ {
            Some(Service::Push)
        } else {
            None
        }
    }

    /// Parse a service from its wire name.
    pub fn from_name(s: &str) -> (r: Option<Service>)
        ensures
            r == Service::spec_from_name(s@),
    {
        if str_eq_str(s, "event") {
            Some(Service::Event)
        } else if str_eq_str(s, "push") {
            Some(Service::Push)
        } else {
            None
        }
    }
}

/// The actions a request can ask of the service.
#[derive(PartialEq, Eq, Structural, Debug, Clone, Copy)]
pub enum EventRequestAction {
    Echo,
    Subscribe,
    ClearSubscribe,
    Help,
    RecentCharacterIds,
    RecentCharacterIdsCount,
}

impl EventRequestAction {
    /// The name of this action on the wire.
    pub open spec fn spec_name(self) -> Seq<char> {
        match self {
            EventRequestAction::Echo => "echo"@,
            EventRequestAction::Subscribe => "subscribe"@,
            EventRequestAction::ClearSubscribe => "clearSubscribe"@,
            EventRequestAction::Help => "help"@,
            EventRequestAction::RecentCharacterIds => "recentCharacterIds"@,
            EventRequestAction::RecentCharacterIdsCount => "recentCharacterIdsCount"@,
        }
    }

    /// The name of this action on the wire.
    pub fn wire_name(&self) -> (r: &'static str)
        ensures
            r@ == self.spec_name(),
    {
        match self {
            EventRequestAction::Echo => "echo",
            EventRequestAction::Subscribe => "subscribe",
            EventRequestAction::ClearSubscribe => "clearSubscribe",
            EventRequestAction::Help => "help",
            EventRequestAction::RecentCharacterIds => "recentCharacterIds",
            EventRequestAction::RecentCharacterIdsCount => "recentCharacterIdsCount",
        }
    }
}

/// One request to the streaming service. Optional members are left off the
/// wire entirely when absent. The echo payload, when given, is raw JSON
/// text spliced into the request as it stands.
#[derive(Debug, Clone)]
pub struct EventRequest {
    /// the service you are using, always "event"
    pub service: Service,
    /// the action you are requesting to do
    pub action: EventRequestAction,
    /// used for the clearSubscribe request to specify to clear all subscriptions
    pub all: Option<bool>,
    pub list_characters: Option<bool>,
    /// the data to echo back for an echo request, as raw JSON text
    pub payload: Option<String>,
    /// the numerical ids of the characters you are subscribing to events for
    pub characters: Option<Vec<String>>,
    /// the numerical ids of all the worlds you are subscribing to
    pub worlds: Option<Vec<World>>,
    /// the names of the events you are subscribing to
    pub event_names: Option<Vec<EventType>>,
}

impl Default for EventRequest {
    /// A help request for the event service, with every option absent.
    fn default() -> (r: Self)
        ensures
            r.service == Service::Event,
            r.action == EventRequestAction::Help,
            r.all is None,
            r.list_characters is None,
            r.payload is None,
            r.characters is None,
            r.worlds is None,
            r.event_names is None,
    {
        EventRequest {
            service: Service::Event,
            action: EventRequestAction::Help,
            all: None,
            list_characters: None,
            payload: None,
            characters: None,
            worlds: None,
            event_names: None,
        }
    }
}

/// A hexadecimal digit character, lower case.
pub open spec fn hex_char(d: nat) -> char
    recommends
        d < 16,
{
    if d == 0 {
        '0'
    } else if d == 1 {
        '1'
    } else if d == 2 {
        '2'
    } else if d == 3 {
        '3'
    } else if d == 4 {
        '4'
    } else if d == 5 {
        '5'
    } else if d == 6 {
        '6'
    } else if d == 7 {
        '7'
    } else if d == 8 {
        '8'
    } else if d == 9 {
        '9'
    } else if d == 10 {
        'a'
    } else if d == 11 {
        'b'
    } else if d == 12 {
        'c'
    } else if d == 13 {
        'd'
    } else if d == 14 {
        'e'
    } else {
        'f'
    }
}

/// The JSON escape of one character: quotes, backslashes and the short
/// control escapes by name, other control characters by code, the rest as
/// they stand.
pub open spec fn esc_char(c: char) -> Seq<char> {
    if c == '"' {
        seq!['\\', '"']
    } else if c == '\\' {
        seq!['\\', '\\']
    } else if c as int == 8 {
        seq!['\\', 'b']
    } else if c as int == 9 {
        seq!['\\', 't']
    } else if c as int == 10 {
        seq!['\\', 'n']
    } else if c as int == 12 {
        seq!['\\', 'f']
    } else if c as int == 13 {
        seq!['\\', 'r']
    } else if (c as int) < 32 {
        seq!['\\', 'u', '0', '0', hex_char((c as int / 16) as nat), hex_char((c as int % 16) as nat)]
    } else {
        seq![c]
    }
}

/// A string's characters, each JSON-escaped.
pub open spec fn spec_escape(s: Seq<char>) -> Seq<char>
    decreases s.len(),
{
    if s.len() == 0 {
        Seq::empty()
    } else {
        spec_escape(s.drop_last()) + esc_char(s.last())
    }
}

/// A JSON string literal: quoted and escaped.
pub open spec fn spec_json_string(s: Seq<char>) -> Seq<char> {
    seq!['"'] + spec_escape(s) + seq!['"']
}

fn push_hex(out: &mut String, d: u32)
    requires
        d < 16,
    ensures
        final(out)@ == old(out)@.push(hex_char(d as nat)),
{
    proof {
        reveal_strlit("0");
        reveal_strlit("1");
        reveal_strlit("2");
        reveal_strlit("3");
        reveal_strlit("4");
        reveal_strlit("5");
        reveal_strlit("6");
        reveal_strlit("7");
        reveal_strlit("8");
        reveal_strlit("9");
        reveal_strlit("a");
        reveal_strlit("b");
        reveal_strlit("c");
        reveal_strlit("d");
        reveal_strlit("e");
        reveal_strlit("f");
    }
    match d {
        0 => out.append("0"),
        1 => out.append("1"),
        2 => out.append("2"),
        3 => out.append("3"),
        4 => out.append("4"),
        5 => out.append("5"),
        6 => out.append("6"),
        7 => out.append("7"),
        8 => out.append("8"),
        9 => out.append("9"),
        10 => out.append("a"),
        11 => out.append("b"),
        12 => out.append("c"),
        13 => out.append("d"),
        14 => out.append("e"),
        _ => out.append("f"),
    }
    proof {
        assert(out@ =~= old(out)@.push(hex_char(d as nat)));
    }
}

fn append_escaped(out: &mut String, s: &str)
    ensures
        final(out)@ == old(out)@ + spec_escape(s@),
{
    let n = s.unicode_len();
    let mut i: usize = 0;
    proof {
        assert(s@.take(0) =~= Seq::<char>::empty());
        assert(old(out)@ + spec_escape(s@.take(0)) =~= old(out)@);
    }
    while i < n
        invariant
            n == s@.len(),
            0 <= i <= n,
            out@ == old(out)@ + spec_escape(s@.take(i as int)),
        decreases n - i,
    {
        proof {
            reveal_strlit("\\\"");
            reveal_strlit("\\\\");
            reveal_strlit("\\b");
            reveal_strlit("\\t");
            reveal_strlit("\\n");
            reveal_strlit("\\f");
            reveal_strlit("\\r");
            reveal_strlit("\\u00");
        }
        let c = s.get_char(i);
        let ghost prev = out@;
        let code = c as u32;
        if code == 34 {
            out.append("\\\"");
        } else if code == 92 {
            out.append("\\\\");
        } else if code == 8 {
            out.append("\\b");
        } else if code == 9 {
            out.append("\\t");
        } else if code == 10 {
            out.append("\\n");
        } else if code == 12 {
            out.append("\\f");
        } else if code == 13 {
            out.append("\\r");
        } else if code < 32 {
            out.append("\\u00");
            push_hex(out, code / 16);
            push_hex(out, code % 16);
        } else {
            push_plain_char(out, c);
        }
        proof {
            assert(out@ =~= prev + esc_char(s@[i as int]));
            assert(s@.take(i + 1).drop_last() =~= s@.take(i as int));
            assert(s@.take(i + 1).last() == s@[i as int]);
            assert(out@ =~= old(out)@ + spec_escape(s@.take(i + 1)));
        }
        i = i + 1;
    }
    proof {
        assert(s@.take(n as int) =~= s@);
    }
}

/// Append a quoted, escaped JSON string.
fn append_json_string(out: &mut String, s: &str)
    ensures
        final(out)@ == old(out)@ + spec_json_string(s@),
{
    proof {
        reveal_strlit("\"");
    }
    out.append("\"");
    append_escaped(out, s);
    out.append("\"");
    proof {
        assert(out@ =~= old(out)@ + spec_json_string(s@));
    }
}


/// The wire text of a boolean.
pub open spec fn spec_bool_text(b: bool) -> Seq<char> {
    if b {
        "true"@
    } else {
        "false"@
    }
}

/// The comma-joined members of a JSON array of strings.
pub open spec fn spec_string_items(xs: Seq<String>) -> Seq<char>
    decreases xs.len(),
{
    if xs.len() == 0 {
        Seq::empty()
    } else if xs.len() == 1 {
        spec_json_string(xs[0]@)
    } else {
        spec_string_items(xs.drop_last()) + ","@ + spec_json_string(xs.last()@)
    }
}

/// A JSON array of strings.
pub open spec fn spec_string_array(xs: Seq<String>) -> Seq<char> {
    "["@ + spec_string_items(xs) + "]"@
}

/// The comma-joined members of a JSON array of world ids, sent as numbers.
pub open spec fn spec_world_items(xs: Seq<World>) -> Seq<char>
    decreases xs.len(),
{
    if xs.len() == 0 {
        Seq::empty()
    } else if xs.len() == 1 {
        dec_repr(xs[0].spec_code() as nat)
    } else {
        spec_world_items(xs.drop_last()) + ","@ + dec_repr(xs.last().spec_code() as nat)
    }
}

/// A JSON array of world ids.
pub open spec fn spec_world_array(xs: Seq<World>) -> Seq<char> {
    "["@ + spec_world_items(xs) + "]"@
}

/// The comma-joined members of a JSON array of event names.
pub open spec fn spec_event_items(xs: Seq<EventType>) -> Seq<char>
    decreases xs.len(),
{
    if xs.len() == 0 {
        Seq::empty()
    } else if xs.len() == 1 {
        "\""@ + xs[0].spec_name() + "\""@
    } else {
        spec_event_items(xs.drop_last()) + ",\""@ + xs.last().spec_name() + "\""@
    }
}

/// A JSON array of event names.
pub open spec fn spec_event_array(xs: Seq<EventType>) -> Seq<char> {
    "["@ + spec_event_items(xs) + "]"@
}

#[verifier::loop_isolation(false)]
fn append_string_array(out: &mut String, xs: &Vec<String>)
    ensures
        final(out)@ == old(out)@ + spec_string_array(xs@),
{
    out.append("[");
    let n = xs.len();
    let mut i: usize = 0;
    while i < n
        invariant
            n == xs@.len(),
            0 <= i <= n,
            out@ == old(out)@ + "["@ + spec_string_items(xs@.take(i as int)),
        decreases n - i,
    {
        if i > 0 {
            out.append(",");
        }
        append_json_string(out, xs[i].as_str());
        proof {
            assert(xs@.take(i + 1).drop_last() =~= xs@.take(i as int));
            assert(xs@.take(i + 1).last() == xs@[i as int]);
            assert(out@ =~= old(out)@ + "["@ + spec_string_items(xs@.take(i + 1)));
        }
        i = i + 1;
    }
    out.append("]");
    proof {
        assert(xs@.take(n as int) =~= xs@);
        assert(out@ =~= old(out)@ + spec_string_array(xs@));
    }
}

#[verifier::loop_isolation(false)]
fn append_world_array(out: &mut String, xs: &Vec<World>)
    ensures
        final(out)@ == old(out)@ + spec_world_array(xs@),
{
    out.append("[");
    let n = xs.len();
    let mut i: usize = 0;
    while i < n
        invariant
            n == xs@.len(),
            0 <= i <= n,
            out@ == old(out)@ + "["@ + spec_world_items(xs@.take(i as int)),
        decreases n - i,
    {
        if i > 0 {
            out.append(",");
        }
        let code_text = u64_to_text(xs[i].code() as u64);
        out.append(code_text.as_str());
        proof {
            assert(xs@.take(i + 1).drop_last() =~= xs@.take(i as int));
            assert(xs@.take(i + 1).last() == xs@[i as int]);
            assert(out@ =~= old(out)@ + "["@ + spec_world_items(xs@.take(i + 1)));
        }
        i = i + 1;
    }
    out.append("]");
    proof {
        assert(xs@.take(n as int) =~= xs@);
        assert(out@ =~= old(out)@ + spec_world_array(xs@));
    }
}

#[verifier::loop_isolation(false)]
fn append_event_array(out: &mut String, xs: &Vec<EventType>)
    ensures
        final(out)@ == old(out)@ + spec_event_array(xs@),
{
    out.append("[");
    let n = xs.len();
    let mut i: usize = 0;
    while i < n
        invariant
            n == xs@.len(),
            0 <= i <= n,
            out@ == old(out)@ + "["@ + spec_event_items(xs@.take(i as int)),
        decreases n - i,
    {
        if i > 0 {
            out.append(",");
        }
        out.append("\"");
        out.append(xs[i].wire_name());
        out.append("\"");
        proof {
            assert(xs@.take(i + 1).drop_last() =~= xs@.take(i as int));
            assert(xs@.take(i + 1).last() == xs@[i as int]);
            assert(",\""@ =~= ","@ + "\""@) by {
                reveal_strlit(",");
                reveal_strlit("\"");
                reveal_strlit(",\"");
            }
            assert(out@ =~= old(out)@ + "["@ + spec_event_items(xs@.take(i + 1)));
        }
        i = i + 1;
    }
    out.append("]");
    proof {
        assert(xs@.take(n as int) =~= xs@);
        assert(out@ =~= old(out)@ + spec_event_array(xs@));
    }
}

/// The full wire text of a request: the members in declaration order, the
/// optional ones only where present.
pub open spec fn spec_serialize(req: EventRequest) -> Seq<char> {
    "{\"service\":\""@ + req.service.spec_name() + "\",\"action\":\""@ + req.action.spec_name()
        + "\""@ + (match req.all {
        Some(b) => ",\"all\":"@ + spec_bool_text(b),
        None => Seq::empty(),
    }) + (match req.list_characters {
        Some(b) => ",\"listCharacters\":"@ + spec_bool_text(b),
        None => Seq::empty(),
    }) + (match req.payload {
        Some(p) => ",\"payload\":"@ + p@,
        None => Seq::empty(),
    }) + (match req.characters {
        Some(cs) => ",\"characters\":"@ + spec_string_array(cs@),
        None => Seq::empty(),
    }) + (match req.worlds {
        Some(ws) => ",\"worlds\":"@ + spec_world_array(ws@),
        None => Seq::empty(),
    }) + (match req.event_names {
        Some(es) => ",\"eventNames\":"@ + spec_event_array(es@),
        None => Seq::empty(),
    }) + "}"@
}

impl EventRequest {
    /// Serialize this request to its wire text.
    #[verifier::rlimit(50)]
    pub fn to_json(&self) -> (r: String)
        ensures
            r@ == spec_serialize(*self),
    {
        let mut out = String::new();
        out.append("{\"service\":\"");
        out.append(self.service.wire_name());
        out.append("\",\"action\":\"");
        out.append(self.action.wire_name());
        out.append("\"");
        let ghost head = "{\"service\":\""@ + self.service.spec_name() + "\",\"action\":\""@
            + self.action.spec_name() + "\""@;
        proof {
            assert(out@ =~= head);
        }
        match &self.all {
            Some(b) => {
                out.append(",\"all\":");
                if *b {
                    out.append("true");
                } else {
                    out.append("false");
                }
            },
            None => {},
        }
        let ghost s1 = head + (match self.all {
            Some(b) => ",\"all\":"@ + spec_bool_text(b),
            None => Seq::empty(),
        });
        proof {
            assert(out@ =~= s1);
        }
        match &self.list_characters {
            Some(b) => {
                out.append(",\"listCharacters\":");
                if *b {
                    out.append("true");
                } else {
                    out.append("false");
                }
            },
            None => {},
        }
        let ghost s2 = s1 + (match self.list_characters {
            Some(b) => ",\"listCharacters\":"@ + spec_bool_text(b),
            None => Seq::empty(),
        });
        proof {
            assert(out@ =~= s2);
        }
        match &self.payload {
            Some(p) => {
                out.append(",\"payload\":");
                out.append(p.as_str());
            },
            None => {},
        }
        let ghost s3 = s2 + (if self.payload is Some {
            ",\"payload\":"@ + (self.payload->Some_0)@
        } else {
            Seq::empty()
        });
        proof {
            assert(out@ =~= s3);
        }
        match &self.characters {
            Some(cs) => {
                out.append(",\"characters\":");
                append_string_array(&mut out, cs);
            },
            None => {},
        }
        let ghost s4 = s3 + (if self.characters is Some {
            ",\"characters\":"@ + spec_string_array((self.characters->Some_0)@)
        } else {
            Seq::empty()
        });
        proof {
            assert(out@ =~= s4);
        }
        match &self.worlds {
            Some(ws) => {
                out.append(",\"worlds\":");
                append_world_array(&mut out, ws);
            },
            None => {},
        }
        let ghost s5 = s4 + (if self.worlds is Some {
            ",\"worlds\":"@ + spec_world_array((self.worlds->Some_0)@)
        } else {
            Seq::empty()
        });
        proof {
            assert(out@ =~= s5);
        }
        match &self.event_names {
            Some(es) => {
                out.append(",\"eventNames\":");
                append_event_array(&mut out, es);
            },
            None => {},
        }
        let ghost s6 = s5 + (if self.event_names is Some {
            ",\"eventNames\":"@ + spec_event_array((self.event_names->Some_0)@)
        } else {
            Seq::empty()
        });
        proof {
            assert(out@ =~= s6);
        }
        out.append("}");
        proof {
            assert(out@ =~= s6 + "}"@);
            assert(spec_serialize(*self) =~= s6 + "}"@);
        }
        out
    }
}


/// The acknowledged state of a subscription, echoed back by the service.
#[derive(Debug, Clone)]
pub struct SubscriptionInfoEventResponse {
    pub character_count: Option<i32>,
    pub characters: Option<Vec<String>>,
    pub event_names: Vec<EventType>,
    pub logical_and_characters_with_worlds: bool,
    pub worlds: Vec<String>,
}

/// The response shapes that carry their own `type` discriminator.
#[derive(Debug)]
pub enum InternallyTaggedEventResponse {
    Heartbeat { service: Service, online: JsonNode },
    /// a message with data about an event you have subscribed to
    ServiceMessage { service: Service, payload: EventPayload },
    ServiceStateChanged { service: Service, online: bool, detail: String },
    ConnectionStateChanged { service: Service, connected: bool },
}

/// The response shapes named by their single outer key.
#[derive(Debug)]
pub enum ExternallyTaggedEventResponse {
    Subscription(SubscriptionInfoEventResponse),
}

/// The response shapes told apart only by which members are present.
#[derive(Debug)]
pub enum UntaggedEventResponse {
    HelpResponse { payload_examples: JsonNode, request_examples: JsonNode },
    HelpInfo { help_payload: JsonNode },
}

/// One classified response from the service.
#[derive(Debug)]
pub enum EventResponse {
    InternallyTagged(InternallyTaggedEventResponse),
    ExternallyTagged(ExternallyTaggedEventResponse),
    Untagged(UntaggedEventResponse),
}

/// The `service` member read as a service name.
pub open spec fn spec_field_service(fs: Seq<JsonEntry>) -> Option<Service> {
    match lookup_field(fs, "service"@) {
        Some(JsonNode::Text(s)) => Service::spec_from_name(s@),
        _ => None,
    }
}

fn field_service(fs: &Vec<JsonEntry>) -> (r: Option<Service>)
    ensures
        r == spec_field_service(fs@),
{
    match get_field(fs, "service") {
        Some(JsonNode::Text(s)) => Service::from_name(s.as_str()),
        _ => None,
    }
}

/// What reading a list of JSON strings yields: every member must be a
/// string.
pub open spec fn spec_strings_of(xs: Seq<JsonNode>) -> Option<Seq<String>>
    decreases xs.len(),
{
    if xs.len() == 0 {
        Some(Seq::empty())
    } else {
        match (spec_strings_of(xs.drop_last()), xs.last()) {
            (Some(r), JsonNode::Text(s)) => Some(r.push(s)),
            _ => None,
        }
    }
}

/// A non-string member anywhere makes the whole string list fail.
proof fn lemma_strings_of_bad(xs: Seq<JsonNode>, i: int)
    requires
        0 <= i < xs.len(),
        !(xs[i] is Text),
    ensures
        spec_strings_of(xs) is None,
    decreases xs.len(),
{
    if i < xs.len() - 1 {
        assert(xs.drop_last()[i] == xs[i]);
        lemma_strings_of_bad(xs.drop_last(), i);
    }
}

#[verifier::loop_isolation(false)]
fn strings_of_list(xs: &Vec<JsonNode>) -> (r: Option<Vec<String>>)
    ensures
        match r {
            Some(v) => spec_strings_of(xs@) == Some(v@),
            None => spec_strings_of(xs@) is None,
        },
{
    let n = xs.len();
    let mut out: Vec<String> = Vec::new();
    let mut i: usize = 0;
    while i < n
        invariant
            0 <= i <= n,
            spec_strings_of(xs@.take(i as int)) == Some(out@),
        decreases n - i,
    {
        match &xs[i] {
            JsonNode::Text(s) => {
                out.push(s.clone());
            },
            _ => {
                proof {
                    lemma_strings_of_bad(xs@, i as int);
                }
                return None;
            },
        }
        proof {
            assert(xs@.take(i + 1).drop_last() =~= xs@.take(i as int));
            assert(xs@.take(i + 1).last() == xs@[i as int]);
        }
        i = i + 1;
    }
    proof {
        assert(xs@.take(n as int) =~= xs@);
    }
    Some(out)
}

/// What reading a list of event names yields: every member must be a string
/// naming a known event kind.
pub open spec fn spec_event_types_of(xs: Seq<JsonNode>) -> Option<Seq<EventType>>
    decreases xs.len(),
{
    if xs.len() == 0 {
        Some(Seq::empty())
    } else {
        match (spec_event_types_of(xs.drop_last()), xs.last()) {
            (Some(r), JsonNode::Text(s)) => match EventType::spec_from_name(s@) {
                Some(t) => Some(r.push(t)),
                None => None,
            },
            _ => None,
        }
    }
}

/// A member that is no known event name makes the whole list fail.
proof fn lemma_event_types_of_bad(xs: Seq<JsonNode>, i: int)
    requires
        0 <= i < xs.len(),
        match xs[i] {
            JsonNode::Text(s) => EventType::spec_from_name(s@) is None,
            _ => true,
        },
    ensures
        spec_event_types_of(xs) is None,
    decreases xs.len(),
{
    if i < xs.len() - 1 {
        assert(xs.drop_last()[i] == xs[i]);
        lemma_event_types_of_bad(xs.drop_last(), i);
    }
}

#[verifier::loop_isolation(false)]
fn event_types_of_list(xs: &Vec<JsonNode>) -> (r: Option<Vec<EventType>>)
    ensures
        match r {
            Some(v) => spec_event_types_of(xs@) == Some(v@),
            None => spec_event_types_of(xs@) is None,
        },
{
    let n = xs.len();
    let mut out: Vec<EventType> = Vec::new();
    let mut i: usize = 0;
    while i < n
        invariant
            0 <= i <= n,
            spec_event_types_of(xs@.take(i as int)) == Some(out@),
        decreases n - i,
    {
        match &xs[i] {
            JsonNode::Text(s) => {
                match EventType::from_name(s.as_str()) {
                    Some(t) => {
                        out.push(t);
                    },
                    None => {
                        proof {
                            lemma_event_types_of_bad(xs@, i as int);
                        }
                        return None;
                    },
                }
            },
            _ => {
                proof {
                    lemma_event_types_of_bad(xs@, i as int);
                }
                return None;
            },
        }
        proof {
            assert(xs@.take(i + 1).drop_last() =~= xs@.take(i as int));
            assert(xs@.take(i + 1).last() == xs@[i as int]);
        }
        i = i + 1;
    }
    proof {
        assert(xs@.take(n as int) =~= xs@);
    }
    Some(out)
}

/// What the optional `characterCount` member yields: absent or null is no
/// count, a JSON number in range is that count, anything else fails the
/// whole subscription shape (the outer `None`).
pub open spec fn spec_sub_count(fs: Seq<JsonEntry>) -> Option<Option<i32>> {
    match lookup_field(fs, "characterCount"@) {
        None => Some(None),
        Some(JsonNode::Null) => Some(None),
        Some(JsonNode::Num(s)) => match parse_i32_spec(s@) {
            Some(v) => Some(Some(v)),
            None => None,
        },
        _ => None,
    }
}

/// What the optional `characters` member yields, in the same shape.
pub open spec fn spec_sub_characters(fs: Seq<JsonEntry>) -> Option<Option<Seq<String>>> {
    match lookup_field(fs, "characters"@) {
        None => Some(None),
        Some(JsonNode::Null) => Some(None),
        Some(JsonNode::List(xs)) => match spec_strings_of(xs@) {
            Some(v) => Some(Some(v)),
            None => None,
        },
        _ => None,
    }
}

/// What the required `eventNames` member yields.
pub open spec fn spec_sub_names(fs: Seq<JsonEntry>) -> Option<Seq<EventType>> {
    match lookup_field(fs, "eventNames"@) {
        Some(JsonNode::List(xs)) => spec_event_types_of(xs@),
        _ => None,
    }
}

/// What the required `logicalAndCharactersWithWorlds` member yields: a true
/// JSON boolean only.
pub open spec fn spec_sub_logical(fs: Seq<JsonEntry>) -> Option<bool> {
    match lookup_field(fs, "logicalAndCharactersWithWorlds"@) {
        Some(JsonNode::Bool(b)) => Some(b),
        _ => None,
    }
}

/// What the required `worlds` member yields.
pub open spec fn spec_sub_worlds(fs: Seq<JsonEntry>) -> Option<Seq<String>> {
    match lookup_field(fs, "worlds"@) {
        Some(JsonNode::List(xs)) => spec_strings_of(xs@),
        _ => None,
    }
}

/// The subscription members all read successfully.
pub open spec fn spec_subscription_parses(fs: Seq<JsonEntry>) -> bool {
    &&& spec_sub_count(fs) is Some
    &&& spec_sub_characters(fs) is Some
    &&& spec_sub_names(fs) is Some
    &&& spec_sub_logical(fs) is Some
    &&& spec_sub_worlds(fs) is Some
}

/// `s` carries exactly what the members say, the vectors compared by their
/// contents.
pub open spec fn spec_subscription_matches(
    fs: Seq<JsonEntry>,
    s: SubscriptionInfoEventResponse,
) -> bool {
    &&& spec_sub_count(fs) == Some(s.character_count)
    &&& match spec_sub_characters(fs) {
        Some(None) => s.characters is None,
        Some(Some(cs)) => s.characters is Some && (s.characters->Some_0)@ == cs,
        None => false,
    }
    &&& spec_sub_names(fs) == Some(s.event_names@)
    &&& spec_sub_logical(fs) == Some(s.logical_and_characters_with_worlds)
    &&& spec_sub_worlds(fs) == Some(s.worlds@)
}

/// The subscription members pin the record: any two records carrying them
/// agree on every member, the vectors compared by their contents.
pub proof fn lemma_subscription_matches_unique(
    fs: Seq<JsonEntry>,
    s1: SubscriptionInfoEventResponse,
    s2: SubscriptionInfoEventResponse,
)
    requires
        spec_subscription_matches(fs, s1),
        spec_subscription_matches(fs, s2),
    ensures
        s1.character_count == s2.character_count,
        s1.event_names@ == s2.event_names@,
        s1.logical_and_characters_with_worlds == s2.logical_and_characters_with_worlds,
        s1.worlds@ == s2.worlds@,
        s1.characters is Some <==> s2.characters is Some,
        s1.characters is Some ==> (s1.characters->Some_0)@ == (s2.characters->Some_0)@,
{
}

/// Read a subscription acknowledgment's members.
fn parse_subscription(fs: &Vec<JsonEntry>) -> (r: Option<SubscriptionInfoEventResponse>)
    ensures
        match r {
            Some(s) => spec_subscription_parses(fs@) && spec_subscription_matches(fs@, s),
            None => !spec_subscription_parses(fs@),
        },
{
    let character_count: Option<i32> = match get_field(fs, "characterCount") {
        None => None,
        Some(JsonNode::Null) => None,
        Some(JsonNode::Num(s)) => match parse_i32_text(s.as_str()) {
            Some(v) => Some(v),
            None => {
                return None;
            },
        },
        _ => {
            return None;
        },
    };
    let characters: Option<Vec<String>> = match get_field(fs, "characters") {
        None => None,
        Some(JsonNode::Null) => None,
        Some(JsonNode::List(xs)) => match strings_of_list(xs) {
            Some(v) => Some(v),
            None => {
                return None;
            },
        },
        _ => {
            return None;
        },
    };
    let event_names: Vec<EventType> = match get_field(fs, "eventNames") {
        Some(JsonNode::List(xs)) => match event_types_of_list(xs) {
            Some(v) => v,
            None => {
                return None;
            },
        },
        _ => {
            return None;
        },
    };
    let logical_and_characters_with_worlds: bool = match get_field(
        fs,
        "logicalAndCharactersWithWorlds",
    ) {
        Some(JsonNode::Bool(b)) => *b,
        _ => {
            return None;
        },
    };
    let worlds: Vec<String> = match get_field(fs, "worlds") {
        Some(JsonNode::List(xs)) => match strings_of_list(xs) {
            Some(v) => v,
            None => {
                return None;
            },
        },
        _ => {
            return None;
        },
    };
    Some(SubscriptionInfoEventResponse {
        character_count,
        characters,
        event_names,
        logical_and_characters_with_worlds,
        worlds,
    })
}

/// What the internally tagged attempt yields: the `type` member must name
/// one of the four shapes and that shape's members must read.
pub open spec fn spec_try_internal(fs: Seq<JsonEntry>) -> Option<InternallyTaggedEventResponse> {
    match lookup_field(fs, "type"@) {
        Some(JsonNode::Text(t)) => if t@ == "heartbeat"@ {
            match (spec_field_service(fs), lookup_field(fs, "online"@)) {
                (Some(svc), Some(n)) => Some(
                    InternallyTaggedEventResponse::Heartbeat { service: svc, online: n },
                ),
                _ => None,
            }
        } else if t@ == "serviceMessage"@ {
            match (spec_field_service(fs), lookup_field(fs, "payload"@)) {
                (Some(svc), Some(JsonNode::Object(pfs))) => match spec_parse_payload(pfs@) {
                    Some(p) => Some(
                        InternallyTaggedEventResponse::ServiceMessage {
                            service: svc,
                            payload: p,
                        },
                    ),
                    None => None,
                },
                _ => None,
            }
        } else if t@ == "serviceStateChanged"@ {
            match (spec_field_service(fs), spec_field_bool(fs, "online"@), spec_field_text(
                fs,
                "detail"@,
            )) {
                (Some(svc), Some(b), Some(d)) => Some(
                    InternallyTaggedEventResponse::ServiceStateChanged {
                        service: svc,
                        online: b,
                        detail: d,
                    },
                ),
                _ => None,
            }
        } else if t@ == "connectionStateChanged"@ {
            match (spec_field_service(fs), spec_field_bool(fs, "connected"@)) {
                (Some(svc), Some(b)) => Some(
                    InternallyTaggedEventResponse::ConnectionStateChanged {
                        service: svc,
                        connected: b,
                    },
                ),
                _ => None,
            }
        } else {
            None
        },
        _ => None,
    }
}

/// The externally tagged attempt applies: a single `subscription` member
/// holding an object whose members read.
pub open spec fn spec_external_applies(fs: Seq<JsonEntry>) -> bool {
    &&& fs.len() == 1
    &&& fs[0].key@ == "subscription"@
    &&& fs[0].value is Object
    &&& spec_subscription_parses((fs[0].value->Object_0)@)
}

/// What the untagged attempt yields: the help shapes, told apart by which
/// members are present.
pub open spec fn spec_try_untagged(fs: Seq<JsonEntry>) -> Option<UntaggedEventResponse> {
    if lookup_field(fs, "example event service message payloads"@) is Some && lookup_field(
        fs,
        "example messages to event service"@,
    ) is Some {
        Some(
            UntaggedEventResponse::HelpResponse {
                payload_examples: lookup_field(fs, "example event service message payloads"@).unwrap(),
                request_examples: lookup_field(fs, "example messages to event service"@).unwrap(),
            },
        )
    } else if lookup_field(fs, "send this for help"@) is Some {
        Some(
            UntaggedEventResponse::HelpInfo {
                help_payload: lookup_field(fs, "send this for help"@).unwrap(),
            },
        )
    } else {
        None
    }
}

/// Classification, as a relation between the candidate document and the
/// outcome: the three shape families are tried in a fixed order, and the
/// outcome is pinned by the first that applies; where none applies the
/// candidate is dropped. The subscription's vectors are pinned by their
/// contents.
pub open spec fn spec_classified(doc: JsonNode, r: Option<EventResponse>) -> bool {
    match doc {
        JsonNode::Object(fs) => spec_classified_fields(fs@, r),
        _ => r is None,
    }
}

/// The classification relation over an object's members.
pub open spec fn spec_classified_fields(fs: Seq<JsonEntry>, r: Option<EventResponse>) -> bool {
    if spec_try_internal(fs) is Some {
        r == Some(EventResponse::InternallyTagged(spec_try_internal(fs).unwrap()))
    } else if spec_external_applies(fs) {
        match r {
            Some(
                EventResponse::ExternallyTagged(ExternallyTaggedEventResponse::Subscription(s)),
            ) => spec_subscription_matches((fs[0].value->Object_0)@, s),
            _ => false,
        }
    } else if spec_try_untagged(fs) is Some {
        r == Some(EventResponse::Untagged(spec_try_untagged(fs).unwrap()))
    } else {
        r is None
    }
}

/// Classify one candidate message that has already parsed as JSON. The
/// shapes are tried in order: internally tagged, externally tagged,
/// untagged; a candidate matching none is dropped, never an error.
#[verifier::rlimit(100)]
pub fn classify(doc: JsonNode) -> (r: Option<EventResponse>)
    ensures
        spec_classified(doc, r),
{
    let mut fs = match doc {
        JsonNode::Object(f) => f,
        _ => {
            return None;
        },
    };
    let ghost orig = fs@;
    let type_text = field_text(&fs, "type");
    match type_text {
        Some(t) => {
            if str_eq_str(t.as_str(), "heartbeat") {
                match field_service(&fs) {
                    Some(svc) => {
                        match take_field(&mut fs, "online") {
                            Some(n) => {
                                return Some(
                                    EventResponse::InternallyTagged(
                                        InternallyTaggedEventResponse::Heartbeat {
                                            service: svc,
                                            online: n,
                                        },
                                    ),
                                );
                            },
                            None => {},
                        }
                    },
                    None => {},
                }
            } else if str_eq_str(t.as_str(), "serviceMessage") {
                match field_service(&fs) {
                    Some(svc) => {
                        match get_field(&fs, "payload") {
                            Some(JsonNode::Object(pfs)) => {
                                match parse_payload(pfs) {
                                    Some(p) => {
                                        return Some(
                                            EventResponse::InternallyTagged(
                                                InternallyTaggedEventResponse::ServiceMessage {
                                                    service: svc,
                                                    payload: p,
                                                },
                                            ),
                                        );
                                    },
                                    None => {},
                                }
                            },
                            _ => {},
                        }
                    },
                    None => {},
                }
            } else if str_eq_str(t.as_str(), "serviceStateChanged") {
                match (field_service(&fs), field_bool(&fs, "online"), field_text(&fs, "detail")) {
                    (Some(svc), Some(b), Some(d)) => {
                        return Some(
                            EventResponse::InternallyTagged(
                                InternallyTaggedEventResponse::ServiceStateChanged {
                                    service: svc,
                                    online: b,
                                    detail: d,
                                },
                            ),
                        );
                    },
                    _ => {},
                }
            } else if str_eq_str(t.as_str(), "connectionStateChanged") {
                match (field_service(&fs), field_bool(&fs, "connected")) {
                    (Some(svc), Some(b)) => {
                        return Some(
                            EventResponse::InternallyTagged(
                                InternallyTaggedEventResponse::ConnectionStateChanged {
                                    service: svc,
                                    connected: b,
                                },
                            ),
                        );
                    },
                    _ => {},
                }
            }
        },
        None => {},
    }
    if fs.len() == 1 {
        if string_eq_str(&fs[0].key, "subscription") {
            match &fs[0].value {
                JsonNode::Object(sfs) => {
                    match parse_subscription(sfs) {
                        Some(s) => {
                            return Some(
                                EventResponse::ExternallyTagged(
                                    ExternallyTaggedEventResponse::Subscription(s),
                                ),
                            );
                        },
                        None => {},
                    }
                },
                _ => {},
            }
        }
    }
    match take_field(&mut fs, "example event service message payloads") {
        Some(a) => {
            proof {
                assert(("example event service message payloads"@).len() == 38) by {
                    reveal_strlit("example event service message payloads");
                }
                assert(("example messages to event service"@).len() == 33) by {
                    reveal_strlit("example messages to event service");
                }
                assert(("send this for help"@).len() == 18) by {
                    reveal_strlit("send this for help");
                }
                assert(lookup_field(orig, "example event service message payloads"@) is Some);
            }
            match take_field(&mut fs, "example messages to event service") {
                Some(b) => {
                    proof {
                        assert(lookup_field(orig, "example messages to event service"@) is Some);
                        assert(spec_try_untagged(orig) is Some);
                    }
                    return Some(
                        EventResponse::Untagged(
                            UntaggedEventResponse::HelpResponse {
                                payload_examples: a,
                                request_examples: b,
                            },
                        ),
                    );
                },
                None => {},
            }
        },
        None => {},
    }
    proof {
        assert(("example event service message payloads"@).len() == 38) by {
            reveal_strlit("example event service message payloads");
        }
        assert(("send this for help"@).len() == 18) by {
            reveal_strlit("send this for help");
        }
    }
    match take_field(&mut fs, "send this for help") {
        Some(n) => {
            return Some(
                EventResponse::Untagged(UntaggedEventResponse::HelpInfo { help_payload: n }),
            );
        },
        None => {},
    }
    None
}

} // verus!
