//! A plain tree of JSON data that the verified logic can read, and the
//! trusted bridge that fills it by calling `serde_json`.
//!
//! The parser itself is the outside crate's work; everything after the parse
//! — field lookup, number and boolean coercion, shape classification — is
//! verified code over [`JsonNode`].

use vstd::prelude::*;

use crate::text::{parse_i32_spec, parse_u32_spec, parse_u64_spec, parse_i32_text, parse_u32_text,
    parse_u64_text};
use crate::text::push_plain_char;

verus! {

/// One member of a JSON object.
#[derive(Debug)]
pub struct JsonEntry {
    pub key: String,
    pub value: JsonNode,
}

/// A JSON document as plain values. A number is carried as its canonical
/// decimal text, which is how this wire format sends nearly everything.
#[derive(Debug)]
pub enum JsonNode {
    Null,
    Bool(bool),
    Num(String),
    Text(String),
    List(Vec<JsonNode>),
    Object(Vec<JsonEntry>),
}

/// Declares `serde_json::Value` so the conversion below can take one; the
/// value itself stays opaque to the verifier.
#[verifier::external_type_specification]
#[verifier::external_body]
pub struct ExValue(serde_json::Value);

/// What `serde_json` yields for a byte string: `None` where the bytes are
/// not one valid JSON document, otherwise the document as a [`JsonNode`].
/// The result depends on the bytes alone.
pub uninterp spec fn json_doc(b: Seq<u8>) -> Option<JsonNode>;

/// Relies on `serde_json::Value`: carries each variant of the parsed value
/// over one for one; object members keep the order `serde_json`'s map
/// iterates them in (sorted by key, duplicates already collapsed).
#[verifier::external_body]
fn node_of_value(v: &serde_json::Value) -> JsonNode {
    match v {
        serde_json::Value::Null => JsonNode::Null,
        serde_json::Value::Bool(b) => JsonNode::Bool(*b),
        serde_json::Value::Number(n) => JsonNode::Num(n.to_string()),
        serde_json::Value::String(s) => JsonNode::Text(s.clone()),
        serde_json::Value::Array(a) => JsonNode::List(a.iter().map(node_of_value).collect()),
        serde_json::Value::Object(m) => JsonNode::Object(
            m.iter().map(|(k, x)| JsonEntry { key: k.clone(), value: node_of_value(x) }).collect(),
        ),
    }
}

/// Relies on `serde_json::from_slice`: parses one JSON document from bytes,
/// deterministically in the bytes.
#[verifier::external_body]
pub fn parse_json(bytes: &[u8]) -> (r: Option<JsonNode>)
    ensures
        r == json_doc(bytes@),
{
    match serde_json::from_slice::<serde_json::Value>(bytes) {
        Ok(v) => Some(node_of_value(&v)),
        Err(_) => None,
    }
}

/// The value under `key` among the members `fs`, first match.
pub open spec fn lookup_field(fs: Seq<JsonEntry>, key: Seq<char>) -> Option<JsonNode>
    decreases fs.len(),
{
    if fs.len() == 0 {
        None
    } else if fs[0].key@ == key {
        Some(fs[0].value)
    } else {
        lookup_field(fs.drop_first(), key)
    }
}

/// String equality against a key, by view.
pub fn string_eq_str(a: &String, b: &str) -> (r: bool)
    ensures
        r == (a@ == b@),
{
    *a == b.to_owned()
}

/// Look a key up among an object's members.
pub fn get_field<'a>(fs: &'a Vec<JsonEntry>, key: &str) -> (r: Option<&'a JsonNode>)
    ensures
        match r {
            Some(n) => lookup_field(fs@, key@) == Some(*n),
            None => lookup_field(fs@, key@) is None,
        },
{
    let n = fs.len();
    let mut i: usize = 0;
    proof {
        assert(fs@.skip(0) =~= fs@);
    }
    while i < n
        invariant
            n == fs@.len(),
            0 <= i <= n,
            lookup_field(fs@, key@) == lookup_field(fs@.skip(i as int), key@),
        decreases n - i,
    {
        proof {
            assert(fs@.skip(i as int)[0] == fs@[i as int]);
            assert(fs@.skip(i as int).drop_first() =~= fs@.skip(i + 1));
        }
        if string_eq_str(&fs[i].key, key) {
            return Some(&fs[i].value);
        }
        i = i + 1;
    }
    proof {
        assert(fs@.skip(n as int) =~= Seq::<JsonEntry>::empty());
    }
    None
}

/// Equality of two string slices, by view.
pub fn str_eq_str(a: &str, b: &str) -> (r: bool)
    ensures
        r == (a@ == b@),
{
    a.to_owned() == b.to_owned()
}

/// Removing an entry whose key is not `other` leaves the first match for
/// `other` unchanged.
proof fn lemma_lookup_after_remove(fs: Seq<JsonEntry>, i: int, other: Seq<char>)
    requires
        0 <= i < fs.len(),
        fs[i].key@ != other,
    ensures
        lookup_field(fs.remove(i), other) == lookup_field(fs, other),
    decreases fs.len(),
{
    if fs.len() > 0 {
        if i == 0 {
            assert(fs.remove(0) =~= fs.drop_first());
        } else {
            assert(fs.remove(i)[0] == fs[0]);
            assert(fs.remove(i).drop_first() =~= fs.drop_first().remove(i - 1));
            lemma_lookup_after_remove(fs.drop_first(), i - 1, other);
        }
    }
}

/// The first match for `key` stands at the first index whose key agrees.
proof fn lemma_lookup_at_first(fs: Seq<JsonEntry>, i: int, key: Seq<char>)
    requires
        0 <= i < fs.len(),
        forall|k: int| 0 <= k < i ==> (#[trigger] fs[k]).key@ != key,
        fs[i].key@ == key,
    ensures
        lookup_field(fs, key) == Some(fs[i].value),
    decreases i,
{
    if i > 0 {
        assert(fs.drop_first()[i - 1] == fs[i]);
        assert(forall|k: int| 0 <= k < i - 1 ==> (#[trigger] fs.drop_first()[k]).key@ != key);
        lemma_lookup_at_first(fs.drop_first(), i - 1, key);
    }
}

/// Take the first entry under `key` out of an object's members, handing its
/// value over untouched; entries under every other key keep their place in
/// the lookup order.
pub fn take_field(fs: &mut Vec<JsonEntry>, key: &str) -> (r: Option<JsonNode>)
    ensures
        r == lookup_field(old(fs)@, key@),
        r is None ==> final(fs)@ == old(fs)@,
        forall|other: Seq<char>|
            other != key@ ==> #[trigger] lookup_field(final(fs)@, other) == lookup_field(
                old(fs)@,
                other,
            ),
{
    let n = fs.len();
    let mut i: usize = 0;
    proof {
        assert(fs@.skip(0) =~= fs@);
    }
    while i < n
        invariant
            fs@ == old(fs)@,
            n == fs@.len(),
            0 <= i <= n,
            forall|k: int| 0 <= k < i ==> (#[trigger] fs@[k]).key@ != key@,
            lookup_field(fs@, key@) == lookup_field(fs@.skip(i as int), key@),
        decreases n - i,
    {
        proof {
            assert(fs@.skip(i as int)[0] == fs@[i as int]);
            assert(fs@.skip(i as int).drop_first() =~= fs@.skip(i + 1));
        }
        if string_eq_str(&fs[i].key, key) {
            let ghost before = fs@;
            let entry = fs.remove(i);
            proof {
                lemma_lookup_at_first(before, i as int, key@);
                assert forall|other: Seq<char>| other != key@ implies #[trigger] lookup_field(
                    fs@,
                    other,
                ) == lookup_field(before, other) by {
                    lemma_lookup_after_remove(before, i as int, other);
                }
            }
            return Some(entry.value);
        }
        i = i + 1;
    }
    proof {
        assert(fs@.skip(n as int) =~= Seq::<JsonEntry>::empty());
    }
    None
}

/// What coercing a node to a `u64` yields: digits from a JSON string or a
/// JSON number, as the wire sends numbers both ways.
pub open spec fn spec_u64_of_node(n: JsonNode) -> Option<u64> {
    match n {
        JsonNode::Text(s) => parse_u64_spec(s@),
        JsonNode::Num(s) => parse_u64_spec(s@),
        _ => None,
    }
}

/// Coerce a node to a `u64`.
pub fn u64_of_node(n: &JsonNode) -> (r: Option<u64>)
    ensures
        r == spec_u64_of_node(*n),
{
    match n {
        JsonNode::Text(s) => parse_u64_text(s.as_str()),
        JsonNode::Num(s) => parse_u64_text(s.as_str()),
        _ => None,
    }
}

/// What coercing a node to a `u32` yields.
pub open spec fn spec_u32_of_node(n: JsonNode) -> Option<u32> {
    match n {
        JsonNode::Text(s) => parse_u32_spec(s@),
        JsonNode::Num(s) => parse_u32_spec(s@),
        _ => None,
    }
}

/// Coerce a node to a `u32`.
pub fn u32_of_node(n: &JsonNode) -> (r: Option<u32>)
    ensures
        r == spec_u32_of_node(*n),
{
    match n {
        JsonNode::Text(s) => parse_u32_text(s.as_str()),
        JsonNode::Num(s) => parse_u32_text(s.as_str()),
        _ => None,
    }
}

/// Lower-case an upper-case ASCII letter, leave all else alone.
pub open spec fn ascii_lower_char(c: char) -> char {
    if 65 <= c as int && c as int <= 90 {
        ((c as int) + 32) as char
    } else {
        c
    }
}

/// The string with its ASCII letters lowered.
pub open spec fn ascii_lower(s: Seq<char>) -> Seq<char> {
    s.map_values(|c: char| ascii_lower_char(c))
}

/// What coercing a node to a boolean yields. A true JSON boolean passes as
/// itself; the texts `true` and `false` in any ASCII case pass; integer
/// texts equal to one or zero pass, as do `1.0` and `0.0`, whether sent
/// quoted or bare.
pub open spec fn spec_bool_of_node(n: JsonNode) -> Option<bool> {
    match n {
        JsonNode::Bool(b) => Some(b),
        JsonNode::Text(s) => spec_bool_of_text(s@),
        JsonNode::Num(s) => spec_bool_of_text(s@),
        _ => None,
    }
}

/// The boolean a piece of text stands for, if any.
pub open spec fn spec_bool_of_text(s: Seq<char>) -> Option<bool> {
    if ascii_lower(s) == "true"@ || parse_i32_spec(s) == Some(1i32) || s == "1.0"@ {
        Some(true)
    } else if ascii_lower(s) == "false"@ || parse_i32_spec(s) == Some(0i32) || s == "0.0"@ {
        Some(false)
    } else {
        None
    }
}

/// Lower the ASCII letters of a string.
fn ascii_lower_text(s: &str) -> (r: String)
    ensures
        r@ == ascii_lower(s@),
{
    let n = s.unicode_len();
    let mut out = String::new();
    let mut i: usize = 0;
    while i < n
        invariant
            n == s@.len(),
            0 <= i <= n,
            out@ == ascii_lower(s@.take(i as int)),
        decreases n - i,
    {
        let c = s.get_char(i);
        let code = c as u32;
        if 65 <= code && code <= 90 {
            push_lower_letter(&mut out, code);
        } else {
            push_plain_char(&mut out, c);
        }
        proof {
            assert(ascii_lower(s@.take(i + 1)) =~= ascii_lower(s@.take(i as int)).push(
                ascii_lower_char(s@[i as int]),
            ));
        }
        i = i + 1;
    }
    proof {
        assert(s@.take(n as int) =~= s@);
    }
    out
}

/// Append the lower-case form of an upper-case ASCII letter given by code.
fn push_lower_letter(s: &mut String, code: u32)
    requires
        65 <= code <= 90,
    ensures
        final(s)@ == old(s)@.push(((code + 32) as int) as char),
{
    proof {
        reveal_strlit("a");
        reveal_strlit("b");
        reveal_strlit("c");
        reveal_strlit("d");
        reveal_strlit("e");
        reveal_strlit("f");
        reveal_strlit("g");
        reveal_strlit("h");
        reveal_strlit("i");
        reveal_strlit("j");
        reveal_strlit("k");
        reveal_strlit("l");
        reveal_strlit("m");
        reveal_strlit("n");
        reveal_strlit("o");
        reveal_strlit("p");
        reveal_strlit("q");
        reveal_strlit("r");
        reveal_strlit("s");
        reveal_strlit("t");
        reveal_strlit("u");
        reveal_strlit("v");
        reveal_strlit("w");
        reveal_strlit("x");
        reveal_strlit("y");
        reveal_strlit("z");
    }
    match code {
        65 => s.append("a"),
        66 => s.append("b"),
        67 => s.append("c"),
        68 => s.append("d"),
        69 => s.append("e"),
        70 => s.append("f"),
        71 => s.append("g"),
        72 => s.append("h"),
        73 => s.append("i"),
        74 => s.append("j"),
        75 => s.append("k"),
        76 => s.append("l"),
        77 => s.append("m"),
        78 => s.append("n"),
        79 => s.append("o"),
        80 => s.append("p"),
        81 => s.append("q"),
        82 => s.append("r"),
        83 => s.append("s"),
        84 => s.append("t"),
        85 => s.append("u"),
        86 => s.append("v"),
        87 => s.append("w"),
        88 => s.append("x"),
        89 => s.append("y"),
        _ => s.append("z"),
    }
    proof {
        assert(s@ =~= old(s)@.push(((code + 32) as int) as char));
    }
}

/// Coerce a node to a boolean.
pub fn bool_of_node(n: &JsonNode) -> (r: Option<bool>)
    ensures
        r == spec_bool_of_node(*n),
{
    match n {
        JsonNode::Bool(b) => Some(*b),
        JsonNode::Text(s) => bool_of_text(s.as_str()),
        JsonNode::Num(s) => bool_of_text(s.as_str()),
        _ => None,
    }
}

fn bool_of_text(s: &str) -> (r: Option<bool>)
    ensures
        r == spec_bool_of_text(s@),
{
    let lowered = ascii_lower_text(s);
    let own = s.to_owned();
    let numeric = parse_i32_text(s);
    if string_eq_str(&lowered, "true") || numeric == Some(1) || string_eq_str(&own, "1.0") {
        Some(true)
    } else if string_eq_str(&lowered, "false") || numeric == Some(0) || string_eq_str(
        &own,
        "0.0",
    ) {
        Some(false)
    } else {
        None
    }
}

} // verus!
