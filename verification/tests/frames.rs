use ps2events::frames::split;

#[test]
fn split_empty_buffer_yields_nothing() {
    let parts = split(b"");
    assert_eq!(parts.len(), 0);
}

#[test]
fn split_single_document_yields_it_whole() {
    let doc = br#"{"type":"heartbeat","service":"event","online":"true"}"#;
    let parts = split(doc);
    assert_eq!(parts.len(), 1);
    assert_eq!(parts[0], doc.to_vec());
}

#[test]
fn split_two_concatenated_documents_yields_both_in_order() {
    let a = br#"{"a":"1"}"#.to_vec();
    let b = br#"{"b":"2"}"#.to_vec();
    let mut joined = a.clone();
    joined.extend_from_slice(&b);
    let parts = split(&joined);
    assert_eq!(parts.len(), 2);
    assert_eq!(parts[0], a);
    assert_eq!(parts[1], b);
}

#[test]
fn split_three_concatenated_documents_keeps_order() {
    let docs: Vec<Vec<u8>> = vec![
        br#"{"n":"1"}"#.to_vec(),
        br#"{"n":"2"}"#.to_vec(),
        br#"{"n":"3"}"#.to_vec(),
    ];
    let mut joined: Vec<u8> = Vec::new();
    for d in &docs {
        joined.extend_from_slice(d);
    }
    let parts = split(&joined);
    assert_eq!(parts.len(), 3);
    for (p, d) in parts.iter().zip(docs.iter()) {
        assert_eq!(p, d);
    }
}

#[test]
fn split_without_boundary_yields_nothing() {
    assert_eq!(split(b"hello world").len(), 0);
    assert_eq!(split(br#"{"open":"unfinished""#).len(), 0);
}

#[test]
fn split_is_a_heuristic_a_brace_pair_inside_a_string_splits_too() {
    // Known limitation, kept on purpose: the splitter does not track
    // string literals, so a "}{" inside a quoted value is taken as a
    // boundary and produces a false split.
    let doc = br#"{"x":"}{"}"#;
    let parts = split(doc);
    assert_eq!(parts.len(), 2);
    assert_eq!(parts[0], br#"{"x":"}"#.to_vec());
    assert_eq!(parts[1], br#"{"}"#.to_vec());
}
