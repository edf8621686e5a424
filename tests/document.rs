use floki::document::{index_node, parse_segment, resolve_key, split_key, Node};
use floki::paths::{is_absolute_path, join, parent};

fn s(x: &str) -> Node {
    Node::Str(x.to_string())
}

fn sample() -> Node {
    // {a: [10, 20, {b: "x"}]}
    Node::Mapping(vec![(s("a"), Node::Sequence(vec![Node::Int(10), Node::Int(20), Node::Mapping(vec![(s("b"), s("x"))])]))])
}

#[test]
fn key_path_reaches_nested_string() {
    assert_eq!(resolve_key(&sample(), "a.2.b"), Some("x".to_string()));
}

#[test]
fn key_path_out_of_range_fails() {
    assert_eq!(resolve_key(&sample(), "a.5"), None);
}

#[test]
fn key_path_absent_key_fails() {
    assert_eq!(resolve_key(&sample(), "a.2.c"), None);
}

#[test]
fn key_path_to_non_string_fails() {
    assert_eq!(resolve_key(&sample(), "a"), None);
    assert_eq!(resolve_key(&sample(), "a.0"), None);
}

#[test]
fn numeric_segment_indexes_mapping_by_integer_key() {
    let doc = Node::Mapping(vec![(Node::Int(3), s("three")), (s("3"), s("string three"))]);
    assert_eq!(resolve_key(&doc, "3"), Some("three".to_string()));
    let only_string_key = Node::Mapping(vec![(s("3"), s("string three"))]);
    assert_eq!(resolve_key(&only_string_key, "3"), None);
}

#[test]
fn first_of_repeated_keys_wins() {
    let doc = Node::Mapping(vec![(s("k"), s("one")), (s("k"), s("two"))]);
    assert_eq!(resolve_key(&doc, "k"), Some("one".to_string()));
}

#[test]
fn empty_key_path_addresses_empty_key() {
    let doc = Node::Mapping(vec![(s(""), s("blank"))]);
    assert_eq!(resolve_key(&doc, ""), Some("blank".to_string()));
    assert_eq!(resolve_key(&s("top"), ""), None);
}

#[test]
fn index_on_scalar_fails() {
    assert!(index_node(&s("x"), "0").is_none());
    assert!(index_node(&Node::Null, "a").is_none());
}

#[test]
fn key_is_split_at_every_dot() {
    assert_eq!(split_key("a.b.c"), vec!["a", "b", "c"]);
    assert_eq!(split_key(""), vec![""]);
    assert_eq!(split_key("a..b."), vec!["a", "", "b", ""]);
}

#[test]
fn segments_read_as_positions() {
    assert_eq!(parse_segment("0"), Some(0));
    assert_eq!(parse_segment("007"), Some(7));
    assert_eq!(parse_segment("+5"), Some(5));
    assert_eq!(parse_segment("+"), None);
    assert_eq!(parse_segment("-1"), None);
    assert_eq!(parse_segment(""), None);
    assert_eq!(parse_segment("1a"), None);
    assert_eq!(parse_segment("99999999999999999999999999"), None);
    assert_eq!(parse_segment("18446744073709551615"), Some(usize::MAX));
}

#[test]
fn path_parent_and_join() {
    assert_eq!(parent("/cfg/dir/floki.yaml"), Some("/cfg/dir".to_string()));
    assert_eq!(parent("floki.yaml"), Some("".to_string()));
    assert_eq!(parent("/floki.yaml"), Some("/".to_string()));
    assert_eq!(parent("/"), None);
    assert_eq!(parent(""), None);
    assert_eq!(join("/cfg/dir", "doc.yaml"), "/cfg/dir/doc.yaml");
    assert_eq!(join("/", "doc.yaml"), "/doc.yaml");
    assert_eq!(join("", "doc.yaml"), "doc.yaml");
    assert_eq!(join("/cfg", "/abs.yaml"), "/abs.yaml");
    assert!(is_absolute_path("/x"));
    assert!(!is_absolute_path("x"));
}
