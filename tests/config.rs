use floki::config::{default_entrypoint, default_mount, default_shell, default_to_false, DindConfig, Entrypoint, FlokiConfig, Shell};
use floki::decode::{find_field, DecodeError};
use floki::document::Node;
use floki::image::Image;

fn s(x: &str) -> Node {
    Node::Str(x.to_string())
}

fn map(entries: Vec<(&str, Node)>) -> Node {
    Node::Mapping(entries.into_iter().map(|(k, v)| (s(k), v)).collect())
}

fn field<'a>(doc: &'a Node, name: &str) -> &'a Node {
    match doc {
        Node::Mapping(m) => find_field(m, name).unwrap(),
        _ => panic!("not a mapping"),
    }
}

#[test]
fn test_single_shell_config() {
    // shell: bash
    let doc = map(vec![("shell", s("bash"))]);
    let expected = Shell::Shell("bash".into());
    let actual = Shell::from_node(field(&doc, "shell")).unwrap();
    assert!(actual == expected);
}

#[test]
fn test_two_shell_config() {
    // shell:
    //   outer: sh
    //   inner: bash
    let doc = map(vec![("shell", map(vec![("outer", s("sh")), ("inner", s("bash"))]))]);
    let expected = Shell::TwoShell { inner: "bash".into(), outer: "sh".into() };
    let actual = Shell::from_node(field(&doc, "shell")).unwrap();
    assert!(actual == expected);
    assert_eq!(actual.inner_shell(), "bash");
    assert_eq!(actual.outer_shell(), "sh");
}

#[test]
fn test_dind_enabled_config() {
    let doc = map(vec![("dind", Node::Bool(true))]);
    let actual = DindConfig::from_node(field(&doc, "dind")).unwrap();
    assert_eq!(actual, DindConfig::Toggle(true));
}

#[test]
fn test_dind_image_config() {
    let doc = map(vec![("dind", map(vec![("image", s("dind:custom"))]))]);
    let actual = DindConfig::from_node(field(&doc, "dind")).unwrap();
    assert_eq!(actual, DindConfig::Image { image: "dind:custom".into() });
}

#[test]
fn test_entrypoint_suppress() {
    let doc = map(vec![("entrypoint", map(vec![("suppress", Node::Bool(true))]))]);
    let actual = Entrypoint::from_node(field(&doc, "entrypoint")).unwrap();
    assert_eq!(actual, Entrypoint::Suppress { suppress: true });
    assert_eq!(actual.value(), Some(""));
}

#[test]
fn test_entrypoint_no_suppress() {
    let doc = map(vec![("entrypoint", map(vec![("suppress", Node::Bool(false))]))]);
    let actual = Entrypoint::from_node(field(&doc, "entrypoint")).unwrap();
    assert_eq!(actual, Entrypoint::Suppress { suppress: false });
    assert_eq!(actual.value(), None);
}

#[test]
fn single_shell_is_both_shells() {
    let sh = Shell::Shell("zsh".into());
    assert_eq!(sh.inner_shell(), "zsh");
    assert_eq!(sh.outer_shell(), "zsh");
}

#[test]
fn defaults_are_as_documented() {
    assert_eq!(default_shell(), Shell::Shell("sh".into()));
    assert_eq!(default_mount(), "/src");
    assert!(!default_to_false());
    assert_eq!(default_entrypoint(), Entrypoint::Suppress { suppress: true });
    assert_eq!(DindConfig::deactivated(), DindConfig::Toggle(false));
}

#[test]
fn shell_of_wrong_kind_is_refused() {
    assert_eq!(Shell::from_node(&Node::Bool(true)), None);
    assert_eq!(Shell::from_node(&map(vec![("inner", s("bash"))])), None);
    assert_eq!(DindConfig::from_node(&s("yes")), None);
    assert_eq!(Entrypoint::from_node(&map(vec![("suppress", s("true"))])), None);
}

#[test]
fn minimal_config_takes_defaults() {
    let doc = map(vec![("image", s("alpine:3"))]);
    let cfg = FlokiConfig::from_node(&doc).unwrap();
    assert_eq!(cfg.image, Image::Name("alpine:3".into()));
    assert_eq!(cfg.shell, Shell::Shell("sh".into()));
    assert_eq!(cfg.mount, "/src");
    assert_eq!(cfg.dind, DindConfig::Toggle(false));
    assert_eq!(cfg.entrypoint, Entrypoint::Suppress { suppress: true });
    assert!(cfg.init.is_empty());
    assert!(cfg.docker_switches.is_empty());
    assert!(!cfg.forward_ssh_agent);
    assert!(!cfg.forward_user);
    assert!(cfg.volumes.is_empty());
}

#[test]
fn full_config_is_read() {
    let doc = map(vec![
        ("image", s("alpine:3")),
        ("init", Node::Sequence(vec![s("echo hi")])),
        ("shell", map(vec![("inner", s("bash")), ("outer", s("sh"))])),
        ("mount", s("/work")),
        ("docker_switches", Node::Sequence(vec![s("--rm")])),
        ("forward_ssh_agent", Node::Bool(true)),
        ("dind", Node::Bool(true)),
        ("forward_user", Node::Bool(true)),
        ("volumes", map(vec![("cache", map(vec![("shared", Node::Bool(true)), ("mount", s("/cache"))]))])),
        ("entrypoint", map(vec![("suppress", Node::Bool(false))])),
    ]);
    let cfg = FlokiConfig::from_node(&doc).unwrap();
    assert_eq!(cfg.init, vec!["echo hi".to_string()]);
    assert_eq!(cfg.mount, "/work");
    assert_eq!(cfg.docker_switches, vec!["--rm".to_string()]);
    assert!(cfg.forward_ssh_agent && cfg.forward_user);
    assert_eq!(cfg.dind, DindConfig::Toggle(true));
    assert_eq!(cfg.volumes.len(), 1);
    assert_eq!(cfg.volumes[0].0, "cache");
    assert!(cfg.volumes[0].1.shared);
    assert_eq!(cfg.volumes[0].1.mount, "/cache");
    assert_eq!(cfg.entrypoint.value(), None);
}

#[test]
fn unknown_config_field_is_refused() {
    let doc = map(vec![("image", s("alpine:3")), ("colour", s("blue"))]);
    assert_eq!(FlokiConfig::from_node(&doc), Err(DecodeError::UnknownField { field: "colour".into() }));
}

#[test]
fn config_without_image_is_refused() {
    let doc = map(vec![("mount", s("/work"))]);
    assert!(FlokiConfig::from_node(&doc).is_err());
    assert!(FlokiConfig::from_node(&s("image")).is_err());
}

#[test]
fn volume_without_mount_is_refused() {
    let doc = map(vec![("image", s("alpine:3")), ("volumes", map(vec![("cache", map(vec![("shared", Node::Bool(true))]))]))]);
    assert_eq!(FlokiConfig::from_node(&doc), Err(DecodeError::BadField { field: "mount".into() }));
}

#[test]
fn init_of_wrong_kind_is_refused() {
    let doc = map(vec![("image", s("alpine:3")), ("init", s("echo hi"))]);
    assert_eq!(FlokiConfig::from_node(&doc), Err(DecodeError::BadField { field: "init".into() }));
}
