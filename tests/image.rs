use floki::decode::{find_field, DecodeError};
use floki::document::Node;
use floki::errors::{FlokiError, SubprocessExitStatus};
use floki::image::{
    default_context, default_dockerfile, exists_from_exit, existence_probe, header_values, pull_command, pull_outcome,
    BuildSpec, ExecSpec, Image, YamlSpec,
};

fn s(x: &str) -> Node {
    Node::Str(x.to_string())
}

fn map(entries: Vec<(&str, Node)>) -> Node {
    Node::Mapping(entries.into_iter().map(|(k, v)| (s(k), v)).collect())
}

fn image_of(doc: &Node) -> Result<Image, DecodeError> {
    match doc {
        Node::Mapping(m) => Image::from_node(find_field(m, "image").unwrap()),
        _ => panic!("not a mapping"),
    }
}

fn strings(v: &[&str]) -> Vec<String> {
    v.iter().map(|x| x.to_string()).collect()
}

fn build_spec(target: Option<&str>) -> Image {
    Image::Build {
        build: BuildSpec {
            name: "foo".into(),
            dockerfile: "Dockerfile.test".into(),
            context: "./context".into(),
            target: target.map(|t| t.to_string()),
        },
    }
}

#[test]
fn test_image_spec_by_string() {
    // image: foo
    let doc = map(vec![("image", s("foo"))]);
    let expected = Image::Name("foo".into());
    let actual = image_of(&doc).unwrap();
    assert!(actual == expected);
}

#[test]
fn test_image_spec_by_build_spec() {
    let doc = map(vec![(
        "image",
        map(vec![(
            "build",
            map(vec![
                ("name", s("foo")),
                ("dockerfile", s("Dockerfile.test")),
                ("context", s("./context")),
                ("target", s("builder")),
            ]),
        )]),
    )]);
    let expected = build_spec(Some("builder"));
    let actual = image_of(&doc).unwrap();
    assert!(actual == expected);
}

#[test]
fn test_image_spec_by_exec_spec() {
    let doc = map(vec![(
        "image",
        map(vec![(
            "exec",
            map(vec![
                ("command", s("foo")),
                ("args", Node::Sequence(vec![s("build")])),
                ("image", s("foobuild:1.0.0")),
            ]),
        )]),
    )]);
    let expected = Image::Exec {
        exec_spec: ExecSpec { command: "foo".into(), args: vec!["build".into()], image: "foobuild:1.0.0".into() },
    };
    let actual = image_of(&doc).unwrap();
    assert!(actual == expected);
}

#[test]
fn test_serialize_url() {
    let doc = map(vec![(
        "image",
        map(vec![(
            "yaml",
            map(vec![
                ("url", s("https://example.com/example.yaml")),
                ("key", s("variables.RUST-IMAGE")),
                ("headers", map(vec![("PRIVATE-TOKEN", s("LOCAL_ENV_VARIABLE"))])),
            ]),
        )]),
    )]);
    let expected = Image::Yaml {
        yaml: YamlSpec::Url {
            url: "https://example.com/example.yaml".into(),
            key: "variables.RUST-IMAGE".into(),
            headers: Some(vec![("PRIVATE-TOKEN".into(), "LOCAL_ENV_VARIABLE".into())]),
        },
    };
    let actual = image_of(&doc).unwrap();
    assert!(actual == expected);
}

#[test]
fn url_is_kept_in_its_serialised_form() {
    let node = map(vec![("url", s("HTTPS://Example.COM")), ("key", s("a"))]);
    let yaml = YamlSpec::from_node(&node).unwrap();
    assert_eq!(yaml, YamlSpec::Url { url: "https://example.com/".into(), key: "a".into(), headers: None });
}

#[test]
fn url_that_does_not_parse_is_refused() {
    let node = map(vec![("url", s("not a url")), ("key", s("a"))]);
    assert_eq!(YamlSpec::from_node(&node), Err(DecodeError::BadField { field: "url".into() }));
}

#[test]
fn file_lookup_is_decoded() {
    let node = map(vec![("file", s("images.yaml")), ("key", s("a.b"))]);
    assert_eq!(
        YamlSpec::from_node(&node).unwrap(),
        YamlSpec::File { file: "images.yaml".into(), key: "a.b".into() }
    );
}

#[test]
fn file_and_url_together_are_ambiguous() {
    let node = map(vec![("file", s("x.yaml")), ("url", s("https://example.com/")), ("key", s("a"))]);
    assert_eq!(YamlSpec::from_node(&node), Err(DecodeError::AmbiguousShape));
}

#[test]
fn build_defaults_dockerfile_and_context() {
    let node = map(vec![("build", map(vec![("name", s("foo"))]))]);
    let expected = Image::Build {
        build: BuildSpec { name: "foo".into(), dockerfile: "Dockerfile".into(), context: ".".into(), target: None },
    };
    assert_eq!(Image::from_node(&node).unwrap(), expected);
    assert_eq!(default_dockerfile(), "Dockerfile");
    assert_eq!(default_context(), ".");
}

#[test]
fn build_and_exec_together_are_ambiguous() {
    let node = map(vec![
        ("build", map(vec![("name", s("foo"))])),
        ("exec", map(vec![("command", s("make")), ("args", Node::Sequence(vec![])), ("image", s("bar"))])),
    ]);
    assert_eq!(Image::from_node(&node), Err(DecodeError::AmbiguousShape));
}

#[test]
fn no_shape_matches() {
    assert_eq!(Image::from_node(&map(vec![("other", s("x"))])), Err(DecodeError::NoShapeMatched));
    assert_eq!(Image::from_node(&Node::Int(3)), Err(DecodeError::NoShapeMatched));
}

#[test]
fn build_without_name_is_refused() {
    let node = map(vec![("build", map(vec![("dockerfile", s("D"))]))]);
    assert_eq!(Image::from_node(&node), Err(DecodeError::BadField { field: "name".into() }));
}

#[test]
fn exec_with_non_string_arg_is_refused() {
    let node = map(vec![(
        "exec",
        map(vec![("command", s("make")), ("args", Node::Sequence(vec![Node::Int(1)])), ("image", s("bar"))]),
    )]);
    assert_eq!(Image::from_node(&node), Err(DecodeError::BadField { field: "args".into() }));
}

#[test]
fn build_name_carries_the_floki_tag() {
    let img = build_spec(None);
    assert_eq!(img.name(&vec![]).unwrap(), "foo:floki");
}

#[test]
fn name_is_the_same_twice() {
    let img = Image::Name("alpine:3".into());
    assert_eq!(img.name(&vec![]).unwrap(), img.name(&vec![]).unwrap());
    let build = build_spec(Some("t"));
    assert_eq!(build.name(&vec![]).unwrap(), build.name(&vec![s("ignored")]).unwrap());
}

#[test]
fn exec_name_is_the_declared_image() {
    let img = Image::Exec { exec_spec: ExecSpec { command: "make".into(), args: vec![], image: "built:1".into() } };
    assert_eq!(img.name(&vec![]).unwrap(), "built:1");
}

#[test]
fn lookup_name_reads_the_first_document() {
    let img = Image::Yaml { yaml: YamlSpec::File { file: "/cfg/images.yaml".into(), key: "a.2.b".into() } };
    let doc = map(vec![("a", Node::Sequence(vec![Node::Int(10), Node::Int(20), map(vec![("b", s("x"))])]))]);
    assert_eq!(img.name(&vec![doc]).unwrap(), "x");
}

#[test]
fn failed_lookup_names_key_and_source() {
    let img = Image::Yaml {
        yaml: YamlSpec::Url { url: "https://example.com/i.yaml".into(), key: "a.5".into(), headers: None },
    };
    let doc = map(vec![("a", Node::Sequence(vec![Node::Int(10)]))]);
    assert_eq!(
        img.name(&vec![doc]),
        Err(FlokiError::FailedToResolveKey { key: "a.5".into(), source: "https://example.com/i.yaml".into() })
    );
    assert!(img.name(&vec![]).is_err());
}

#[test]
fn build_command_with_target() {
    let cmd = build_spec(Some("builder")).acquisition_command("/root").unwrap();
    assert_eq!(cmd.program, "docker");
    assert_eq!(
        cmd.args,
        strings(&["build", "-t", "foo:floki", "-f", "/root/Dockerfile.test", "--target", "builder", "/root/./context"])
    );
}

#[test]
fn build_command_without_target() {
    let cmd = build_spec(None).acquisition_command("/root/").unwrap();
    assert_eq!(cmd.args, strings(&["build", "-t", "foo:floki", "-f", "/root/Dockerfile.test", "/root/./context"]));
}

#[test]
fn exec_command_is_the_declared_one() {
    let img = Image::Exec {
        exec_spec: ExecSpec { command: "make".into(), args: strings(&["image", "-j2"]), image: "built:1".into() },
    };
    let cmd = img.acquisition_command("/root").unwrap();
    assert_eq!(cmd.program, "make");
    assert_eq!(cmd.args, strings(&["image", "-j2"]));
    assert!(Image::Name("x".into()).acquisition_command("/root").is_none());
}

#[test]
fn build_exit_one_is_a_build_failure() {
    let img = build_spec(None);
    assert_eq!(
        img.obtain_outcome(Some(1), &vec![]),
        Err(FlokiError::FailedToBuildImage {
            image: "foo:floki".into(),
            exit_status: SubprocessExitStatus { process_description: "docker build".into(), code: Some(1) },
        })
    );
}

#[test]
fn build_exit_zero_gives_the_name() {
    assert_eq!(build_spec(None).obtain_outcome(Some(0), &vec![]).unwrap(), "foo:floki");
}

#[test]
fn exec_killed_by_signal_is_a_failure_naming_the_command() {
    let img = Image::Exec { exec_spec: ExecSpec { command: "make".into(), args: vec![], image: "built:1".into() } };
    assert_eq!(
        img.obtain_outcome(None, &vec![]),
        Err(FlokiError::FailedToBuildImage {
            image: "built:1".into(),
            exit_status: SubprocessExitStatus { process_description: "make".into(), code: None },
        })
    );
    assert_eq!(Image::Name("n".into()).obtain_outcome(None, &vec![]).unwrap(), "n");
}

#[test]
fn pull_command_and_outcome() {
    let cmd = pull_command("alpine:3");
    assert_eq!(cmd.program, "docker");
    assert_eq!(cmd.args, strings(&["pull", "alpine:3"]));
    assert_eq!(pull_outcome("alpine:3", Some(0)), Ok(()));
    assert_eq!(
        pull_outcome("alpine:3", Some(2)),
        Err(FlokiError::FailedToPullImage {
            image: "alpine:3".into(),
            exit_status: SubprocessExitStatus { process_description: "docker pull".into(), code: Some(2) },
        })
    );
}

#[test]
fn existence_probe_and_its_outcome() {
    let cmd = existence_probe();
    assert_eq!(cmd.program, "docker");
    assert_eq!(cmd.args, strings(&["history", "docker:stable-dind"]));
    assert!(exists_from_exit(Some(0)));
    assert!(!exists_from_exit(Some(1)));
    assert!(!exists_from_exit(None));
}

#[test]
fn unset_header_variable_fails_the_request() {
    let headers = vec![
        ("A".to_string(), "SET_VAR".to_string(), Some("v".to_string())),
        ("TOKEN".to_string(), "MY_VAR".to_string(), None),
        ("B".to_string(), "OTHER".to_string(), None),
    ];
    assert_eq!(header_values(&headers), Err(FlokiError::MissingEnvironmentVariable { name: "MY_VAR".into() }));
}

#[test]
fn set_header_variables_give_the_headers() {
    let headers = vec![
        ("TOKEN".to_string(), "MY_VAR".to_string(), Some("secret".to_string())),
        ("X".to_string(), "OTHER".to_string(), Some("y".to_string())),
    ];
    assert_eq!(
        header_values(&headers).unwrap(),
        vec![("TOKEN".to_string(), "secret".to_string()), ("X".to_string(), "y".to_string())]
    );
}

#[test]
fn relative_document_is_anchored_at_the_config_directory() {
    let mut img = Image::Yaml { yaml: YamlSpec::File { file: "images.yaml".into(), key: "k".into() } };
    img.anchor_document("/cfg/dir/floki.yaml").unwrap();
    assert_eq!(img, Image::Yaml { yaml: YamlSpec::File { file: "/cfg/dir/images.yaml".into(), key: "k".into() } });
}

#[test]
fn absolute_document_and_other_specs_stay() {
    let mut img = Image::Yaml { yaml: YamlSpec::File { file: "/abs/images.yaml".into(), key: "k".into() } };
    img.anchor_document("/cfg/dir/floki.yaml").unwrap();
    assert_eq!(img, Image::Yaml { yaml: YamlSpec::File { file: "/abs/images.yaml".into(), key: "k".into() } });
    let mut name = Image::Name("n".into());
    name.anchor_document("/").unwrap();
    assert_eq!(name, Image::Name("n".into()));
}

#[test]
fn config_file_without_parent_cannot_anchor() {
    let mut img = Image::Yaml { yaml: YamlSpec::File { file: "images.yaml".into(), key: "k".into() } };
    let r = img.anchor_document("/");
    assert!(matches!(r, Err(FlokiError::InternalAssertionFailed { .. })));
}
