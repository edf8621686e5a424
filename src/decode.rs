//! Decoding an image specification from a parsed document by its shape: which
//! fields a mapping holds decides the variant, with no tag to say it.
use vstd::prelude::*;
use crate::document::{Node, lookup_str, key_matches_str};
use crate::image::{BuildSpec, ExecSpec, Image, YamlSpec, views};

verus! {

#[derive(Debug, PartialEq, Eq)]
pub enum DecodeError {
    /// The value has none of the shapes of a specification.
    NoShapeMatched,
    /// The value holds the fields of more than one shape.
    AmbiguousShape,
    /// A field is missing, or holds a value of the wrong kind.
    BadField { field: String },
    /// The configuration holds a field that it does not define.
    UnknownField { field: String },
}

/// The serialisation of `s` as a URL, where it parses as an absolute one.
pub uninterp spec fn parsed_url(s: Seq<char>) -> Option<Seq<char>>;

/// Relies on `url::Url::parse` to accept an absolute URL, and on `Url::as_str` for
/// its serialisation.
#[verifier::external_body]
fn parse_url(s: &str) -> (r: Option<String>)
    ensures
        match parsed_url(s@) {
            Some(u) => r is Some && r->0@ == u,
            None => r is None,
        },
{
    url::Url::parse(s).ok().map(|u| u.as_str().to_owned())
}

/// The text of a string scalar.
pub open spec fn text(n: Option<Node>) -> Option<Seq<char>> {
    match n {
        Some(Node::Str(s)) => Some(s@),
        _ => None,
    }
}

/// A field that may be left out (or null): its text, `None` where it is left out,
/// and no value at all where it holds something other than a string.
pub open spec fn optional_text(n: Option<Node>) -> Option<Option<Seq<char>>> {
    match n {
        None => Some(None),
        Some(Node::Null) => Some(None),
        Some(Node::Str(s)) => Some(Some(s@)),
        _ => None,
    }
}

/// The string field `name` of a mapping, or `dflt` where it is left out.
pub open spec fn text_or(m: Seq<(Node, Node)>, name: Seq<char>, dflt: Seq<char>) -> Option<Seq<char>> {
    match lookup_str(m, name) {
        None => Some(dflt),
        Some(Node::Str(s)) => Some(s@),
        _ => None,
    }
}

pub open spec fn holds_field(m: Seq<(Node, Node)>, name: Seq<char>) -> bool {
    lookup_str(m, name) is Some
}

pub open spec fn opt_node(n: Option<&Node>) -> Option<Node> {
    match n {
        Some(x) => Some(*x),
        None => None,
    }
}

pub open spec fn opt_view(o: Option<String>) -> Option<Seq<char>> {
    match o {
        Some(s) => Some(s@),
        None => None,
    }
}

/// `b` is what the build mapping `n` decodes to; `None` of a mapping that does not.
pub open spec fn build_of(n: Node, b: BuildSpec) -> bool {
    match n {
        Node::Mapping(m) => text(lookup_str(m@, "name"@)) == Some(b.name@)
            && text_or(m@, "dockerfile"@, "Dockerfile"@) == Some(b.dockerfile@)
            && text_or(m@, "context"@, "."@) == Some(b.context@)
            && optional_text(lookup_str(m@, "target"@)) == Some(opt_view(b.target)),
        _ => false,
    }
}

pub open spec fn build_decodes(n: Node) -> bool {
    match n {
        Node::Mapping(m) => text(lookup_str(m@, "name"@)) is Some
            && text_or(m@, "dockerfile"@, "Dockerfile"@) is Some
            && text_or(m@, "context"@, "."@) is Some
            && optional_text(lookup_str(m@, "target"@)) is Some,
        _ => false,
    }
}

/// Every item of a sequence node is a string; `items` are their texts.
pub open spec fn texts_of(v: Seq<Node>, items: Seq<Seq<char>>) -> bool {
    v.len() == items.len() && forall|i: int| 0 <= i < v.len() ==> text(Some(#[trigger] v[i])) == Some(items[i])
}

pub open spec fn all_texts(v: Seq<Node>) -> bool {
    forall|i: int| 0 <= i < v.len() ==> (#[trigger] text(Some(v[i]))) is Some
}

pub open spec fn exec_of(n: Node, e: ExecSpec) -> bool {
    match n {
        Node::Mapping(m) => text(lookup_str(m@, "command"@)) == Some(e.command@)
            && text(lookup_str(m@, "image"@)) == Some(e.image@)
            && match lookup_str(m@, "args"@) {
                Some(Node::Sequence(v)) => texts_of(v@, views(e.args@)),
                _ => false,
            },
        _ => false,
    }
}

pub open spec fn exec_decodes(n: Node) -> bool {
    match n {
        Node::Mapping(m) => text(lookup_str(m@, "command"@)) is Some
            && text(lookup_str(m@, "image"@)) is Some
            && match lookup_str(m@, "args"@) {
                Some(Node::Sequence(v)) => all_texts(v@),
                _ => false,
            },
        _ => false,
    }
}

pub open spec fn headers_of(n: Option<Node>, h: Option<Vec<(String, String)>>) -> bool {
    match n {
        None => h is None,
        Some(Node::Null) => h is None,
        Some(Node::Mapping(hm)) => match h {
            Some(v) => v@.len() == hm@.len() && forall|i: int| 0 <= i < hm@.len()
                ==> text(Some((#[trigger] hm@[i]).0)) == Some(v@[i].0@) && text(Some(hm@[i].1)) == Some(v@[i].1@),
            None => false,
        },
        _ => false,
    }
}

pub open spec fn headers_decode(n: Option<Node>) -> bool {
    match n {
        None => true,
        Some(Node::Null) => true,
        Some(Node::Mapping(hm)) => forall|i: int| 0 <= i < hm@.len()
            ==> text(Some((#[trigger] hm@[i]).0)) is Some && text(Some(hm@[i].1)) is Some,
        _ => false,
    }
}

/// `y` is what the lookup mapping `n` decodes to: by `file` or by `url`, never both.
pub open spec fn yaml_of(n: Node, y: YamlSpec) -> bool {
    match n {
        Node::Mapping(m) => match y {
            YamlSpec::File { file, key } => holds_field(m@, "file"@) && !holds_field(m@, "url"@)
                && text(lookup_str(m@, "file"@)) == Some(file@)
                && text(lookup_str(m@, "key"@)) == Some(key@),
            YamlSpec::Url { url, key, headers } => holds_field(m@, "url"@) && !holds_field(m@, "file"@)
                && text(lookup_str(m@, "url"@)) is Some
                && parsed_url(text(lookup_str(m@, "url"@))->0) == Some(url@)
                && text(lookup_str(m@, "key"@)) == Some(key@)
                && headers_of(lookup_str(m@, "headers"@), headers),
        },
        _ => false,
    }
}

pub open spec fn yaml_decodes(n: Node) -> bool {
    match n {
        Node::Mapping(m) => text(lookup_str(m@, "key"@)) is Some && if holds_field(m@, "file"@) {
            !holds_field(m@, "url"@) && text(lookup_str(m@, "file"@)) is Some
        } else {
            holds_field(m@, "url"@) && text(lookup_str(m@, "url"@)) is Some
                && parsed_url(text(lookup_str(m@, "url"@))->0) is Some
                && headers_decode(lookup_str(m@, "headers"@))
        },
        _ => false,
    }
}

pub open spec fn shape_count(m: Seq<(Node, Node)>) -> nat {
    (if holds_field(m, "build"@) { 1nat } else { 0nat }) + (if holds_field(m, "yaml"@) { 1nat } else { 0nat })
        + (if holds_field(m, "exec"@) { 1nat } else { 0nat })
}

/// What decoding `n` as an image specification gives: a string is a name; a
/// mapping is a build, a lookup or an exec by which one of `build`, `yaml` and
/// `exec` it holds, and fails where it holds none or more than one.
pub open spec fn image_decoding(n: Node, r: Result<Image, DecodeError>) -> bool {
    match n {
        Node::Str(s) => r is Ok && r->Ok_0 is Name && r->Ok_0->Name_0@ == s@,
        Node::Mapping(m) => if shape_count(m@) == 0 {
            r is Err && r->Err_0 is NoShapeMatched
        } else if shape_count(m@) > 1 {
            r is Err && r->Err_0 is AmbiguousShape
        } else if holds_field(m@, "build"@) {
            let b = lookup_str(m@, "build"@)->0;
            (r is Ok <==> build_decodes(b)) && (r is Ok ==> r->Ok_0 is Build && build_of(b, r->Ok_0->build))
        } else if holds_field(m@, "yaml"@) {
            let y = lookup_str(m@, "yaml"@)->0;
            (r is Ok <==> yaml_decodes(y)) && (r is Ok ==> r->Ok_0 is Yaml && yaml_of(y, r->Ok_0->yaml))
        } else {
            let e = lookup_str(m@, "exec"@)->0;
            (r is Ok <==> exec_decodes(e)) && (r is Ok ==> r->Ok_0 is Exec && exec_of(e, r->Ok_0->exec_spec))
        },
        _ => r is Err && r->Err_0 is NoShapeMatched,
    }
}

/// Whether `n` decodes as an image specification.
pub open spec fn image_decodes(n: Node) -> bool {
    match n {
        Node::Str(_) => true,
        Node::Mapping(m) => shape_count(m@) == 1 && if holds_field(m@, "build"@) {
            build_decodes(lookup_str(m@, "build"@)->0)
        } else if holds_field(m@, "yaml"@) {
            yaml_decodes(lookup_str(m@, "yaml"@)->0)
        } else {
            exec_decodes(lookup_str(m@, "exec"@)->0)
        },
        _ => false,
    }
}

/// The value of the first entry of `m` whose key is the string `name`.
pub fn find_field<'a>(m: &'a Vec<(Node, Node)>, name: &str) -> (r: Option<&'a Node>)
    ensures
        match lookup_str(m@, name@) {
            Some(x) => r == Some(&x),
            None => r is None,
        },
{
    let mut j: usize = 0;
    assert(m@.subrange(0, m@.len() as int) =~= m@);
    while j < m.len()
        invariant
            j <= m@.len(),
            lookup_str(m@, name@) == lookup_str(m@.subrange(j as int, m@.len() as int), name@),
        decreases m@.len() - j,
    {
        let ghost rest = m@.subrange(j as int, m@.len() as int);
        assert(rest.drop_first() =~= m@.subrange(j + 1, m@.len() as int));
        assert(rest[0] == m@[j as int]);
        if key_matches_str(&m[j].0, name) {
            return Some(&m[j].1);
        }
        j = j + 1;
    }
    None
}

fn node_text(n: Option<&Node>) -> (r: Option<String>)
    ensures
        opt_view(r) == text(match n { Some(x) => Some(*x), None => None }),
{
    match n {
        Some(Node::Str(s)) => Some(s.clone()),
        _ => None,
    }
}

pub(crate) fn field_text(m: &Vec<(Node, Node)>, name: &str) -> (r: Option<String>)
    ensures
        opt_view(r) == text(lookup_str(m@, name@)),
{
    node_text(find_field(m, name))
}

fn field_text_or(m: &Vec<(Node, Node)>, name: &str, dflt: &str) -> (r: Option<String>)
    ensures
        opt_view(r) == text_or(m@, name@, dflt@),
{
    match find_field(m, name) {
        None => Some(dflt.to_owned()),
        Some(Node::Str(s)) => Some(s.clone()),
        _ => None,
    }
}

fn field_optional_text(m: &Vec<(Node, Node)>, name: &str) -> (r: Option<Option<String>>)
    ensures
        match optional_text(lookup_str(m@, name@)) {
            Some(o) => r is Some && opt_view(r->0) == o,
            None => r is None,
        },
{
    match find_field(m, name) {
        None => Some(None),
        Some(Node::Null) => Some(None),
        Some(Node::Str(s)) => Some(Some(s.clone())),
        _ => None,
    }
}

pub(crate) fn bad_field(field: &str) -> (r: DecodeError)
    ensures
        r is BadField,
{
    DecodeError::BadField { field: field.to_owned() }
}

impl BuildSpec {
    /// Decodes a build mapping: `name` is required, `dockerfile` defaults to
    /// `Dockerfile`, `context` to `.`, and `target` may be left out.
    pub fn from_node(n: &Node) -> (r: Result<BuildSpec, DecodeError>)
        ensures
            r is Ok <==> build_decodes(*n),
            r is Ok ==> build_of(*n, r->Ok_0),
    {
        let m = match n {
            Node::Mapping(m) => m,
            _ => {
                return Err(bad_field("build"));
            },
        };
        let name = match field_text(m, "name") {
            Some(s) => s,
            None => {
                return Err(bad_field("name"));
            },
        };
        let dockerfile = match field_text_or(m, "dockerfile", "Dockerfile") {
            Some(s) => s,
            None => {
                return Err(bad_field("dockerfile"));
            },
        };
        let context = match field_text_or(m, "context", ".") {
            Some(s) => s,
            None => {
                return Err(bad_field("context"));
            },
        };
        let target = match field_optional_text(m, "target") {
            Some(t) => t,
            None => {
                return Err(bad_field("target"));
            },
        };
        Ok(BuildSpec { name, dockerfile, context, target })
    }
}

impl ExecSpec {
    /// Decodes an exec mapping: `command`, `args` (a sequence of strings) and
    /// `image` are all required.
    pub fn from_node(n: &Node) -> (r: Result<ExecSpec, DecodeError>)
        ensures
            r is Ok <==> exec_decodes(*n),
            r is Ok ==> exec_of(*n, r->Ok_0),
    {
        let m = match n {
            Node::Mapping(m) => m,
            _ => {
                return Err(bad_field("exec"));
            },
        };
        let command = match field_text(m, "command") {
            Some(s) => s,
            None => {
                return Err(bad_field("command"));
            },
        };
        let image = match field_text(m, "image") {
            Some(s) => s,
            None => {
                return Err(bad_field("image"));
            },
        };
        let items = match find_field(m, "args") {
            Some(Node::Sequence(v)) => v,
            _ => {
                return Err(bad_field("args"));
            },
        };
        let mut args: Vec<String> = Vec::new();
        let mut i: usize = 0;
        while i < items.len()
            invariant
                *n == Node::Mapping(*m),
                lookup_str(m@, "args"@) == Some(Node::Sequence(*items)),
                i <= items@.len(),
                args@.len() == i,
                forall|k: int| 0 <= k < i ==> text(Some(#[trigger] items@[k])) == Some(args@[k]@),
            decreases items@.len() - i,
        {
            match &items[i] {
                Node::Str(s) => {
                    args.push(s.clone());
                },
                _ => {
                    assert(text(Some(items@[i as int])) is None);
                    assert(!all_texts(items@));
                    return Err(bad_field("args"));
                },
            }
            i = i + 1;
        }
        assert(texts_of(items@, views(args@)));
        Ok(ExecSpec { command, args, image })
    }
}

fn decode_headers(n: Option<&Node>) -> (r: Result<Option<Vec<(String, String)>>, DecodeError>)
    ensures
        r is Ok <==> headers_decode(match n { Some(x) => Some(*x), None => None }),
        r is Ok ==> headers_of(match n { Some(x) => Some(*x), None => None }, r->Ok_0),
{
    let hm = match n {
        None => {
            return Ok(None);
        },
        Some(Node::Null) => {
            return Ok(None);
        },
        Some(Node::Mapping(hm)) => hm,
        _ => {
            return Err(bad_field("headers"));
        },
    };
    let mut out: Vec<(String, String)> = Vec::new();
    let mut i: usize = 0;
    while i < hm.len()
        invariant
            n == Some(&Node::Mapping(*hm)),
            i <= hm@.len(),
            out@.len() == i,
            forall|k: int| 0 <= k < i ==> text(Some((#[trigger] hm@[k]).0)) == Some(out@[k].0@)
                && text(Some(hm@[k].1)) == Some(out@[k].1@),
        decreases hm@.len() - i,
    {
        match (&hm[i].0, &hm[i].1) {
            (Node::Str(k), Node::Str(v)) => {
                out.push((k.clone(), v.clone()));
            },
            _ => {
                assert(text(Some(hm@[i as int].0)) is None || text(Some(hm@[i as int].1)) is None);
                assert(!headers_decode(Some(Node::Mapping(*hm))));
                return Err(bad_field("headers"));
            },
        }
        i = i + 1;
    }
    Ok(Some(out))
}

impl YamlSpec {
    /// Decodes a lookup mapping: `key` and one of `file` or `url`, the latter with
    /// optional `headers`.
    pub fn from_node(n: &Node) -> (r: Result<YamlSpec, DecodeError>)
        ensures
            r is Ok <==> yaml_decodes(*n),
            r is Ok ==> yaml_of(*n, r->Ok_0),
    {
        let m = match n {
            Node::Mapping(m) => m,
            _ => {
                return Err(bad_field("yaml"));
            },
        };
        let key = match field_text(m, "key") {
            Some(s) => s,
            None => {
                return Err(bad_field("key"));
            },
        };
        let has_file = find_field(m, "file").is_some();
        let has_url = find_field(m, "url").is_some();
        if has_file && has_url {
            return Err(DecodeError::AmbiguousShape);
        }
        if has_file {
            match field_text(m, "file") {
                Some(file) => Ok(YamlSpec::File { file, key }),
                None => Err(bad_field("file")),
            }
        } else {
            let text = match field_text(m, "url") {
                Some(s) => s,
                None => {
                    return Err(bad_field("url"));
                },
            };
            let url = match parse_url(text.as_str()) {
                Some(u) => u,
                None => {
                    return Err(bad_field("url"));
                },
            };
            let headers = match decode_headers(find_field(m, "headers")) {
                Ok(h) => h,
                Err(e) => {
                    return Err(e);
                },
            };
            Ok(YamlSpec::Url { url, key, headers })
        }
    }
}

impl Image {
    /// Decodes an image specification by its shape (see `image_decoding`).
    pub fn from_node(n: &Node) -> (r: Result<Image, DecodeError>)
        ensures
            image_decoding(*n, r),
    {
        let m = match n {
            Node::Str(s) => {
                return Ok(Image::Name(s.clone()));
            },
            Node::Mapping(m) => m,
            _ => {
                return Err(DecodeError::NoShapeMatched);
            },
        };
        let build = find_field(m, "build");
        let yaml = find_field(m, "yaml");
        let exec = find_field(m, "exec");
        let count: usize = (if build.is_some() { 1usize } else { 0usize }) + (if yaml.is_some() { 1usize } else { 0usize })
            + (if exec.is_some() { 1usize } else { 0usize });
        if count == 0 {
            return Err(DecodeError::NoShapeMatched);
        }
        if count > 1 {
            return Err(DecodeError::AmbiguousShape);
        }
        match (build, yaml, exec) {
            (Some(b), _, _) => match BuildSpec::from_node(b) {
                Ok(build) => Ok(Image::Build { build }),
                Err(e) => Err(e),
            },
            (_, Some(y), _) => match YamlSpec::from_node(y) {
                Ok(yaml) => Ok(Image::Yaml { yaml }),
                Err(e) => Err(e),
            },
            (_, _, Some(e)) => match ExecSpec::from_node(e) {
                Ok(exec_spec) => Ok(Image::Exec { exec_spec }),
                Err(e) => Err(e),
            },
            _ => Err(DecodeError::NoShapeMatched),
        }
    }
}

/// Shape decides the variant: a string is a name, a mapping with `build` alone (and
/// its required fields) a build, one with `exec` alone an exec, and a mapping that
/// holds both `build` and `exec` is refused rather than read as either.
pub proof fn lemma_shape_disambiguation(n: Node, r: Result<Image, DecodeError>)
    requires
        image_decoding(n, r),
    ensures
        n is Str ==> r is Ok && r->Ok_0 is Name,
        n is Mapping && holds_field(n->Mapping_0@, "build"@) && holds_field(n->Mapping_0@, "exec"@) ==> r is Err,
        n is Mapping && shape_count(n->Mapping_0@) == 1 && holds_field(n->Mapping_0@, "build"@)
            && build_decodes(lookup_str(n->Mapping_0@, "build"@)->0) ==> r is Ok && r->Ok_0 is Build,
        n is Mapping && shape_count(n->Mapping_0@) == 1 && holds_field(n->Mapping_0@, "exec"@)
            && exec_decodes(lookup_str(n->Mapping_0@, "exec"@)->0) ==> r is Ok && r->Ok_0 is Exec,
{
}

} // verus!
