//! The configuration around the image: shells, docker-in-docker, volumes and the
//! entrypoint, with their defaults.
use vstd::prelude::*;
use crate::decode::{
    find_field, text, bad_field, image_decoding, image_decodes, texts_of, all_texts, opt_node,
    DecodeError,
};
use crate::image::views;
use crate::document::key_matches_str;
use crate::document::{Node, lookup_str};
use crate::image::Image;

verus! {

/// What decoding a shell gives: a string is one shell, a mapping with string
/// `inner` and `outer` two.
pub open spec fn shell_decoding(n: Node, r: Option<Shell>) -> bool {
    match n {
        Node::Str(s) => r == Some(Shell::Shell(s)),
        Node::Mapping(m) => match (text(lookup_str(m@, "inner"@)), text(lookup_str(m@, "outer"@))) {
            (Some(i), Some(o)) => r is Some && r->0 is TwoShell && r->0->inner@ == i && r->0->outer@ == o,
            _ => r is None,
        },
        _ => r is None,
    }
}

/// What decoding docker-in-docker gives: a boolean toggles it, a mapping with a
/// string `image` names its image.
pub open spec fn dind_decoding(n: Node, r: Option<DindConfig>) -> bool {
    match n {
        Node::Bool(b) => r == Some(DindConfig::Toggle(b)),
        Node::Mapping(m) => match text(lookup_str(m@, "image"@)) {
            Some(i) => r is Some && r->0 is Image && r->0->image@ == i,
            None => r is None,
        },
        _ => r is None,
    }
}

/// What decoding an entrypoint gives: a mapping with a boolean `suppress`.
pub open spec fn entrypoint_decoding(n: Node, r: Option<Entrypoint>) -> bool {
    match n {
        Node::Mapping(m) => match lookup_str(m@, "suppress"@) {
            Some(Node::Bool(b)) => r == Some(Entrypoint::Suppress { suppress: b }),
            _ => r is None,
        },
        _ => r is None,
    }
}

/// Whether a field that may be left out decodes: it is left out, or `ok` holds of it.
pub open spec fn absent_or(n: Option<Node>, ok: spec_fn(Node) -> bool) -> bool {
    match n {
        None => true,
        Some(x) => ok(x),
    }
}

pub open spec fn string_list_decodes(n: Node) -> bool {
    match n {
        Node::Sequence(v) => all_texts(v@),
        _ => false,
    }
}

pub open spec fn volume_decodes(v: Node) -> bool {
    match v {
        Node::Mapping(f) => absent_or(lookup_str(f@, "shared"@), |b: Node| b is Bool)
            && text(lookup_str(f@, "mount"@)) is Some,
        _ => false,
    }
}

pub open spec fn volumes_decode(n: Node) -> bool {
    match n {
        Node::Mapping(m) => forall|i: int| 0 <= i < m@.len()
            ==> text(Some((#[trigger] m@[i]).0)) is Some && volume_decodes(m@[i].1),
        _ => false,
    }
}

/// Whether a configuration mapping decodes: every field is known, `image` is there
/// and decodes, and each other field that is there has the kind it should.
pub open spec fn config_decodes(m: Seq<(Node, Node)>) -> bool {
    &&& forall|i: int| 0 <= i < m.len() ==> known_field(#[trigger] m[i].0)
    &&& lookup_str(m, "image"@) is Some && image_decodes(lookup_str(m, "image"@)->0)
    &&& absent_or(lookup_str(m, "init"@), |x: Node| string_list_decodes(x))
    &&& absent_or(lookup_str(m, "shell"@), |x: Node| exists|sh: Shell| shell_decoding(x, Some(sh)))
    &&& absent_or(lookup_str(m, "mount"@), |x: Node| x is Str)
    &&& absent_or(lookup_str(m, "docker_switches"@), |x: Node| string_list_decodes(x))
    &&& absent_or(lookup_str(m, "forward_ssh_agent"@), |x: Node| x is Bool)
    &&& absent_or(lookup_str(m, "dind"@), |x: Node| exists|d: DindConfig| dind_decoding(x, Some(d)))
    &&& absent_or(lookup_str(m, "forward_user"@), |x: Node| x is Bool)
    &&& absent_or(lookup_str(m, "volumes"@), |x: Node| volumes_decode(x))
    &&& absent_or(lookup_str(m, "entrypoint"@), |x: Node| exists|e: Entrypoint| entrypoint_decoding(x, Some(e)))
}

/// What decoding the volumes gives: none where they are left out; else, for each
/// entry in order, its name and a volume with `shared` (false by default) and `mount`.
pub open spec fn volumes_of(n: Option<Node>, r: Result<Vec<(String, Volume)>, DecodeError>) -> bool {
    match n {
        None => r is Ok && r->Ok_0@.len() == 0,
        Some(Node::Mapping(m)) => (r is Ok <==> volumes_decode(Node::Mapping(m))) && (r is Ok ==> (
            r->Ok_0@.len() == m@.len() && forall|i: int| 0 <= i < m@.len()
            ==> text(Some((#[trigger] m@[i]).0)) == Some(r->Ok_0@[i].0@) && match m@[i].1 {
                Node::Mapping(f) => flag_of(lookup_str(f@, "shared"@), Ok(r->Ok_0@[i].1.shared))
                    && text(lookup_str(f@, "mount"@)) == Some(r->Ok_0@[i].1.mount@),
                _ => false,
            })),
        _ => r is Err,
    }
}

#[derive(Debug, PartialEq, Eq)]
pub enum Shell {
    Shell(String),
    /// A shell to run commands in (`inner`) and one to set the container up (`outer`).
    TwoShell { inner: String, outer: String },
}

impl Shell {
    pub fn inner_shell(&self) -> (r: &str)
        ensures
            r@ == match *self {
                Shell::Shell(s) => s@,
                Shell::TwoShell { inner, .. } => inner@,
            },
    {
        match self {
            Shell::Shell(s) => s.as_str(),
            Shell::TwoShell { inner, .. } => inner.as_str(),
        }
    }

    pub fn outer_shell(&self) -> (r: &str)
        ensures
            r@ == match *self {
                Shell::Shell(s) => s@,
                Shell::TwoShell { outer, .. } => outer@,
            },
    {
        match self {
            Shell::Shell(s) => s.as_str(),
            Shell::TwoShell { outer, .. } => outer.as_str(),
        }
    }

    /// Decodes a shell: a string, or a mapping with `inner` and `outer`.
    pub fn from_node(n: &Node) -> (r: Option<Shell>)
        ensures
            shell_decoding(*n, r),
    {
        match n {
            Node::Str(s) => Some(Shell::Shell(s.clone())),
            Node::Mapping(m) => match (find_field(m, "inner"), find_field(m, "outer")) {
                (Some(Node::Str(i)), Some(Node::Str(o))) => Some(Shell::TwoShell { inner: i.clone(), outer: o.clone() }),
                _ => None,
            },
            _ => None,
        }
    }
}

#[derive(Debug, PartialEq, Eq)]
pub enum DindConfig {
    Toggle(bool),
    /// Docker-in-docker with the given image.
    Image { image: String },
}

impl DindConfig {
    pub fn deactivated() -> (r: Self)
        ensures
            r == DindConfig::Toggle(false),
    {
        DindConfig::Toggle(false)
    }

    /// Decodes docker-in-docker: a boolean, or a mapping with `image`.
    pub fn from_node(n: &Node) -> (r: Option<DindConfig>)
        ensures
            dind_decoding(*n, r),
    {
        match n {
            Node::Bool(b) => Some(DindConfig::Toggle(*b)),
            Node::Mapping(m) => match find_field(m, "image") {
                Some(Node::Str(i)) => Some(DindConfig::Image { image: i.clone() }),
                _ => None,
            },
            _ => None,
        }
    }
}

/// A volume mounted into the container; a shared one is reused by every
/// configuration that names it.
#[derive(Debug, PartialEq, Eq)]
pub struct Volume {
    pub shared: bool,
    pub mount: String,
}

#[derive(Debug, PartialEq, Eq)]
pub enum Entrypoint {
    Suppress { suppress: bool },
}

impl Entrypoint {
    /// The entrypoint to run with: the empty one where it is suppressed, else none
    /// given (the image's own).
    pub fn value(&self) -> (r: Option<&'static str>)
        ensures
            r is Some <==> self->suppress,
            r is Some ==> r->0@.len() == 0,
    {
        match self {
            Entrypoint::Suppress { suppress } => {
                if *suppress {
                    proof {
                        reveal_strlit("");
                    }
                    Some("")
                } else {
                    None
                }
            },
        }
    }

    /// Decodes an entrypoint: a mapping with a boolean `suppress`.
    pub fn from_node(n: &Node) -> (r: Option<Entrypoint>)
        ensures
            entrypoint_decoding(*n, r),
    {
        match n {
            Node::Mapping(m) => match find_field(m, "suppress") {
                Some(Node::Bool(b)) => Some(Entrypoint::Suppress { suppress: *b }),
                _ => None,
            },
            _ => None,
        }
    }
}

pub fn default_shell() -> (r: Shell)
    ensures
        r is Shell && r->Shell_0@ == seq!['s', 'h'],
{
    proof {
        reveal_strlit("sh");
        assert("sh"@ =~= seq!['s', 'h']);
    }
    Shell::Shell("sh".to_owned())
}

pub fn default_mount() -> (r: String)
    ensures
        r@ == seq!['/', 's', 'r', 'c'],
{
    proof {
        reveal_strlit("/src");
        assert("/src"@ =~= seq!['/', 's', 'r', 'c']);
    }
    "/src".to_owned()
}

pub fn default_to_false() -> (r: bool)
    ensures
        !r,
{
    false
}

pub fn default_entrypoint() -> (r: Entrypoint)
    ensures
        r == (Entrypoint::Suppress { suppress: true }),
{
    Entrypoint::Suppress { suppress: true }
}

/// The whole configuration: the image and how the container around it is set up.
#[derive(Debug, PartialEq, Eq)]
pub struct FlokiConfig {
    pub image: Image,
    pub init: Vec<String>,
    pub shell: Shell,
    pub mount: String,
    pub docker_switches: Vec<String>,
    pub forward_ssh_agent: bool,
    pub dind: DindConfig,
    pub forward_user: bool,
    /// Volumes by name, in the order they were written.
    pub volumes: Vec<(String, Volume)>,
    pub entrypoint: Entrypoint,
}

/// The fields that a configuration may hold.
pub open spec fn known_field(k: Node) -> bool {
    match k {
        Node::Str(s) => s@ == "image"@ || s@ == "init"@ || s@ == "shell"@ || s@ == "mount"@
            || s@ == "docker_switches"@ || s@ == "forward_ssh_agent"@ || s@ == "dind"@
            || s@ == "forward_user"@ || s@ == "volumes"@ || s@ == "entrypoint"@,
        _ => false,
    }
}

fn is_known_field(k: &Node) -> (r: bool)
    ensures
        r == known_field(*k),
{
    key_matches_str(k, "image") || key_matches_str(k, "init") || key_matches_str(k, "shell")
        || key_matches_str(k, "mount") || key_matches_str(k, "docker_switches")
        || key_matches_str(k, "forward_ssh_agent") || key_matches_str(k, "dind")
        || key_matches_str(k, "forward_user") || key_matches_str(k, "volumes")
        || key_matches_str(k, "entrypoint")
}

/// A list of strings that may be left out: empty where it is, else a sequence of strings.
pub open spec fn string_list_of(n: Option<Node>, r: Result<Vec<String>, DecodeError>) -> bool {
    match n {
        None => r is Ok && r->Ok_0@.len() == 0,
        Some(Node::Sequence(v)) => (r is Ok <==> all_texts(v@)) && (r is Ok ==> texts_of(v@, views(r->Ok_0@))),
        _ => r is Err,
    }
}

/// A flag that may be left out: false where it is, else a boolean.
pub open spec fn flag_of(n: Option<Node>, r: Result<bool, DecodeError>) -> bool {
    match n {
        None => r == Ok::<bool, DecodeError>(false),
        Some(Node::Bool(b)) => r == Ok::<bool, DecodeError>(b),
        _ => r is Err,
    }
}

fn string_list(n: Option<&Node>, field: &str) -> (r: Result<Vec<String>, DecodeError>)
    ensures
        string_list_of(opt_node(n), r),
{
    let v = match n {
        None => {
            return Ok(Vec::new());
        },
        Some(Node::Sequence(v)) => v,
        _ => {
            return Err(bad_field(field));
        },
    };
    let mut out: Vec<String> = Vec::new();
    let mut i: usize = 0;
    while i < v.len()
        invariant
            n == Some(&Node::Sequence(*v)),
            i <= v@.len(),
            out@.len() == i,
            forall|k: int| 0 <= k < i ==> text(Some(#[trigger] v@[k])) == Some(out@[k]@),
        decreases v@.len() - i,
    {
        match &v[i] {
            Node::Str(s) => out.push(s.clone()),
            _ => {
                assert(text(Some(v@[i as int])) is None);
                assert(!all_texts(v@));
                return Err(bad_field(field));
            },
        }
        i = i + 1;
    }
    assert(texts_of(v@, views(out@)));
    Ok(out)
}

fn flag(n: Option<&Node>, field: &str) -> (r: Result<bool, DecodeError>)
    ensures
        flag_of(opt_node(n), r),
{
    match n {
        None => Ok(false),
        Some(Node::Bool(b)) => Ok(*b),
        _ => Err(bad_field(field)),
    }
}

fn volumes(n: Option<&Node>) -> (r: Result<Vec<(String, Volume)>, DecodeError>)
    ensures
        volumes_of(opt_node(n), r),
{
    let m = match n {
        None => {
            return Ok(Vec::new());
        },
        Some(Node::Mapping(m)) => m,
        _ => {
            return Err(bad_field("volumes"));
        },
    };
    let mut out: Vec<(String, Volume)> = Vec::new();
    let mut i: usize = 0;
    while i < m.len()
        invariant
            n == Some(&Node::Mapping(*m)),
            i <= m@.len(),
            out@.len() == i,
            forall|k: int| 0 <= k < i ==> text(Some((#[trigger] m@[k]).0)) is Some && volume_decodes(m@[k].1),
            forall|k: int| 0 <= k < i ==> text(Some((#[trigger] m@[k]).0)) == Some(out@[k].0@) && match m@[k].1 {
                Node::Mapping(f) => flag_of(lookup_str(f@, "shared"@), Ok(out@[k].1.shared))
                    && text(lookup_str(f@, "mount"@)) == Some(out@[k].1.mount@),
                _ => false,
            },
        decreases m@.len() - i,
    {
        let name = match &m[i].0 {
            Node::Str(s) => s.clone(),
            _ => {
                assert(text(Some(m@[i as int].0)) is None);
                assert(!volumes_decode(Node::Mapping(*m)));
                return Err(bad_field("volumes"));
            },
        };
        let fields = match &m[i].1 {
            Node::Mapping(f) => f,
            _ => {
                assert(!volume_decodes(m@[i as int].1));
                assert(!volumes_decode(Node::Mapping(*m)));
                return Err(bad_field("volumes"));
            },
        };
        let shared = match flag(find_field(fields, "shared"), "shared") {
            Ok(b) => b,
            Err(e) => {
                assert(!volume_decodes(m@[i as int].1));
                assert(!volumes_decode(Node::Mapping(*m)));
                return Err(e);
            },
        };
        let mount = match find_field(fields, "mount") {
            Some(Node::Str(s)) => s.clone(),
            _ => {
                assert(!volume_decodes(m@[i as int].1));
                assert(!volumes_decode(Node::Mapping(*m)));
                return Err(bad_field("mount"));
            },
        };
        out.push((name, Volume { shared, mount }));
        assert(volume_decodes(m@[i as int].1));
        i = i + 1;
    }
    Ok(out)
}

impl FlokiConfig {
    /// Decodes a configuration: a mapping that holds `image` and no field that a
    /// configuration does not define; every other field has a default.
    pub fn from_node(n: &Node) -> (r: Result<FlokiConfig, DecodeError>)
        ensures
            r is Ok <==> (n is Mapping) && config_decodes(n->Mapping_0@),
            (n is Mapping) && (exists|i: int| 0 <= i < n->Mapping_0@.len() && !known_field(#[trigger] n->Mapping_0@[i].0))
                ==> r is Err && r->Err_0 is UnknownField,
            (n is Mapping) && lookup_str(n->Mapping_0@, "image"@) is None ==> r is Err,
            r is Ok ==> image_decoding(lookup_str(n->Mapping_0@, "image"@)->0, Ok(r->Ok_0.image)),
            r is Ok && lookup_str(n->Mapping_0@, "shell"@) is None ==> r->Ok_0.shell is Shell
                && r->Ok_0.shell->Shell_0@ == seq!['s', 'h'],
            r is Ok ==> string_list_of(lookup_str(n->Mapping_0@, "init"@), Ok(r->Ok_0.init)),
            r is Ok ==> volumes_of(lookup_str(n->Mapping_0@, "volumes"@), Ok(r->Ok_0.volumes)),
            r is Ok && lookup_str(n->Mapping_0@, "shell"@) is Some ==> shell_decoding(
                lookup_str(n->Mapping_0@, "shell"@)->0, Some(r->Ok_0.shell)),
            r is Ok && lookup_str(n->Mapping_0@, "dind"@) is Some ==> dind_decoding(
                lookup_str(n->Mapping_0@, "dind"@)->0, Some(r->Ok_0.dind)),
            r is Ok && lookup_str(n->Mapping_0@, "entrypoint"@) is Some ==> entrypoint_decoding(
                lookup_str(n->Mapping_0@, "entrypoint"@)->0, Some(r->Ok_0.entrypoint)),
            r is Ok ==> string_list_of(lookup_str(n->Mapping_0@, "docker_switches"@), Ok(r->Ok_0.docker_switches)),
            r is Ok ==> flag_of(lookup_str(n->Mapping_0@, "forward_ssh_agent"@), Ok(r->Ok_0.forward_ssh_agent)),
            r is Ok ==> flag_of(lookup_str(n->Mapping_0@, "forward_user"@), Ok(r->Ok_0.forward_user)),
            r is Ok && lookup_str(n->Mapping_0@, "mount"@) is Some ==> text(lookup_str(n->Mapping_0@, "mount"@))
                == Some(r->Ok_0.mount@),
            r is Ok && lookup_str(n->Mapping_0@, "mount"@) is None ==> r->Ok_0.mount@ == seq!['/', 's', 'r', 'c'],
            r is Ok && lookup_str(n->Mapping_0@, "dind"@) is None ==> r->Ok_0.dind == DindConfig::Toggle(false),
            r is Ok && lookup_str(n->Mapping_0@, "entrypoint"@) is None ==> r->Ok_0.entrypoint
                == (Entrypoint::Suppress { suppress: true }),
    {
        let m = match n {
            Node::Mapping(m) => m,
            _ => {
                return Err(DecodeError::NoShapeMatched);
            },
        };
        let mut i: usize = 0;
        while i < m.len()
            invariant
                *n == Node::Mapping(*m),
                i <= m@.len(),
                forall|j: int| 0 <= j < i ==> known_field(#[trigger] m@[j].0),
            decreases m@.len() - i,
        {
            if !is_known_field(&m[i].0) {
                let field = match &m[i].0 {
                    Node::Str(s) => s.clone(),
                    _ => String::new(),
                };
                return Err(DecodeError::UnknownField { field });
            }
            i = i + 1;
        }
        let image = match find_field(m, "image") {
            Some(node) => match Image::from_node(node) {
                Ok(img) => img,
                Err(e) => {
                    return Err(e);
                },
            },
            None => {
                return Err(bad_field("image"));
            },
        };
        let init = match string_list(find_field(m, "init"), "init") {
            Ok(v) => v,
            Err(e) => {
                return Err(e);
            },
        };
        let shell = match find_field(m, "shell") {
            None => default_shell(),
            Some(node) => match Shell::from_node(node) {
                Some(s) => s,
                None => {
                    return Err(bad_field("shell"));
                },
            },
        };
        let mount = match find_field(m, "mount") {
            None => default_mount(),
            Some(Node::Str(s)) => s.clone(),
            _ => {
                return Err(bad_field("mount"));
            },
        };
        let docker_switches = match string_list(find_field(m, "docker_switches"), "docker_switches") {
            Ok(v) => v,
            Err(e) => {
                return Err(e);
            },
        };
        let forward_ssh_agent = match flag(find_field(m, "forward_ssh_agent"), "forward_ssh_agent") {
            Ok(b) => b,
            Err(e) => {
                return Err(e);
            },
        };
        let dind = match find_field(m, "dind") {
            None => DindConfig::deactivated(),
            Some(node) => match DindConfig::from_node(node) {
                Some(d) => d,
                None => {
                    return Err(bad_field("dind"));
                },
            },
        };
        let forward_user = match flag(find_field(m, "forward_user"), "forward_user") {
            Ok(b) => b,
            Err(e) => {
                return Err(e);
            },
        };
        let volumes = match volumes(find_field(m, "volumes")) {
            Ok(v) => v,
            Err(e) => {
                return Err(e);
            },
        };
        let entrypoint = match find_field(m, "entrypoint") {
            None => default_entrypoint(),
            Some(node) => match Entrypoint::from_node(node) {
                Some(e) => e,
                None => {
                    return Err(bad_field("entrypoint"));
                },
            },
        };
        Ok(FlokiConfig {
            image,
            init,
            shell,
            mount,
            docker_switches,
            forward_ssh_agent,
            dind,
            forward_user,
            volumes,
            entrypoint,
        })
    }
}

} // verus!
