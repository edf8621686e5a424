//! Image specifications and what resolving and obtaining each one takes.
use vstd::prelude::*;
use crate::document::{Node, resolve, resolve_key};
use crate::errors::{FlokiError, SubprocessExitStatus};
use crate::paths::{join, join_path, parent, is_absolute_path, is_absolute, parent_of};

verus! {

/// Instructions to build an image locally.
#[derive(Debug, PartialEq, Eq)]
pub struct BuildSpec {
    pub name: String,
    pub dockerfile: String,
    pub context: String,
    pub target: Option<String>,
}

/// A structured document, local or remote, and the key path of the image name in it.
#[derive(Debug, PartialEq, Eq)]
pub enum YamlSpec {
    File { file: String, key: String },
    /// `headers` maps each request header to the environment variable that holds its value.
    Url { url: String, key: String, headers: Option<Vec<(String, String)>> },
}

/// A command that prepares the image, and the name the image has afterwards.
#[derive(Debug, PartialEq, Eq)]
pub struct ExecSpec {
    pub command: String,
    pub args: Vec<String>,
    pub image: String,
}

#[derive(Debug, PartialEq, Eq)]
pub enum Image {
    Name(String),
    Build { build: BuildSpec },
    Yaml { yaml: YamlSpec },
    Exec { exec_spec: ExecSpec },
}

/// A subprocess to run: a program and its arguments.
#[derive(Debug, PartialEq, Eq)]
pub struct Subprocess {
    pub program: String,
    pub args: Vec<String>,
}

pub open spec fn views(v: Seq<String>) -> Seq<Seq<char>> {
    v.map_values(|a: String| a@)
}

/// The tag that every locally built image carries.
pub open spec fn build_tag() -> Seq<char> {
    seq![':', 'f', 'l', 'o', 'k', 'i']
}

/// The key path of a document lookup.
pub open spec fn yaml_key(y: YamlSpec) -> Seq<char> {
    match y {
        YamlSpec::File { key, .. } => key@,
        YamlSpec::Url { key, .. } => key@,
    }
}

/// Where a document lookup reads from: the file path or the URL.
pub open spec fn yaml_source(y: YamlSpec) -> Seq<char> {
    match y {
        YamlSpec::File { file, .. } => file@,
        YamlSpec::Url { url, .. } => url@,
    }
}

/// The string that a key path leads to in the first of the parsed documents.
pub open spec fn lookup_in(documents: Seq<Node>, key: Seq<char>) -> Option<Seq<char>> {
    if documents.len() == 0 {
        None
    } else {
        resolve(documents[0], key)
    }
}

/// The name that a specification resolves to, given the documents that a
/// lookup reads (`None` where the lookup fails).
pub open spec fn image_name(img: Image, documents: Seq<Node>) -> Option<Seq<char>> {
    match img {
        Image::Name(s) => Some(s@),
        Image::Build { build } => Some(build.name@ + build_tag()),
        Image::Yaml { yaml } => lookup_in(documents, yaml_key(yaml)),
        Image::Exec { exec_spec: exec } => Some(exec.image@),
    }
}

/// What `name` returns: the name, or the key and source of a failed lookup.
pub open spec fn name_result(img: Image, documents: Seq<Node>, r: Result<String, FlokiError>) -> bool {
    match image_name(img, documents) {
        Some(n) => r is Ok && r->Ok_0@ == n,
        None => match img {
            Image::Yaml { yaml } => match r {
                Err(FlokiError::FailedToResolveKey { key, source }) =>
                    key@ == yaml_key(yaml) && source@ == yaml_source(yaml),
                _ => false,
            },
            _ => false,
        },
    }
}

/// The arguments of `docker build` for a build specification under `root`.
pub open spec fn build_args(build: BuildSpec, root: Seq<char>) -> Seq<Seq<char>> {
    let head = seq![seq!['b', 'u', 'i', 'l', 'd'], seq!['-', 't'], build.name@ + build_tag(),
        seq!['-', 'f'], join_path(root, build.dockerfile@)];
    let target = match build.target {
        Some(t) => seq![seq!['-', '-', 't', 'a', 'r', 'g', 'e', 't'], t@],
        None => Seq::empty(),
    };
    head + target + seq![join_path(root, build.context@)]
}

/// What the failure of the subprocess that obtains an image is described as.
pub open spec fn process_description(img: Image) -> Seq<char> {
    match img {
        Image::Exec { exec_spec } => exec_spec.command@,
        _ => seq!['d', 'o', 'c', 'k', 'e', 'r', ' ', 'b', 'u', 'i', 'l', 'd'],
    }
}

/// Whether obtaining the image runs a subprocess.
pub open spec fn runs_subprocess(img: Image) -> bool {
    img is Build || img is Exec
}

pub open spec fn docker() -> Seq<char> {
    seq!['d', 'o', 'c', 'k', 'e', 'r']
}

pub fn default_dockerfile() -> (r: String)
    ensures
        r@ == "Dockerfile"@,
{
    "Dockerfile".to_owned()
}

pub fn default_context() -> (r: String)
    ensures
        r@ == "."@,
{
    ".".to_owned()
}

fn copy_strings(v: &Vec<String>) -> (r: Vec<String>)
    ensures
        views(r@) == views(v@),
{
    let mut r: Vec<String> = Vec::new();
    let mut i: usize = 0;
    while i < v.len()
        invariant
            i <= v@.len(),
            r@.len() == i,
            forall|j: int| 0 <= j < i ==> #[trigger] r@[j]@ == v@[j]@,
        decreases v@.len() - i,
    {
        let s = v[i].clone();
        r.push(s);
        i = i + 1;
    }
    assert(views(r@) =~= views(v@));
    r
}

fn docker_program() -> (r: String)
    ensures
        r@ == docker(),
{
    proof {
        reveal_strlit("docker");
        assert("docker"@ =~= docker());
    }
    "docker".to_owned()
}

impl Image {
    /// The name of the image. A lookup reads the first of `documents`, the parsed
    /// text of the file or URL that it names; the other variants do not read them.
    pub fn name(&self, documents: &Vec<Node>) -> (r: Result<String, FlokiError>)
        ensures
            name_result(*self, documents@, r),
    {
        match self {
            Image::Name(s) => Ok(s.clone()),
            Image::Build { build } => {
                proof {
                    reveal_strlit(":floki");
                    assert(":floki"@ =~= build_tag());
                }
                Ok(build.name.clone().concat(":floki"))
            },
            Image::Yaml { yaml } => {
                let (key, source) = match yaml {
                    YamlSpec::File { file, key } => (key, file),
                    YamlSpec::Url { url, key, .. } => (key, url),
                };
                let found = if documents.len() == 0 {
                    None
                } else {
                    resolve_key(&documents[0], key.as_str())
                };
                match found {
                    Some(n) => Ok(n),
                    None => Err(FlokiError::FailedToResolveKey { key: key.clone(), source: source.clone() }),
                }
            },
            Image::Exec { exec_spec: exec } => Ok(exec.image.clone()),
        }
    }

    /// The subprocess that obtaining the image runs, with paths taken relative to
    /// `floki_root`: `docker build` for a build, the declared command for an exec,
    /// and none for the other variants.
    pub fn acquisition_command(&self, floki_root: &str) -> (r: Option<Subprocess>)
        ensures
            match *self {
                Image::Build { build } => r is Some && r->0.program@ == docker()
                    && views(r->0.args@) == build_args(build, floki_root@),
                Image::Exec { exec_spec: exec } => r is Some && r->0.program@ == exec.command@
                    && views(r->0.args@) == views(exec.args@),
                _ => r is None,
            },
    {
        match self {
            Image::Build { build } => {
                let mut args: Vec<String> = Vec::new();
                proof {
                    reveal_strlit("build");
                    reveal_strlit("-t");
                    reveal_strlit("-f");
                    reveal_strlit("--target");
                    reveal_strlit(":floki");
                    assert(":floki"@ =~= build_tag());
                    assert("build"@ =~= seq!['b', 'u', 'i', 'l', 'd']);
                    assert("-t"@ =~= seq!['-', 't']);
                    assert("-f"@ =~= seq!['-', 'f']);
                    assert("--target"@ =~= seq!['-', '-', 't', 'a', 'r', 'g', 'e', 't']);
                }
                args.push("build".to_owned());
                args.push("-t".to_owned());
                args.push(build.name.clone().concat(":floki"));
                args.push("-f".to_owned());
                args.push(join(floki_root, build.dockerfile.as_str()));
                let ghost head = views(args@);
                assert(head =~= seq![seq!['b', 'u', 'i', 'l', 'd'], seq!['-', 't'], build.name@ + build_tag(),
                    seq!['-', 'f'], join_path(floki_root@, build.dockerfile@)]);
                match &build.target {
                    Some(t) => {
                        args.push("--target".to_owned());
                        args.push(t.clone());
                        args.push(join(floki_root, build.context.as_str()));
                        assert(views(args@) =~= head + seq!["--target"@, t@] + seq![join_path(floki_root@, build.context@)]);
                        assert(views(args@) == build_args(*build, floki_root@));
                    },
                    None => {
                        args.push(join(floki_root, build.context.as_str()));
                        assert(views(args@) =~= head + Seq::<Seq<char>>::empty() + seq![join_path(floki_root@, build.context@)]);
                        assert(views(args@) == build_args(*build, floki_root@));
                    },
                }
                Some(Subprocess { program: docker_program(), args })
            },
            Image::Exec { exec_spec: exec } => {
                Some(Subprocess { program: exec.command.clone(), args: copy_strings(&exec.args) })
            },
            _ => None,
        }
    }
    /// The name of the image once the subprocess that `acquisition_command` named has
    /// ended with exit `code` (`None` where a signal ended it): exit code 0 gives the
    /// name, any other end a build failure. Where no subprocess is run, `code` is not
    /// read and the name is returned as `name` gives it.
    pub fn obtain_outcome(&self, code: Option<i32>, documents: &Vec<Node>) -> (r: Result<String, FlokiError>)
        ensures
            !runs_subprocess(*self) || code == Some(0i32) ==> name_result(*self, documents@, r),
            runs_subprocess(*self) && code != Some(0i32) ==> match r {
                Err(FlokiError::FailedToBuildImage { image, exit_status }) =>
                    Some(image@) == image_name(*self, documents@)
                    && exit_status.process_description@ == process_description(*self)
                    && exit_status.code == code,
                _ => false,
            },
    {
        let name = self.name(documents);
        match self {
            Image::Build { .. } | Image::Exec { .. } => {
                if code == Some(0i32) {
                    return name;
                }
                let description = match self {
                    Image::Exec { exec_spec } => exec_spec.command.clone(),
                    _ => {
                        proof {
                            reveal_strlit("docker build");
                            assert("docker build"@ =~= process_description(*self));
                        }
                        "docker build".to_owned()
                    },
                };
                match name {
                    Ok(image) => Err(FlokiError::FailedToBuildImage {
                        image,
                        exit_status: SubprocessExitStatus { process_description: description, code },
                    }),
                    Err(e) => Err(e),
                }
            },
            _ => name,
        }
    }

    /// Takes the path of a local document relative to the directory of the
    /// configuration file at `config_file`. Other specifications, and absolute
    /// paths, stay as they are.
    pub fn anchor_document(&mut self, config_file: &str) -> (r: Result<(), FlokiError>)
        ensures
            match *old(self) {
                Image::Yaml { yaml: YamlSpec::File { file, key } } if !is_absolute(file@) =>
                    match parent_of(config_file@) {
                        Some(dir) => r is Ok && match *final(self) {
                            Image::Yaml { yaml: YamlSpec::File { file: f2, key: k2 } } =>
                                f2@ == join_path(dir, file@) && k2@ == key@,
                            _ => false,
                        },
                        None => r is Err && r->Err_0 is InternalAssertionFailed && *final(self) == *old(self),
                    },
                _ => r is Ok && *final(self) == *old(self),
            },
    {
        let anchored = match &*self {
            Image::Yaml { yaml: YamlSpec::File { file, key } } => {
                if is_absolute_path(file.as_str()) {
                    return Ok(());
                }
                match parent(config_file) {
                    Some(dir) => (join(dir.as_str(), file.as_str()), key.clone()),
                    None => {
                        proof {
                            reveal_strlit("could not construct path to external yaml file");
                        }
                        return Err(FlokiError::InternalAssertionFailed {
                            description: "could not construct path to external yaml file".to_owned(),
                        });
                    },
                }
            },
            _ => {
                return Ok(());
            },
        };
        *self = Image::Yaml { yaml: YamlSpec::File { file: anchored.0, key: anchored.1 } };
        Ok(())
    }
}

/// Resolving a name, by name, build or exec, reads no document: any two
/// resolutions of one such specification give the same name.
pub proof fn lemma_name_is_stable(img: Image, d1: Seq<Node>, d2: Seq<Node>, r1: Result<String, FlokiError>, r2: Result<String, FlokiError>)
    requires
        img is Name || img is Build || img is Exec,
        name_result(img, d1, r1),
        name_result(img, d2, r2),
    ensures
        r1 is Ok && r2 is Ok && r1->Ok_0@ == r2->Ok_0@,
        img is Build ==> r1->Ok_0@ == img->build.name@ + build_tag(),
{
}

/// The subprocess that pulls the image `name`.
pub fn pull_command(name: &str) -> (r: Subprocess)
    ensures
        r.program@ == docker(),
        views(r.args@) == seq![seq!['p', 'u', 'l', 'l'], name@],
{
    proof {
        reveal_strlit("pull");
        assert("pull"@ =~= seq!['p', 'u', 'l', 'l']);
    }
    let mut args: Vec<String> = Vec::new();
    args.push("pull".to_owned());
    args.push(name.to_owned());
    assert(views(args@) =~= seq![seq!['p', 'u', 'l', 'l'], name@]);
    Subprocess { program: docker_program(), args }
}

/// The result of pulling `name` once the pull has ended with exit `code`.
pub fn pull_outcome(name: &str, code: Option<i32>) -> (r: Result<(), FlokiError>)
    ensures
        r is Ok <==> code == Some(0i32),
        r is Err ==> match r->Err_0 {
            FlokiError::FailedToPullImage { image, exit_status } => image@ == name@
                && exit_status.process_description@ == seq!['d', 'o', 'c', 'k', 'e', 'r', ' ', 'p', 'u', 'l', 'l']
                && exit_status.code == code,
            _ => false,
        },
{
    if code == Some(0i32) {
        Ok(())
    } else {
        proof {
            reveal_strlit("docker pull");
            assert("docker pull"@ =~= seq!['d', 'o', 'c', 'k', 'e', 'r', ' ', 'p', 'u', 'l', 'l']);
        }
        Err(FlokiError::FailedToPullImage {
            image: name.to_owned(),
            exit_status: SubprocessExitStatus { process_description: "docker pull".to_owned(), code },
        })
    }
}

/// The subprocess that probes for a local image: `docker history docker:stable-dind`.
pub fn existence_probe() -> (r: Subprocess)
    ensures
        r.program@ == docker(),
        views(r.args@) == seq![seq!['h', 'i', 's', 't', 'o', 'r', 'y'],
            seq!['d', 'o', 'c', 'k', 'e', 'r', ':', 's', 't', 'a', 'b', 'l', 'e', '-', 'd', 'i', 'n', 'd']],
{
    proof {
        reveal_strlit("history");
        reveal_strlit("docker:stable-dind");
        assert("history"@ =~= seq!['h', 'i', 's', 't', 'o', 'r', 'y']);
        assert("docker:stable-dind"@ =~= seq!['d', 'o', 'c', 'k', 'e', 'r', ':', 's', 't', 'a', 'b', 'l', 'e', '-', 'd', 'i', 'n', 'd']);
    }
    let mut args: Vec<String> = Vec::new();
    args.push("history".to_owned());
    args.push("docker:stable-dind".to_owned());
    assert(views(args@) =~= seq![seq!['h', 'i', 's', 't', 'o', 'r', 'y'],
        seq!['d', 'o', 'c', 'k', 'e', 'r', ':', 's', 't', 'a', 'b', 'l', 'e', '-', 'd', 'i', 'n', 'd']]);
    Subprocess { program: docker_program(), args }
}

/// Whether the probe found the image: it exited with code 0.
pub fn exists_from_exit(code: Option<i32>) -> (r: bool)
    ensures
        r == (code == Some(0i32)),
{
    code == Some(0i32)
}

/// The index of the first header whose environment variable is unset, if any.
pub open spec fn first_unset(h: Seq<(String, String, Option<String>)>) -> Option<int>
    decreases h.len(),
{
    if h.len() == 0 {
        None
    } else if h.last().2 is None && first_unset(h.drop_last()) is None {
        Some(h.len() - 1)
    } else {
        first_unset(h.drop_last())
    }
}

/// Each header paired with the value of its variable, in order.
pub open spec fn headers_resolved(h: Seq<(String, String, Option<String>)>, out: Seq<(String, String)>) -> bool {
    out.len() == h.len() && forall|i: int| 0 <= i < h.len()
        ==> (#[trigger] out[i]).0@ == h[i].0@ && h[i].2 is Some && out[i].1@ == h[i].2->0@
}

/// The headers of a request. Each entry is a header, the environment variable that
/// holds its value, and that variable's value as looked up (`None` where it is
/// unset). The first unset variable fails the whole request.
pub fn header_values(headers: &Vec<(String, String, Option<String>)>) -> (r: Result<Vec<(String, String)>, FlokiError>)
    ensures
        match first_unset(headers@) {
            Some(j) => match r {
                Err(FlokiError::MissingEnvironmentVariable { name }) => name@ == headers@[j].1@,
                _ => false,
            },
            None => r is Ok && headers_resolved(headers@, r->Ok_0@),
        },
{
    let mut out: Vec<(String, String)> = Vec::new();
    let mut i: usize = 0;
    while i < headers.len()
        invariant
            i <= headers@.len(),
            first_unset(headers@.subrange(0, i as int)) is None,
            out@.len() == i,
            forall|k: int| 0 <= k < i ==> (#[trigger] out@[k]).0@ == headers@[k].0@ && headers@[k].2 is Some
                && out@[k].1@ == headers@[k].2->0@,
        decreases headers@.len() - i,
    {
        assert(headers@.subrange(0, i + 1).drop_last() =~= headers@.subrange(0, i as int));
        match &headers[i].2 {
            Some(v) => {
                out.push((headers[i].0.clone(), v.clone()));
            },
            None => {
                assert(first_unset(headers@.subrange(0, i + 1)) == Some(i as int));
                proof {
                    lemma_first_unset_prefix(headers@, i + 1);
                }
                return Err(FlokiError::MissingEnvironmentVariable { name: headers[i].1.clone() });
            },
        }
        i = i + 1;
    }
    assert(headers@.subrange(0, i as int) =~= headers@);
    assert(first_unset(headers@) is None);
    assert(headers_resolved(headers@, out@));
    Ok(out)
}

/// The first unset variable of a prefix is the first of the whole.
proof fn lemma_first_unset_prefix(h: Seq<(String, String, Option<String>)>, n: int)
    requires
        0 <= n <= h.len(),
        first_unset(h.subrange(0, n)) is Some,
    ensures
        first_unset(h) == first_unset(h.subrange(0, n)),
    decreases h.len() - n,
{
    if n < h.len() {
        assert(h.subrange(0, n + 1).drop_last() =~= h.subrange(0, n));
        lemma_first_unset_prefix(h, n + 1);
    } else {
        assert(h.subrange(0, n) =~= h);
    }
}

} // verus!
