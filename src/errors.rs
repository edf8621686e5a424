//! The kinds of failure that resolving or obtaining an image can end in.
use vstd::prelude::*;

verus! {

/// How a subprocess ended: the command it ran and its exit code, `None` where a
/// signal ended it.
#[derive(Debug, PartialEq, Eq)]
pub struct SubprocessExitStatus {
    pub process_description: String,
    pub code: Option<i32>,
}

#[derive(Debug, PartialEq, Eq)]
pub enum FlokiError {
    ProblemOpeningConfigYaml { name: String, error: String },
    ProblemParsingConfigYaml { name: String, error: String },
    FailedToBuildImage { image: String, exit_status: SubprocessExitStatus },
    FailedToPullImage { image: String, exit_status: SubprocessExitStatus },
    FailedToCheckForImage { image: String, error: String },
    /// A key path led nowhere, or to a value that is not a string.
    FailedToResolveKey { key: String, source: String },
    /// A remote document was answered with a status other than success.
    FailedToFetchRemoteDocument { url: String, status: u16 },
    /// A fetched document could not be read as structured text.
    DocumentNotParsed { source: String },
    /// A request header names an environment variable that is not set.
    MissingEnvironmentVariable { name: String },
    InternalAssertionFailed { description: String },
}

} // verus!
