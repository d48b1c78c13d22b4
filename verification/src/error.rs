use vstd::prelude::*;

verus! {

/// `std::io::Error`: why an operation on a file or a process failed. It is carried, never
/// looked into.
#[verifier::external_type_specification]
#[verifier::external_body]
pub struct ExIoError(std::io::Error);

/// What can go wrong while shells are listed and their variables are extracted.
#[derive(Debug)]
pub enum Error {
    /// The output of the extractor is not found between its markers.
    NoExtractorOutput,
    /// The lock around the shared extractor was left poisoned.
    PoisonError(String),
    /// A file system operation failed.
    Io(std::io::Error),
    /// The output of the shell cannot be read as the extractor's output. Carries the
    /// cause, the exit code of the process, its stdout and its stderr.
    Parsing(String, Option<i32>, String, String),
    /// The extractor could not be started, directly or as a command of the shell.
    Executing(std::io::Error),
    /// The extractor could not be put into the temporary folder.
    Create(std::io::Error),
    /// The stdout or the stderr of the process is not valid text.
    Decoding(core::str::Utf8Error),
    /// The file at this path does not exist.
    NotFound(String),
    /// The platform is neither of the two supported families.
    NotSupportedPlatform,
    /// An environment variable that is needed to locate the shells is not set.
    NotFoundEnvVar(String),
    /// Any other failure.
    Other(String),
}

} // verus!
