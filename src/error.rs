use vstd::prelude::*;

verus! {

/// The ways in which acquiring or launching a pipe can fail.
#[derive(Debug, Clone, Copy, PartialEq, Eq, Structural)]
pub enum PipeError {
    /// A source that is neither a folder reference nor an existing local directory.
    InvalidSource,
    /// A URL whose host is not the supported hosting service.
    UnsupportedSource,
    /// A folder-reference URL without the `owner/repo/tree/branch/subpath` shape.
    InvalidUrlFormat,
    /// A remote listing that is not a JSON array of well-formed entries.
    InvalidApiResponse,
    /// A filesystem copy, write or create failure.
    IoError,
    /// The runtime executable does not exist.
    RuntimeNotFound,
    /// The runtime process could not start for another reason.
    SpawnFailed,
    /// The pipe directory holds no `pipe.js` or `pipe.ts`.
    NoEntryFile,
    /// The runtime exited unsuccessfully; the exit code, if it had one.
    NonZeroExit(Option<i32>),
}

} // verus!
