//! The failure taxonomy of a conversion job.

use vstd::prelude::*;

use crate::comment::Comment;
use crate::comment::CommentParseError;
use crate::shrink::ToolKind;
use crate::supervisor::ExitInfo;

verus! {

/// Everything a job can resolve to besides a measured delta.
///
/// `AlreadyConverted` and `InputFormatUnknown` are skips, not failures;
/// `Cancelled` stops the whole batch; the rest are failures of this job
/// or of the run.
#[derive(Clone, Debug)]
pub enum Error {
    /// The input path does not exist.
    InputNotFound(String),
    /// The input is a symlink, which is not followed.
    InputIsSymlink(String),
    /// The replace destination already exists and differs from the input.
    OutputExists(String),
    /// The input could not be identified, or its type is unsupported.
    InputFormatUnknown(String),
    /// The tool's binary was not found on the search path.
    BinaryNotFound(String),
    /// The binary named by the environment override does not exist.
    BinaryInEnvNotFound(String),
    /// The tool exited with a failure status: which family, and how.
    Invocation(ToolKind, ExitInfo),
    /// The input already carries this marker: a skip, not an error.
    AlreadyConverted(Comment),
    /// A marker text that did not parse; handled locally, never fatal.
    Comment(CommentParseError),
    /// The operator interrupted the invocation.
    Cancelled,
    /// The identification backend failed, with its description.
    Magic(String),
    /// A filesystem or stream failure, with the shell's description.
    Io(String),
    /// The path search itself failed (not merely "nothing found").
    Which(String),
    /// Forwarding the interrupt failed, with the system's error number.
    Signal(i32),
}

impl Error {
    /// Skips leave the batch running and do not mark it failed.
    pub open spec fn spec_is_skip(self) -> bool {
        self matches Error::InputFormatUnknown(_) || self matches Error::AlreadyConverted(_)
    }

    pub fn is_skip(&self) -> (r: bool)
        ensures
            r == self.spec_is_skip(),
    {
        match self {
            Error::InputFormatUnknown(_) => true,
            Error::AlreadyConverted(_) => true,
            _ => false,
        }
    }
}

} // verus!
