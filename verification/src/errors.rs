//! Error taxonomy of the pipeline. Every error aborts the run: there is no
//! local recovery, no partial output and no automatic retry.

use vstd::prelude::*;

verus! {

/// Failure of the audio-extraction stage: the external transcoding process
/// did not exit with status 0, or the expected output file was missing or
/// unreadable afterwards.
#[derive(Debug, Clone, PartialEq, Eq)]
pub enum ExtractionError {
    /// The external process terminated with a non-zero exit status, or with
    /// no exit status at all (`exit_code` is `None` when the process was
    /// terminated without one, or could not be started).
    ProcessFailed { exit_code: Option<i32> },
    /// The process exited with status 0 but the expected output file could
    /// not be read.
    OutputUnreadable,
}

/// Failure of the submission stage: transport failure, a non-success HTTP
/// status, or a response that carries no usable operation identifier.
#[derive(Debug, Clone, PartialEq, Eq)]
pub enum SubmissionError {
    /// The request never produced an HTTP response.
    Transport,
    /// The response carried a non-success (outside 200..300) status code.
    HttpStatus { code: u16 },
    /// The response carried no operation identifier, or an empty one; an
    /// empty identifier counts as missing, so that a returned handle always
    /// has a non-empty identifier.
    MissingOperationName,
}

/// Failure of a single status check: transport failure, a non-success HTTP
/// status, or a body that could not be read as a status snapshot.
#[derive(Debug, Clone, PartialEq, Eq)]
pub enum PollError {
    /// The request never produced an HTTP response.
    Transport,
    /// The response carried a non-success (outside 200..300) status code.
    HttpStatus { code: u16 },
    /// The response body was not a well-formed status snapshot.
    MalformedResponse,
}

} // verus!
