//! The failure taxonomy of a request and the HTTP status of each kind.

use vstd::prelude::*;

verus! {

/// Why a transcoding backend gave up.
#[derive(Clone, Copy, Debug, PartialEq, Eq, Structural)]
pub enum TranscodeFault {
    /// The input artifact could not be read or decoded.
    UnreadableInput,
    /// The backend cannot produce the requested target format.
    UnsupportedTarget,
    /// The output artifact could not be written.
    WriteFailed,
    /// The external transcoder exited with a non-zero status.
    NonZeroExit,
    /// The external transcoder could not be started.
    SpawnFailed,
    /// The transcoder ran out of time and was stopped.
    TimedOut,
}

/// Why a request failed.
#[derive(Clone, Copy, Debug, PartialEq, Eq, Structural)]
pub enum Failure {
    /// The multipart body was malformed or held no file field.
    BadInput,
    /// The content is no media at all, or not of a category the route takes.
    UnsupportedMedia,
    /// A temporary file could not be created, written or named.
    ResourceFailure,
    /// The transcoding backend reported a failure.
    TranscodeFailure(TranscodeFault),
    /// The output artifact could not be opened for streaming.
    StreamSetupFailure,
}

/// The HTTP status of a successful, streamed response.
pub const STATUS_OK: u16 = 200;

/// The HTTP status that reports a failure.
pub open spec fn status_of(failure: Failure) -> u16 {
    match failure {
        Failure::BadInput => 400,
        Failure::UnsupportedMedia => 415,
        Failure::ResourceFailure => 500,
        Failure::TranscodeFailure(_) => 422,
        Failure::StreamSetupFailure => 500,
    }
}

impl Failure {
    /// The HTTP status that reports this failure.
    pub fn status(self) -> (code: u16)
        ensures
            code == status_of(self),
    {
        match self {
            Failure::BadInput => 400,
            Failure::UnsupportedMedia => 415,
            Failure::ResourceFailure => 500,
            Failure::TranscodeFailure(_) => 422,
            Failure::StreamSetupFailure => 500,
        }
    }
}

/// Every failure is reported as a client or server error, and never as the
/// status of a streamed response.
pub proof fn law_failure_status_is_an_error(failure: Failure)
    ensures
        status_of(failure) == 400 || status_of(failure) == 415 || status_of(failure) == 422
            || status_of(failure) == 500,
        status_of(failure) != STATUS_OK,
{
}

} // verus!
