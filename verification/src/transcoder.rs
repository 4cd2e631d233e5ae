//! How a run of the external transcoder is judged. The transcoder is a child
//! process that gets one input path and one output path; only a clean exit
//! counts as success.

use crate::failure::TranscodeFault;
use crate::pipeline::Event;
use vstd::prelude::*;

verus! {

/// How a run of the external transcoder ended.
#[derive(Clone, Copy, Debug, PartialEq, Eq, Structural)]
pub enum ExternalRun {
    /// The process could not be started.
    NotStarted,
    /// The process ended, with this exit code if it has one. A process that
    /// was ended by a signal, or could not be waited for, has none.
    Exited(Option<i32>),
    /// The process was still running at the time limit and was stopped.
    OutOfTime,
}

/// The fault, if any, of a run: none exactly for a process that ended with
/// exit code zero.
pub open spec fn fault_of(run: ExternalRun) -> Option<TranscodeFault> {
    match run {
        ExternalRun::NotStarted => Some(TranscodeFault::SpawnFailed),
        ExternalRun::Exited(Some(code)) => if code == 0 {
            None
        } else {
            Some(TranscodeFault::NonZeroExit)
        },
        ExternalRun::Exited(None) => Some(TranscodeFault::NonZeroExit),
        ExternalRun::OutOfTime => Some(TranscodeFault::TimedOut),
    }
}

impl ExternalRun {
    /// The fault of this run, if it has one.
    pub fn fault(self) -> (fault: Option<TranscodeFault>)
        ensures
            fault == fault_of(self),
    {
        match self {
            ExternalRun::NotStarted => Some(TranscodeFault::SpawnFailed),
            ExternalRun::Exited(Some(code)) => if code == 0 {
                None
            } else {
                Some(TranscodeFault::NonZeroExit)
            },
            ExternalRun::Exited(None) => Some(TranscodeFault::NonZeroExit),
            ExternalRun::OutOfTime => Some(TranscodeFault::TimedOut),
        }
    }

    /// What the pipeline is told of this run.
    pub fn event(self) -> (event: Event)
        ensures
            event == match fault_of(self) {
                Some(fault) => Event::TranscodeFailed(fault),
                None => Event::TranscodeSucceeded,
            },
    {
        match self.fault() {
            Some(fault) => Event::TranscodeFailed(fault),
            None => Event::TranscodeSucceeded,
        }
    }
}

/// A run succeeds only by a clean exit: a run that did not start, ended with
/// another code or with none, or ran out of time, is a failure, and each of
/// these is told apart from a run that could not be started.
pub proof fn law_only_a_clean_exit_succeeds(run: ExternalRun)
    ensures
        fault_of(run) is None <==> run == ExternalRun::Exited(Some(0i32)),
        fault_of(run) == Some(TranscodeFault::SpawnFailed) <==> run == ExternalRun::NotStarted,
        fault_of(run) == Some(TranscodeFault::TimedOut) <==> run == ExternalRun::OutOfTime,
{
}

} // verus!
