//! The decisions of the worker loop: Idle, Fetching, Executing, Submitting.
//! The caller performs each action and reports what came of it.

use vstd::prelude::*;
use crate::worker_state::WorkerState;

verus! {

/// Wait before fetching again when no job was available, in milliseconds.
pub const NO_JOB_BACKOFF_MS: u64 = 1000;

#[derive(PartialEq, Eq, Structural, Clone, Copy, Debug)]
pub enum Phase {
    Idle,
    Fetching,
    Executing,
    Submitting,
}

/// What the caller reports back.
#[derive(Debug, Clone, PartialEq, Eq)]
pub enum LoopEvent {
    /// The loop may go on (from Idle).
    Ready,
    /// No job was available.
    NoJob,
    /// A job with this id was acquired.
    JobAcquired(String),
    /// The handler returned; `true` when its result asks for retirement.
    HandlerReturned(bool),
    /// Submission ended, delivered or not.
    Submitted,
}

/// What the caller does next.
#[derive(PartialEq, Eq, Structural, Clone, Copy, Debug)]
pub enum LoopAction {
    FetchJob,
    /// Wait this many milliseconds, then report `Ready`.
    WaitBeforeFetch(u64),
    RunHandler,
    SubmitResult,
    /// Report `Ready` and go on.
    Continue,
    /// The process retires after this iteration.
    Terminate,
    /// The event does not fit the phase; nothing changed.
    Ignored,
}

#[derive(Debug, Clone, PartialEq, Eq)]
pub struct WorkerLoop {
    pub phase: Phase,
    /// Set once a result asked for retirement, until it is submitted.
    pub stop_after_submit: bool,
}

impl WorkerLoop {
    /// The loop and the worker state agree: a job is current exactly while
    /// it is being executed or submitted.
    pub open spec fn wf(&self, state: WorkerState) -> bool {
        &&& (self.phase == Phase::Executing || self.phase == Phase::Submitting)
            == state.current_job().is_some()
        &&& self.phase != Phase::Submitting ==> !self.stop_after_submit
    }

    pub fn new() -> (r: WorkerLoop)
        ensures
            r.phase == Phase::Idle,
            !r.stop_after_submit,
    {
        WorkerLoop { phase: Phase::Idle, stop_after_submit: false }
    }

    /// The transition for `event`: the new phase, the action, and the
    /// current-job slot set on acquisition and cleared after submission.
    pub fn step(&mut self, state: &mut WorkerState, event: LoopEvent) -> (r: LoopAction)
        requires
            old(self).wf(*old(state)),
        ensures
            final(self).wf(*final(state)),
            final(state).worker_id == old(state).worker_id,
            final(state).job_get_template == old(state).job_get_template,
            final(state).job_done_template == old(state).job_done_template,
            final(state).ping_template == old(state).ping_template,
            final(state).ping_interval_ms == old(state).ping_interval_ms,
            match (old(self).phase, event) {
                (Phase::Idle, LoopEvent::Ready) => r == LoopAction::FetchJob && final(self).phase
                    == Phase::Fetching && final(state).current_job() == old(state).current_job(),
                (Phase::Fetching, LoopEvent::NoJob) => r == LoopAction::WaitBeforeFetch(
                    NO_JOB_BACKOFF_MS,
                ) && final(self).phase == Phase::Idle && final(state).current_job()
                    == old(state).current_job(),
                (Phase::Fetching, LoopEvent::JobAcquired(id)) => r == LoopAction::RunHandler
                    && final(self).phase == Phase::Executing && final(state).current_job() == Some(
                    id@,
                ),
                (Phase::Executing, LoopEvent::HandlerReturned(stop)) => r
                    == LoopAction::SubmitResult && final(self).phase == Phase::Submitting
                    && final(self).stop_after_submit == stop && final(state).current_job()
                    == old(state).current_job(),
                (Phase::Submitting, LoopEvent::Submitted) => r == (if old(self).stop_after_submit {
                    LoopAction::Terminate
                } else {
                    LoopAction::Continue
                }) && final(self).phase == Phase::Idle && final(state).current_job().is_none(),
                _ => r == LoopAction::Ignored && final(self).phase == old(self).phase
                    && final(self).stop_after_submit == old(self).stop_after_submit
                    && final(state).current_job() == old(state).current_job(),
            },
    {
        match (self.phase, event) {
            (Phase::Idle, LoopEvent::Ready) => {
                self.phase = Phase::Fetching;
                LoopAction::FetchJob
            },
            (Phase::Fetching, LoopEvent::NoJob) => {
                self.phase = Phase::Idle;
                LoopAction::WaitBeforeFetch(NO_JOB_BACKOFF_MS)
            },
            (Phase::Fetching, LoopEvent::JobAcquired(id)) => {
                state.set_job_id(Some(id));
                self.phase = Phase::Executing;
                LoopAction::RunHandler
            },
            (Phase::Executing, LoopEvent::HandlerReturned(stop)) => {
                self.phase = Phase::Submitting;
                self.stop_after_submit = stop;
                LoopAction::SubmitResult
            },
            (Phase::Submitting, LoopEvent::Submitted) => {
                state.set_job_id(None);
                self.phase = Phase::Idle;
                let stop = self.stop_after_submit;
                self.stop_after_submit = false;
                if stop {
                    LoopAction::Terminate
                } else {
                    LoopAction::Continue
                }
            },
            _ => LoopAction::Ignored,
        }
    }
}

} // verus!
