//! Where a job's result goes, and when a delivery counts as done.

use vstd::prelude::*;
use crate::worker_state::{done_url_of, WorkerState};

verus! {

#[derive(Debug, Clone, PartialEq, Eq)]
pub enum SubmitPlan {
    /// No submission endpoint (or no current job): the result is only logged.
    LocalOnly,
    /// POST the serialised result here, retried with `RetryPolicy::for_results`.
    Post(String),
}

/// How the current job's result is delivered.
pub fn submit_plan(state: &WorkerState) -> (r: SubmitPlan)
    ensures
        (r is Post) == (state.job_done_template.is_some() && state.current_job().is_some()),
        r matches SubmitPlan::Post(url) ==> url@ == done_url_of(
            state.job_done_template.unwrap()@,
            state.worker_id@,
            state.current_job().unwrap(),
        ),
{
    match state.get_done_url() {
        Some(url) => SubmitPlan::Post(url),
        None => SubmitPlan::LocalOnly,
    }
}

/// Whether a response status counts as delivered; any other is a retryable
/// failure.
pub fn delivery_succeeded(status: u16) -> (r: bool)
    ensures
        r == (status == 200),
{
    status == 200
}

} // verus!
