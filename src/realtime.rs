//! The realtime API: jobs posted to `/<endpoint id>/realtime` are handed
//! straight to the handler, and its value is the reply.

use vstd::prelude::*;
use crate::job_source::Job;
use crate::json::JsonValue;
use crate::text::text_eq;

verus! {

pub struct WorkerAPI<F> {
    pub handler: F,
}

impl<F: Fn(Job) -> JsonValue> WorkerAPI<F> {
    pub fn new(handler: F) -> (r: WorkerAPI<F>)
        ensures
            r.handler == handler,
    {
        WorkerAPI { handler }
    }

    /// Processes one posted job; the handler's value is the reply.
    pub fn run(&self, job: Job) -> (r: JsonValue)
        requires
            (self.handler).requires((job,)),
        ensures
            (self.handler).ensures((job,), r),
    {
        (self.handler)(job)
    }
}

/// Whether a post to `requested`'s realtime route is served: only the
/// worker's own endpoint id is; any other is not found.
pub fn accepts_endpoint(requested: &str, configured: &str) -> (r: bool)
    ensures
        r == (requested@ == configured@),
{
    text_eq(requested, configured)
}

} // verus!
