//! Client-side decisions for calling a deployed endpoint: where a job's
//! status lives, and when polling it may stop.

use vstd::prelude::*;
use crate::text::text_eq;

verus! {

/// The status URL of job `job_id` on endpoint `endpoint_id`.
pub fn status_url(base: &str, endpoint_id: &str, job_id: &str) -> (r: String)
    ensures
        r@ == base@ + "/"@ + endpoint_id@ + "/status/"@ + job_id@,
{
    String::from_str(base).concat("/").concat(endpoint_id).concat("/status/").concat(job_id)
}

/// Whether a job in `status` has stopped running, so its output can be read.
pub fn is_final_status(status: &str) -> (r: bool)
    ensures
        r == (status@ == "COMPLETED"@ || status@ == "FAILED"@),
{
    text_eq(status, "COMPLETED") || text_eq(status, "FAILED")
}

} // verus!
