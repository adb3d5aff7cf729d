//! What each liveness ping carries. The caller sends it every interval,
//! whatever became of the previous one.

use vstd::prelude::*;
use crate::worker_state::{ping_url_of, WorkerState};

verus! {

/// One ping: the URL to GET, and the current job id to pass as `job_id`.
#[derive(Debug, Clone, PartialEq, Eq)]
pub struct PingRequest {
    pub url: String,
    pub job_id: Option<String>,
}

/// The ping to send now, or `None` when no ping endpoint is configured.
pub fn ping_request(state: &WorkerState) -> (r: Option<PingRequest>)
    ensures
        r.is_some() == state.ping_template.is_some(),
        r.is_some() ==> r.unwrap().url@ == ping_url_of(state.ping_template.unwrap()@, state.worker_id@),
        r.is_some() ==> r.unwrap().job_id.is_some() == state.current_job().is_some(),
        r.is_some() && state.current_job().is_some() ==> r.unwrap().job_id.unwrap()@
            == state.current_job().unwrap(),
{
    match state.webhook_ping() {
        Some(url) => Some(PingRequest { url, job_id: state.get_current_job_id() }),
        None => None,
    }
}

} // verus!
