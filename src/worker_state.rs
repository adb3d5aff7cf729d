//! Identity, endpoint templates and the current-job slot of one worker.

use vstd::prelude::*;
use crate::text::{substitute, substituted};

verus! {

/// Heartbeat interval used when none is configured, in milliseconds.
pub const DEFAULT_PING_INTERVAL_MS: u64 = 10000;

/// A lower-case hexadecimal digit.
pub open spec fn is_lower_hex(c: char) -> bool {
    (48 <= c as u32 <= 57) || (97 <= c as u32 <= 102)
}

/// The hyphenated form of a UUID: 36 characters, hyphens at positions 8, 13,
/// 18 and 23, lower-case hexadecimal digits elsewhere.
pub open spec fn is_uuid_text(s: Seq<char>) -> bool {
    &&& s.len() == 36
    &&& forall|i: int|
        0 <= i < 36 ==> if i == 8 || i == 13 || i == 18 || i == 23 {
            #[trigger] s[i] == '-'
        } else {
            is_lower_hex(s[i])
        }
}

/// Relies on uuid::Uuid::new_v4 and its `Display`, which writes the
/// lower-case hyphenated form: a fresh random identifier.
#[verifier::external_body]
pub(crate) fn new_uuid() -> (r: String)
    ensures
        is_uuid_text(r@),
{
    uuid::Uuid::new_v4().to_string()
}

/// Process-wide worker state: the worker's identity, the configured endpoint
/// templates and the id of the job being executed, if any.
#[derive(Debug, Clone, PartialEq, Eq)]
pub struct WorkerState {
    pub worker_id: String,
    pub job_get_template: Option<String>,
    pub job_done_template: Option<String>,
    pub ping_template: Option<String>,
    pub ping_interval_ms: u64,
    pub current_job_id: Option<String>,
}

/// The URL a template gives once `$ID` is replaced by the worker id.
pub open spec fn get_url_of(template: Seq<char>, worker_id: Seq<char>) -> Seq<char> {
    substituted(template, "$ID"@, worker_id)
}

/// The result-submission URL: the worker id replaces `$RUNPOD_POD_ID`, then the
/// job id replaces `$ID`.
pub open spec fn done_url_of(template: Seq<char>, worker_id: Seq<char>, job_id: Seq<char>) -> Seq<char> {
    substituted(substituted(template, "$RUNPOD_POD_ID"@, worker_id), "$ID"@, job_id)
}

/// The heartbeat URL: the worker id replaces `$RUNPOD_POD_ID`.
pub open spec fn ping_url_of(template: Seq<char>, worker_id: Seq<char>) -> Seq<char> {
    substituted(template, "$RUNPOD_POD_ID"@, worker_id)
}

impl WorkerState {
    /// The current job id, as a plain sequence of characters.
    pub open spec fn current_job(&self) -> Option<Seq<char>> {
        match self.current_job_id {
            Some(id) => Some(id@),
            None => None,
        }
    }

    /// Builds the state from configuration. Without a configured pod id a fresh
    /// random worker id is generated; the ping interval defaults to ten seconds.
    pub fn new(
        pod_id: Option<String>,
        job_get_template: Option<String>,
        job_done_template: Option<String>,
        ping_template: Option<String>,
        ping_interval_ms: Option<u64>,
    ) -> (r: WorkerState)
        ensures
            pod_id.is_some() ==> r.worker_id == pod_id.unwrap(),
            pod_id.is_none() ==> is_uuid_text(r.worker_id@),
            r.job_get_template == job_get_template,
            r.job_done_template == job_done_template,
            r.ping_template == ping_template,
            r.ping_interval_ms == match ping_interval_ms {
                Some(ms) => ms,
                None => DEFAULT_PING_INTERVAL_MS,
            },
            r.current_job().is_none(),
    {
        let worker_id = match pod_id {
            Some(id) => id,
            None => new_uuid(),
        };
        let ping_interval_ms = match ping_interval_ms {
            Some(ms) => ms,
            None => DEFAULT_PING_INTERVAL_MS,
        };
        WorkerState {
            worker_id,
            job_get_template,
            job_done_template,
            ping_template,
            ping_interval_ms,
            current_job_id: None,
        }
    }

    /// The id of the job being executed, if any.
    pub fn get_current_job_id(&self) -> (r: Option<String>)
        ensures
            r.is_some() == self.current_job().is_some(),
            r.is_some() ==> r.unwrap()@ == self.current_job().unwrap(),
    {
        match &self.current_job_id {
            Some(id) => Some(id.clone()),
            None => None,
        }
    }

    /// `after` is `before` with its current-job slot replaced by `id`.
    pub open spec fn job_set(before: WorkerState, after: WorkerState, id: Option<String>) -> bool {
        &&& after.current_job_id == id
        &&& after.worker_id == before.worker_id
        &&& after.job_get_template == before.job_get_template
        &&& after.job_done_template == before.job_done_template
        &&& after.ping_template == before.ping_template
        &&& after.ping_interval_ms == before.ping_interval_ms
    }

    /// Replaces the current-job slot; every other field is kept.
    pub fn set_job_id(&mut self, new_job_id: Option<String>)
        ensures
            WorkerState::job_set(*old(self), *final(self), new_job_id),
    {
        self.current_job_id = new_job_id;
    }

    /// Whether jobs are fetched from a remote queue (else from a local fixture).
    pub fn remote_mode(&self) -> (r: bool)
        ensures
            r == self.job_get_template.is_some(),
    {
        self.job_get_template.is_some()
    }

    /// The job-fetch URL, or `None` when no fetch endpoint is configured.
    pub fn job_get_url(&self) -> (r: Option<String>)
        ensures
            r.is_some() == self.job_get_template.is_some(),
            r.is_some() ==> r.unwrap()@ == get_url_of(
                self.job_get_template.unwrap()@,
                self.worker_id@,
            ),
    {
        match &self.job_get_template {
            Some(t) => {
                proof {
                    reveal_strlit("$ID");
                }
                Some(substitute(t.as_str(), "$ID", self.worker_id.as_str()))
            },
            None => None,
        }
    }

    /// The result-submission template with the worker id filled in, or
    /// `None` when no submission endpoint is configured.
    pub fn job_done_url_template(&self) -> (r: Option<String>)
        ensures
            r.is_some() == self.job_done_template.is_some(),
            r.is_some() ==> r.unwrap()@ == substituted(
                self.job_done_template.unwrap()@,
                "$RUNPOD_POD_ID"@,
                self.worker_id@,
            ),
    {
        match &self.job_done_template {
            Some(t) => {
                proof {
                    reveal_strlit("$RUNPOD_POD_ID");
                }
                Some(substitute(t.as_str(), "$RUNPOD_POD_ID", self.worker_id.as_str()))
            },
            None => None,
        }
    }

    /// The result-submission URL for the current job, or `None` when no
    /// submission endpoint is configured or no job is current.
    pub fn get_done_url(&self) -> (r: Option<String>)
        ensures
            r.is_some() == (self.job_done_template.is_some() && self.current_job().is_some()),
            r.is_some() ==> r.unwrap()@ == done_url_of(
                self.job_done_template.unwrap()@,
                self.worker_id@,
                self.current_job().unwrap(),
            ),
    {
        match (self.job_done_url_template(), &self.current_job_id) {
            (Some(with_worker), Some(job)) => {
                proof {
                    reveal_strlit("$ID");
                }
                Some(substitute(with_worker.as_str(), "$ID", job.as_str()))
            },
            _ => None,
        }
    }

    /// The heartbeat URL, or `None` when heartbeating is disabled.
    pub fn webhook_ping(&self) -> (r: Option<String>)
        ensures
            r.is_some() == self.ping_template.is_some(),
            r.is_some() ==> r.unwrap()@ == ping_url_of(
                self.ping_template.unwrap()@,
                self.worker_id@,
            ),
    {
        match &self.ping_template {
            Some(t) => {
                proof {
                    reveal_strlit("$RUNPOD_POD_ID");
                }
                Some(substitute(t.as_str(), "$RUNPOD_POD_ID", self.worker_id.as_str()))
            },
            None => None,
        }
    }

    /// The heartbeat interval in milliseconds.
    pub fn ping_interval(&self) -> (r: u64)
        ensures
            r == self.ping_interval_ms,
    {
        self.ping_interval_ms
    }
}

/// Reading the current-job slot after setting it gives what was set: the id
/// after setting an id, nothing after clearing it.
pub proof fn lemma_set_then_get(before: WorkerState, after: WorkerState, id: Option<String>)
    requires
        WorkerState::job_set(before, after, id),
    ensures
        id.is_some() ==> after.current_job() == Some(id.unwrap()@),
        id.is_none() ==> after.current_job().is_none(),
{
}

} // verus!
