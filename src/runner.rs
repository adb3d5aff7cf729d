//! Running a handler on a job and normalising what it returns.

use vstd::prelude::*;
use crate::json::{
    find_key, has_key, is_first_key, lemma_first_key_unique, lemma_without_key_lacks, remove_key,
    without_key, JsonValue,
};

verus! {

/// Size above which a result is flagged as too large, in bytes (20 MB).
pub const RETURN_SIZE_LIMIT_BYTES: usize = 20_000_000;

/// The envelope a job's outcome is delivered in.
#[derive(Debug, Clone, PartialEq, Eq)]
pub enum JobResult {
    /// `{ output: v }`.
    Output(JsonValue),
    /// `{ error: text }`, the text being the handler's error value as JSON.
    Error(String),
    /// `{ stopPod: true, output: v }`: the worker retires after this job.
    StopPod(JsonValue),
}

impl JobResult {
    /// Whether the handler asked for the worker to be retired.
    pub open spec fn spec_stop_pod(&self) -> bool {
        self is StopPod
    }

    pub fn stop_pod(&self) -> (r: bool)
        ensures
            r == self.spec_stop_pod(),
    {
        match self {
            JobResult::StopPod(_) => true,
            _ => false,
        }
    }
}

/// The fields of the delivered envelope: `stopPod`, `output` and `error`,
/// each present or not.
#[derive(Debug, Clone, PartialEq, Eq)]
pub struct Envelope {
    pub stop_pod: bool,
    pub output: Option<JsonValue>,
    pub error: Option<String>,
}

impl JobResult {
    /// The envelope fields of this result: exactly one of `output` and
    /// `error` is present, and `stopPod` only beside an output.
    pub fn into_envelope(self) -> (r: Envelope)
        ensures
            match self {
                JobResult::Output(v) => !r.stop_pod && r.output == Some(v) && r.error.is_none(),
                JobResult::Error(e) => !r.stop_pod && r.output.is_none() && r.error == Some(e),
                JobResult::StopPod(v) => r.stop_pod && r.output == Some(v) && r.error.is_none(),
            },
    {
        match self {
            JobResult::Output(v) => Envelope { stop_pod: false, output: Some(v), error: None },
            JobResult::Error(e) => Envelope { stop_pod: false, output: None, error: Some(e) },
            JobResult::StopPod(v) => Envelope { stop_pod: true, output: Some(v), error: None },
        }
    }
}

/// `r` is what the normalisation rules make of the handler output `v`: a
/// boolean is wrapped as output; an object with an `error` member gives that
/// member's JSON text as the error; else an object with a `refresh_worker`
/// member loses that member and asks for retirement; anything else is output.
pub open spec fn normalizes_to(v: JsonValue, r: JobResult) -> bool {
    match v {
        JsonValue::Object(ms) => if has_key(ms@, "error"@) {
            exists|i: int|
                is_first_key(ms@, "error"@, i) && r == JobResult::Error(ms@[i].text)
        } else if has_key(ms@, "refresh_worker"@) {
            match r {
                JobResult::StopPod(JsonValue::Object(rest)) => rest@ == without_key(
                    ms@,
                    "refresh_worker"@,
                ),
                _ => false,
            }
        } else {
            r == JobResult::Output(v)
        },
        _ => r == JobResult::Output(v),
    }
}

/// Normalises a handler's return value into a result envelope.
pub fn normalize_output(v: JsonValue) -> (r: JobResult)
    ensures
        normalizes_to(v, r),
        v == JsonValue::Bool(true) ==> r == JobResult::Output(JsonValue::Bool(true)),
{
    match v {
        JsonValue::Object(ms) => {
            match find_key(&ms, "error") {
                Some(i) => {
                    let text = ms[i].text.clone();
                    proof {
                        assert forall|j: int| is_first_key(ms@, "error"@, j) implies ms@[j].text
                            == ms@[i as int].text by {
                            lemma_first_key_unique(ms@, "error"@, i as int, j);
                        }
                    }
                    return JobResult::Error(text);
                },
                None => {},
            }
            match find_key(&ms, "refresh_worker") {
                Some(_) => JobResult::StopPod(JsonValue::Object(remove_key(ms, "refresh_worker"))),
                None => JobResult::Output(JsonValue::Object(ms)),
            }
        },
        other => JobResult::Output(other),
    }
}

/// A handler output that asks for retirement (an object with a
/// `refresh_worker` member and no `error` member) normalises to a result
/// that retires the worker and whose output has no `refresh_worker` member.
pub proof fn lemma_refresh_worker_retires(v: JsonValue, r: JobResult)
    requires
        v matches JsonValue::Object(ms) && has_key(ms@, "refresh_worker"@) && !has_key(ms@, "error"@),
        normalizes_to(v, r),
    ensures
        r.spec_stop_pod(),
        r matches JobResult::StopPod(JsonValue::Object(rest)) && !has_key(rest@, "refresh_worker"@),
{
    if let JsonValue::Object(ms) = v {
        lemma_without_key_lacks(ms@, "refresh_worker"@);
    }
}

/// Runs `handler` on a job's input and normalises what it returns.
pub fn run_job<F: Fn(JsonValue) -> JsonValue>(handler: F, input: JsonValue) -> (r: JobResult)
    requires
        handler.requires((input,)),
    ensures
        exists|out: JsonValue| handler.ensures((input,), out) && normalizes_to(out, r),
{
    let out = handler(input);
    normalize_output(out)
}

/// Whether a serialised result of `size_bytes` bytes exceeds the advisory
/// 20 MB limit. The result is delivered either way.
pub fn check_return_size(size_bytes: usize) -> (r: bool)
    ensures
        r == (size_bytes > 20_000_000),
{
    size_bytes > RETURN_SIZE_LIMIT_BYTES
}

} // verus!
