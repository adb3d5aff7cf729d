//! Turning what was fetched (a queue response or a local fixture) into a job.

use vstd::prelude::*;
use crate::json::{find_key, has_key, is_first_key, parse_json, parsed_json, JsonValue, Member};

verus! {

/// A unit of work: its id and the record handed to the handler.
#[derive(Debug, Clone, PartialEq, Eq)]
pub struct Job {
    pub id: String,
    pub input: JsonValue,
}

/// The id a member carries: the string itself when it is a JSON string, else
/// its JSON text.
pub open spec fn id_text(m: Member) -> Seq<char> {
    match m.string {
        Some(s) => s@,
        None => m.text@,
    }
}

/// The members of a job's record.
pub open spec fn record_members(j: Job) -> Option<Seq<Member>> {
    match j.input {
        JsonValue::Object(ms) => Some(ms@),
        _ => None,
    }
}

/// `j` is the job that a record with members `ms` and an `id` member stands
/// for: the record unchanged, its id read from the first `id` member.
pub open spec fn job_of_record(ms: Seq<Member>, j: Job) -> bool {
    &&& record_members(j) == Some(ms)
    &&& exists|i: int| is_first_key(ms, "id"@, i) && j.id@ == id_text(#[trigger] ms[i])
}

/// `m` is the member `"id": "local_test"`.
pub open spec fn is_local_id_member(m: Member) -> bool {
    &&& m.key@ == "id"@
    &&& m.text@ == "\"local_test\""@
    &&& m.string.is_some()
    &&& m.string.unwrap()@ == "local_test"@
}

/// The job a local fixture gives: a record without `id` gets
/// `"id": "local_test"` appended, a record with one keeps it.
pub open spec fn local_job_from(parsed: Option<JsonValue>, r: Option<Job>) -> bool {
    match parsed {
        Some(JsonValue::Object(ms)) => r.is_some() && if has_key(ms@, "id"@) {
            job_of_record(ms@, r.unwrap())
        } else {
            &&& r.unwrap().id@ == "local_test"@
            &&& record_members(r.unwrap()) is Some
            &&& record_members(r.unwrap()).unwrap().len() == ms@.len() + 1
            &&& record_members(r.unwrap()).unwrap().drop_last() == ms@
            &&& is_local_id_member(record_members(r.unwrap()).unwrap().last())
        },
        _ => r.is_none(),
    }
}

/// The job a queue response gives: a record with an `id` member, unchanged.
pub open spec fn remote_job_from(parsed: Option<JsonValue>, r: Option<Job>) -> bool {
    match parsed {
        Some(JsonValue::Object(ms)) => if has_key(ms@, "id"@) {
            r.is_some() && job_of_record(ms@, r.unwrap())
        } else {
            r.is_none()
        },
        _ => r.is_none(),
    }
}

/// The id carried by member `i` of `ms`.
fn member_id(ms: &Vec<Member>, i: usize) -> (r: String)
    requires
        i < ms@.len(),
    ensures
        r@ == id_text(ms@[i as int]),
{
    match &ms[i].string {
        Some(s) => s.clone(),
        None => ms[i].text.clone(),
    }
}

proof fn lemma_job_of_record(ms: Seq<Member>, i: int, j: Job)
    requires
        is_first_key(ms, "id"@, i),
        record_members(j) == Some(ms),
        j.id@ == id_text(ms[i]),
    ensures
        job_of_record(ms, j),
{
}

/// Completes a parsed local fixture into a job; anything but a JSON object
/// gives no job.
pub fn local_job(parsed: Option<JsonValue>) -> (r: Option<Job>)
    ensures
        local_job_from(parsed, r),
{
    match parsed {
        Some(JsonValue::Object(ms)) => {
            match find_key(&ms, "id") {
                Some(i) => {
                    let id = member_id(&ms, i);
                    let ghost gms = ms@;
                    let j = Job { id, input: JsonValue::Object(ms) };
                    proof {
                        lemma_job_of_record(gms, i as int, j);
                    }
                    Some(j)
                },
                None => {
                    let mut ms = ms;
                    let m = Member {
                        key: String::from_str("id"),
                        text: String::from_str("\"local_test\""),
                        string: Some(String::from_str("local_test")),
                    };
                    let ghost before = ms@;
                    ms.push(m);
                    assert(ms@.drop_last() =~= before);
                    Some(Job { id: String::from_str("local_test"), input: JsonValue::Object(ms) })
                },
            }
        },
        _ => None,
    }
}

/// Accepts a parsed queue response as a job when it is an object with an
/// `id` member.
pub fn remote_job(parsed: Option<JsonValue>) -> (r: Option<Job>)
    ensures
        remote_job_from(parsed, r),
{
    match parsed {
        Some(JsonValue::Object(ms)) => {
            match find_key(&ms, "id") {
                Some(i) => {
                    let id = member_id(&ms, i);
                    let ghost gms = ms@;
                    let j = Job { id, input: JsonValue::Object(ms) };
                    proof {
                        lemma_job_of_record(gms, i as int, j);
                    }
                    Some(j)
                },
                None => None,
            }
        },
        _ => None,
    }
}

/// The job in local mode: `fixture` is the fixture file's content, `None`
/// when the file could not be read.
pub fn get_local(fixture: Option<String>) -> (r: Option<Job>)
    ensures
        fixture.is_none() ==> r.is_none(),
        fixture.is_some() ==> local_job_from(parsed_json(fixture.unwrap()@), r),
{
    match fixture {
        Some(text) => local_job(parse_json(text.as_str())),
        None => None,
    }
}

/// The next job: in remote mode `fetched` is the queue's response body
/// (`None` on a network failure), else the local fixture's content.
pub fn get_job(remote_mode: bool, fetched: Option<String>) -> (r: Option<Job>)
    ensures
        fetched.is_none() ==> r.is_none(),
        fetched.is_some() && remote_mode ==> remote_job_from(parsed_json(fetched.unwrap()@), r),
        fetched.is_some() && !remote_mode ==> local_job_from(parsed_json(fetched.unwrap()@), r),
{
    if remote_mode {
        match fetched {
            Some(body) => remote_job(parse_json(body.as_str())),
            None => None,
        }
    } else {
        get_local(fetched)
    }
}

} // verus!
