use runpod::job_source::{get_job, get_local, local_job, remote_job, Job};
use runpod::json::{find_key, remove_key, JsonValue, Member};
use runpod::runner::{check_return_size, normalize_output, run_job, JobResult};

fn member(key: &str, text: &str) -> Member {
    Member { key: key.to_string(), text: text.to_string(), string: None }
}

fn string_member(key: &str, s: &str) -> Member {
    Member { key: key.to_string(), text: format!("\"{}\"", s), string: Some(s.to_string()) }
}

fn members(v: &JsonValue) -> Vec<Member> {
    match v {
        JsonValue::Object(ms) => ms.clone(),
        other => panic!("not an object: {:?}", other),
    }
}

#[test]
fn boolean_true_is_wrapped_as_output() {
    assert_eq!(normalize_output(JsonValue::Bool(true)), JobResult::Output(JsonValue::Bool(true)));
}

#[test]
fn boolean_false_is_wrapped_as_output() {
    assert_eq!(normalize_output(JsonValue::Bool(false)), JobResult::Output(JsonValue::Bool(false)));
}

#[test]
fn error_member_becomes_error_text() {
    let v = JsonValue::Object(vec![member("value", "1"), string_member("error", "boom")]);
    assert_eq!(normalize_output(v), JobResult::Error("\"boom\"".to_string()));
}

#[test]
fn error_wins_over_refresh_worker() {
    let v = JsonValue::Object(vec![member("refresh_worker", "true"), member("error", "{\"code\":3}")]);
    assert_eq!(normalize_output(v), JobResult::Error("{\"code\":3}".to_string()));
}

#[test]
fn refresh_worker_is_removed_and_stops_pod() {
    let v = JsonValue::Object(vec![member("refresh_worker", "true"), member("value", "42")]);
    let r = normalize_output(v);
    assert!(r.stop_pod());
    assert_eq!(r, JobResult::StopPod(JsonValue::Object(vec![member("value", "42")])));
}

#[test]
fn plain_object_is_output() {
    let v = JsonValue::Object(vec![member("value", "42")]);
    assert_eq!(normalize_output(v.clone()), JobResult::Output(v));
}

#[test]
fn other_values_are_output() {
    let v = JsonValue::Other("[1,2]".to_string());
    let r = normalize_output(v.clone());
    assert!(!r.stop_pod());
    assert_eq!(r, JobResult::Output(v));
}

#[test]
fn run_job_normalizes_handler_output() {
    let handler = |input: JsonValue| -> JsonValue {
        let mut ms = members(&input);
        ms.push(member("refresh_worker", "true"));
        JsonValue::Object(ms)
    };
    let r = run_job(handler, JsonValue::Object(vec![member("n", "1")]));
    assert_eq!(r, JobResult::StopPod(JsonValue::Object(vec![member("n", "1")])));
}

#[test]
fn return_size_limit_is_twenty_megabytes() {
    assert!(!check_return_size(0));
    assert!(!check_return_size(20_000_000));
    assert!(check_return_size(20_000_001));
}

#[test]
fn find_and_remove_keys() {
    let ms = vec![member("a", "1"), member("b", "2"), member("a", "3")];
    assert_eq!(find_key(&ms, "a"), Some(0));
    assert_eq!(find_key(&ms, "b"), Some(1));
    assert_eq!(find_key(&ms, "c"), None);
    assert_eq!(remove_key(ms, "a"), vec![member("b", "2")]);
}

#[test]
fn local_fixture_without_id_gets_local_test() {
    let job = get_local(Some("{\"prompt\": \"hi\"}".to_string())).unwrap();
    assert_eq!(job.id, "local_test");
    let ms = members(&job.input);
    assert_eq!(ms.len(), 2);
    assert_eq!(ms[0], string_member("prompt", "hi"));
    assert_eq!(ms[1], string_member("id", "local_test"));
}

#[test]
fn local_fixture_keeps_its_id() {
    let job = get_local(Some("{\"id\": \"abc\", \"prompt\": \"hi\"}".to_string())).unwrap();
    assert_eq!(job.id, "abc");
    let ms = members(&job.input);
    assert_eq!(ms.len(), 2);
    let i = find_key(&ms, "prompt").unwrap();
    assert_eq!(ms[i].string.as_deref(), Some("hi"));
}

#[test]
fn missing_or_broken_fixture_gives_no_job() {
    assert_eq!(get_local(None), None);
    assert_eq!(get_local(Some("{not json".to_string())), None);
    assert_eq!(get_local(Some("[1, 2]".to_string())), None);
    assert_eq!(local_job(Some(JsonValue::Bool(true))), None);
}

#[test]
fn remote_record_needs_an_id() {
    let job = get_job(true, Some("{\"id\": \"j-7\", \"input\": {\"x\": 1}}".to_string())).unwrap();
    assert_eq!(job.id, "j-7");
    let ms = members(&job.input);
    let i = find_key(&ms, "input").unwrap();
    assert_eq!(ms[i].text, "{\"x\":1}");
    assert_eq!(get_job(true, Some("{\"input\": 1}".to_string())), None);
    assert_eq!(get_job(true, None), None);
    assert_eq!(remote_job(None), None);
}

#[test]
fn numeric_remote_id_is_its_text() {
    let job: Job = get_job(true, Some("{\"id\": 17}".to_string())).unwrap();
    assert_eq!(job.id, "17");
}

#[test]
fn local_mode_reads_the_fixture() {
    let job = get_job(false, Some("{\"prompt\": \"hi\"}".to_string())).unwrap();
    assert_eq!(job.id, "local_test");
}
