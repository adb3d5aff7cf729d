use std::sync::{Arc, Mutex};

use runpod::downloads::{assign_destinations, plan_destinations};
use runpod::heartbeat::ping_request;
use runpod::job_source::get_job;
use runpod::json::{JsonValue, Member};
use runpod::runner::{run_job, Envelope, JobResult};
use runpod::submit::{delivery_succeeded, submit_plan, SubmitPlan};
use runpod::text::substitute;
use runpod::worker_loop::{LoopAction, LoopEvent, Phase, WorkerLoop, NO_JOB_BACKOFF_MS};
use runpod::worker_state::WorkerState;

fn configured() -> WorkerState {
    WorkerState::new(
        Some("pod-1".to_string()),
        Some("https://q/$ID/next".to_string()),
        Some("https://q/$RUNPOD_POD_ID/done/$ID".to_string()),
        Some("https://q/ping/$RUNPOD_POD_ID".to_string()),
        None,
    )
}

#[test]
fn substitute_replaces_every_occurrence() {
    assert_eq!(substitute("a$IDb$ID", "$ID", "x"), "axbx");
    assert_eq!(substitute("$I$ID", "$ID", "-"), "$I-");
    assert_eq!(substitute("none", "$ID", "x"), "none");
    assert_eq!(substitute("", "$ID", "x"), "");
}

#[test]
fn urls_are_built_from_templates() {
    let mut s = configured();
    assert_eq!(s.job_get_url().as_deref(), Some("https://q/pod-1/next"));
    assert_eq!(s.webhook_ping().as_deref(), Some("https://q/ping/pod-1"));
    assert_eq!(s.get_done_url(), None);
    s.set_job_id(Some("j9".to_string()));
    assert_eq!(s.get_done_url().as_deref(), Some("https://q/pod-1/done/j9"));
    assert_eq!(s.ping_interval(), 10000);
    assert!(s.remote_mode());
}

#[test]
fn unconfigured_state_disables_remote_work() {
    let s = WorkerState::new(None, None, None, None, Some(250));
    assert_eq!(s.worker_id.chars().count(), 36);
    assert!(!s.remote_mode());
    assert_eq!(s.job_get_url(), None);
    assert_eq!(s.webhook_ping(), None);
    assert_eq!(s.ping_interval(), 250);
    assert_eq!(ping_request(&s), None);
}

#[test]
fn current_job_set_then_get() {
    let mut s = configured();
    assert_eq!(s.get_current_job_id(), None);
    s.set_job_id(Some("j1".to_string()));
    assert_eq!(s.get_current_job_id().as_deref(), Some("j1"));
    s.set_job_id(None);
    assert_eq!(s.get_current_job_id(), None);
}

#[test]
fn current_job_under_concurrent_reads() {
    let shared = Arc::new(Mutex::new(configured()));
    let rt = tokio::runtime::Builder::new_multi_thread().worker_threads(2).build().unwrap();
    let reader = {
        let shared = Arc::clone(&shared);
        rt.spawn(async move {
            let mut seen = Vec::new();
            for _ in 0..200 {
                let id = shared.lock().unwrap().get_current_job_id();
                if let Some(id) = &id {
                    assert_eq!(id, "j1");
                }
                seen.push(id);
                tokio::task::yield_now().await;
            }
            seen
        })
    };
    shared.lock().unwrap().set_job_id(Some("j1".to_string()));
    assert_eq!(shared.lock().unwrap().get_current_job_id().as_deref(), Some("j1"));
    shared.lock().unwrap().set_job_id(None);
    assert_eq!(shared.lock().unwrap().get_current_job_id(), None);
    assert_eq!(rt.block_on(reader).unwrap().len(), 200);
}

#[test]
fn ping_carries_the_current_job() {
    let mut s = configured();
    let p = ping_request(&s).unwrap();
    assert_eq!(p.url, "https://q/ping/pod-1");
    assert_eq!(p.job_id, None);
    s.set_job_id(Some("j2".to_string()));
    assert_eq!(ping_request(&s).unwrap().job_id.as_deref(), Some("j2"));
}

#[test]
fn submission_goes_local_without_endpoint() {
    let mut s = WorkerState::new(Some("p".to_string()), None, None, None, None);
    s.set_job_id(Some("j".to_string()));
    assert_eq!(submit_plan(&s), SubmitPlan::LocalOnly);
    let mut c = configured();
    c.set_job_id(Some("j3".to_string()));
    assert_eq!(submit_plan(&c), SubmitPlan::Post("https://q/pod-1/done/j3".to_string()));
}

#[test]
fn only_ok_status_is_delivered() {
    assert!(delivery_succeeded(200));
    assert!(!delivery_succeeded(201));
    assert!(!delivery_succeeded(500));
}

#[test]
fn destinations_are_distinct_and_job_scoped() {
    let d = plan_destinations("job-5", 3);
    assert_eq!(d.len(), 3);
    let paths: Vec<String> = d.into_iter().map(|p| p.unwrap()).collect();
    for p in &paths {
        assert!(p.starts_with("job_files/job-5/"));
        assert_eq!(p.len(), "job_files/job-5/".len() + 36);
    }
    assert_ne!(paths[0], paths[1]);
    assert_ne!(paths[0], paths[2]);
    assert_ne!(paths[1], paths[2]);
    assert!(plan_destinations("j", 0).is_empty());
}

#[test]
fn loop_waits_when_no_job() {
    let mut s = configured();
    let mut l = WorkerLoop::new();
    assert_eq!(l.step(&mut s, LoopEvent::Ready), LoopAction::FetchJob);
    assert_eq!(l.step(&mut s, LoopEvent::NoJob), LoopAction::WaitBeforeFetch(NO_JOB_BACKOFF_MS));
    assert_eq!(l.phase, Phase::Idle);
    assert_eq!(l.step(&mut s, LoopEvent::Submitted), LoopAction::Ignored);
}

#[test]
fn local_loop_with_refresh_worker_terminates() {
    let mut state = WorkerState::new(None, None, None, None, None);
    let mut l = WorkerLoop::new();
    assert_eq!(l.step(&mut state, LoopEvent::Ready), LoopAction::FetchJob);
    let job = get_job(state.remote_mode(), Some("{\"prompt\": \"go\"}".to_string())).unwrap();
    assert_eq!(l.step(&mut state, LoopEvent::JobAcquired(job.id.clone())), LoopAction::RunHandler);
    assert_eq!(state.get_current_job_id().as_deref(), Some("local_test"));
    let handler = |_input: JsonValue| -> JsonValue {
        JsonValue::Object(vec![
            Member { key: "refresh_worker".to_string(), text: "true".to_string(), string: None },
            Member { key: "value".to_string(), text: "42".to_string(), string: None },
        ])
    };
    let result = run_job(handler, job.input);
    assert_eq!(
        result,
        JobResult::StopPod(JsonValue::Object(vec![Member {
            key: "value".to_string(),
            text: "42".to_string(),
            string: None
        }]))
    );
    assert_eq!(l.step(&mut state, LoopEvent::HandlerReturned(result.stop_pod())), LoopAction::SubmitResult);
    assert_eq!(submit_plan(&state), SubmitPlan::LocalOnly);
    assert_eq!(l.step(&mut state, LoopEvent::Submitted), LoopAction::Terminate);
    assert_eq!(state.get_current_job_id(), None);
}

#[test]
fn loop_continues_after_ordinary_result() {
    let mut s = configured();
    let mut l = WorkerLoop::new();
    l.step(&mut s, LoopEvent::Ready);
    l.step(&mut s, LoopEvent::JobAcquired("a".to_string()));
    assert_eq!(l.step(&mut s, LoopEvent::HandlerReturned(false)), LoopAction::SubmitResult);
    assert_eq!(l.step(&mut s, LoopEvent::Submitted), LoopAction::Continue);
    assert_eq!(l.phase, Phase::Idle);
    assert_eq!(s.get_current_job_id(), None);
}

#[test]
fn destinations_take_the_first_free_draw() {
    let s = |x: &str| x.to_string();
    let draws = vec![vec![s("a"), s("b")], vec![s("a"), s("c")], vec![s("c"), s("a")], vec![s("d")], vec![]];
    assert_eq!(
        assign_destinations(&draws),
        vec![Some(s("a")), Some(s("c")), None, Some(s("d")), None]
    );
}

#[test]
fn generated_worker_id_is_a_hyphenated_uuid() {
    let s = WorkerState::new(None, None, None, None, None);
    let id: Vec<char> = s.worker_id.chars().collect();
    assert_eq!(id.len(), 36);
    for (i, c) in id.iter().enumerate() {
        if [8, 13, 18, 23].contains(&i) {
            assert_eq!(*c, '-');
        } else {
            assert!(c.is_ascii_hexdigit() && !c.is_ascii_uppercase());
        }
    }
}

#[test]
fn result_envelopes() {
    let v = JsonValue::Bool(true);
    assert_eq!(
        JobResult::Output(v.clone()).into_envelope(),
        Envelope { stop_pod: false, output: Some(v.clone()), error: None }
    );
    assert_eq!(
        JobResult::StopPod(v.clone()).into_envelope(),
        Envelope { stop_pod: true, output: Some(v), error: None }
    );
    assert_eq!(
        JobResult::Error("\"x\"".to_string()).into_envelope(),
        Envelope { stop_pod: false, output: None, error: Some("\"x\"".to_string()) }
    );
}
