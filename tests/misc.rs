use runpod::endpoint::{is_final_status, status_url};
use runpod::graphql::{
    generate_gpu_query, generate_pod_deployment_mutation, generate_pod_resume_mutation,
    generate_pod_stop_mutation, generate_pod_terminate_mutation, int_to_text, join, PodCreateInput,
};
use runpod::infer::{run, validator, ModelInputs};
use runpod::job_source::Job;
use runpod::json::JsonValue;
use runpod::logging::{debug, error, info, log, tip, warn, LogConfig, LogLevel};
use runpod::realtime::{accepts_endpoint, WorkerAPI};

#[test]
fn log_lines_follow_the_configured_level() {
    let c = LogConfig::from_settings(Some("warn"), Some("TRUE"));
    assert_eq!(c.level, LogLevel::Warn);
    assert!(c.enabled);
    assert_eq!(error(&c, "e"), None);
    assert_eq!(warn(&c, "w").as_deref(), Some("WARN   | w"));
    assert_eq!(info(&c, "i").as_deref(), Some("INFO   | i"));
    assert_eq!(debug(&c, "d").as_deref(), Some("DEBUG  | d"));
    assert_eq!(tip(&c, "t").as_deref(), Some("TIP    | t"));
}

#[test]
fn log_defaults_and_disabling() {
    let c = LogConfig::from_settings(None, None);
    assert_eq!(c.level, LogLevel::Debug);
    assert_eq!(debug(&c, "d").as_deref(), Some("DEBUG  | d"));
    assert_eq!(error(&c, "e"), None);
    let e = LogConfig::from_settings(Some("Error"), None);
    assert_eq!(error(&e, "x").as_deref(), Some("ERROR  | x"));
    let off = LogConfig::from_settings(Some("ERROR"), Some("false"));
    assert_eq!(log(&off, "x", LogLevel::Tip), None);
    assert_eq!(LogConfig::from_normalized(Some("LOUD"), Some("true")).level, LogLevel::Debug);
}

#[test]
fn integers_in_decimal() {
    assert_eq!(int_to_text(0), "0");
    assert_eq!(int_to_text(42), "42");
    assert_eq!(int_to_text(-7), "-7");
    assert_eq!(int_to_text(i32::MIN), "-2147483648");
    assert_eq!(int_to_text(i32::MAX), "2147483647");
}

#[test]
fn join_puts_separators_between() {
    assert_eq!(join(&vec![], ", "), "");
    assert_eq!(join(&vec!["a".to_string()], ", "), "a");
    assert_eq!(join(&vec!["a".to_string(), "b".to_string(), "c".to_string()], ", "), "a, b, c");
}

#[test]
fn pod_mutations() {
    assert_eq!(
        generate_pod_stop_mutation("p1"),
        "\n    mutation {\n        podStop(input: { podId: \"p1\" }) {\n            id\n            desiredStatus\n        }\n    }\n    "
    );
    assert_eq!(
        generate_pod_terminate_mutation("p1"),
        "\n    mutation {\n        podTerminate(input: { podId: \"p1\" })\n    }\n    "
    );
    let resume = generate_pod_resume_mutation("p1", 2);
    assert!(resume.contains("podResume(input: { podId: \"p1\", gpuCount: 2 })"));
    assert!(generate_gpu_query("NVIDIA A100").contains("gpuTypes(input: {id: \"NVIDIA A100\"})"));
}

#[test]
fn deployment_mutation_lists_given_fields() {
    let input = PodCreateInput {
        name: "n".to_string(),
        image_name: "img".to_string(),
        gpu_type_id: "g".to_string(),
        cloud_type: Some("SECURE".to_string()),
        gpu_count: Some(1),
        volume_in_gb: None,
        container_disk_in_gb: Some(-3),
        min_vcpu_count: None,
        min_memory_in_gb: None,
        docker_args: None,
        ports: Some("8888/http".to_string()),
        volume_mount_path: None,
        env: Some(vec![("A".to_string(), "1".to_string()), ("B".to_string(), "2".to_string())]),
    };
    let m = generate_pod_deployment_mutation(input);
    let fields = "cloudType: SECURE, gpuCount: 1, containerDiskInGb: -3, gpuTypeId: \"g\", name: \"n\", imageName: \"img\", ports: \"8888/http\", env: [{ key: \"A\", value: \"1\" }, { key: \"B\", value: \"2\" }]";
    assert_eq!(
        m,
        format!("\n    mutation {{\n      podFindAndDeployOnDemand(\n        input: {{\n          {}\n        }}\n      ) {{\n        id\n        imageName\n        env\n        machineId\n        machine {{\n          podHostId\n        }}\n      }}\n    }}\n    ", fields)
    );
}

#[test]
fn sample_model() {
    let v = validator();
    assert_eq!(v.prompt.input_type, "String");
    assert!(v.prompt.required);
    let out = run(ModelInputs { prompt: "a cat".to_string() }).unwrap();
    assert_eq!(out.len(), 1);
    assert_eq!(out[0].image, "/path/to/image.png");
    assert_eq!(out[0].seed, "1234");
}

#[test]
fn realtime_route_and_handler() {
    assert!(accepts_endpoint("ep", "ep"));
    assert!(!accepts_endpoint("ep", "other"));
    let api = WorkerAPI::new(|job: Job| JsonValue::Other(format!("\"{}\"", job.id)));
    let r = api.run(Job { id: "x".to_string(), input: JsonValue::Bool(true) });
    assert_eq!(r, JsonValue::Other("\"x\"".to_string()));
}

#[test]
fn endpoint_status_polling() {
    assert_eq!(status_url("https://api", "ep1", "job9"), "https://api/ep1/status/job9");
    assert!(is_final_status("COMPLETED"));
    assert!(is_final_status("FAILED"));
    assert!(!is_final_status("IN_QUEUE"));
    assert!(!is_final_status("completed"));
}

#[test]
fn secrets_are_masked() {
    assert_eq!(runpod::logging::redact("abcdef"), "a****f");
    assert_eq!(runpod::logging::redact("ab"), "ab");
    assert_eq!(runpod::logging::redact("x"), "*");
    assert_eq!(runpod::logging::redact(""), "");
}

#[test]
fn duplicate_env_keys_are_not_well_formed() {
    let mut input = PodCreateInput {
        name: "n".to_string(),
        image_name: "i".to_string(),
        gpu_type_id: "g".to_string(),
        cloud_type: None,
        gpu_count: None,
        volume_in_gb: None,
        container_disk_in_gb: None,
        min_vcpu_count: None,
        min_memory_in_gb: None,
        docker_args: None,
        ports: None,
        volume_mount_path: None,
        env: None,
    };
    assert!(input.is_wf());
    input.env = Some(vec![("A".to_string(), "1".to_string()), ("B".to_string(), "1".to_string())]);
    assert!(input.is_wf());
    input.env = Some(vec![("A".to_string(), "1".to_string()), ("B".to_string(), "1".to_string()), ("A".to_string(), "2".to_string())]);
    assert!(!input.is_wf());
}
