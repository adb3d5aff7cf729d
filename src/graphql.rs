//! GraphQL documents for the control plane: pod mutations and GPU queries.

use vstd::prelude::*;
use crate::text::text_eq;

verus! {

pub open spec fn digit_char(d: nat) -> char {
    if d == 0 { '0' }
    else if d == 1 { '1' }
    else if d == 2 { '2' }
    else if d == 3 { '3' }
    else if d == 4 { '4' }
    else if d == 5 { '5' }
    else if d == 6 { '6' }
    else if d == 7 { '7' }
    else if d == 8 { '8' }
    else { '9' }
}

/// The decimal digits of `n`, most significant first.
pub open spec fn digits(n: nat) -> Seq<char>
    decreases n,
{
    if n < 10 {
        seq![digit_char(n)]
    } else {
        digits(n / 10).push(digit_char(n % 10))
    }
}

/// `n` written in decimal, with a leading `-` when negative.
pub open spec fn int_text(n: int) -> Seq<char> {
    if n < 0 {
        seq!['-'] + digits((-n) as nat)
    } else {
        digits(n as nat)
    }
}

fn digit_str(d: u64) -> (r: &'static str)
    requires
        d < 10,
    ensures
        r@ == seq![digit_char(d as nat)],
{
    proof {
        reveal_strlit("0");
        reveal_strlit("1");
        reveal_strlit("2");
        reveal_strlit("3");
        reveal_strlit("4");
        reveal_strlit("5");
        reveal_strlit("6");
        reveal_strlit("7");
        reveal_strlit("8");
        reveal_strlit("9");
    }
    let r = if d == 0 { "0" }
    else if d == 1 { "1" }
    else if d == 2 { "2" }
    else if d == 3 { "3" }
    else if d == 4 { "4" }
    else if d == 5 { "5" }
    else if d == 6 { "6" }
    else if d == 7 { "7" }
    else if d == 8 { "8" }
    else { "9" };
    assert(r@ =~= seq![digit_char(d as nat)]);
    r
}

fn append_digits(out: String, n: u64) -> (r: String)
    ensures
        r@ == out@ + digits(n as nat),
    decreases n,
{
    if n < 10 {
        out.concat(digit_str(n))
    } else {
        let o = append_digits(out, n / 10);
        let r = o.concat(digit_str(n % 10));
        assert(r@ =~= out@ + digits(n as nat));
        r
    }
}

/// `n` in decimal, as `format!("{}", n)` writes it.
pub fn int_to_text(n: i32) -> (r: String)
    ensures
        r@ == int_text(n as int),
{
    if n < 0 {
        proof {
            reveal_strlit("-");
        }
        let m: i64 = -(n as i64);
        let r = append_digits(String::from_str("-"), m as u64);
        assert(r@ =~= int_text(n as int));
        r
    } else {
        let r = append_digits(String::new(), n as u64);
        assert(r@ =~= int_text(n as int));
        r
    }
}

/// The characters of each string.
pub open spec fn views(parts: Seq<String>) -> Seq<Seq<char>> {
    parts.map_values(|s: String| s@)
}

/// `parts` joined with `sep` between neighbours.
pub open spec fn joined(parts: Seq<Seq<char>>, sep: Seq<char>) -> Seq<char>
    decreases parts.len(),
{
    if parts.len() == 0 {
        Seq::empty()
    } else if parts.len() == 1 {
        parts[0]
    } else {
        joined(parts.drop_last(), sep) + sep + parts.last()
    }
}

fn push_part(parts: &mut Vec<String>, s: String)
    ensures
        views(final(parts)@) == views(old(parts)@).push(s@),
{
    parts.push(s);
    assert(views(parts@) =~= views(old(parts)@).push(s@));
}

/// Joins `parts` with `sep` between neighbours.
pub fn join(parts: &Vec<String>, sep: &str) -> (r: String)
    ensures
        r@ == joined(views(parts@), sep@),
{
    let mut out = String::new();
    let mut i: usize = 0;
    while i < parts.len()
        invariant
            i <= parts@.len(),
            out@ == joined(views(parts@.subrange(0, i as int)), sep@),
        decreases parts.len() - i,
    {
        let ghost before = views(parts@.subrange(0, i as int));
        let ghost after = views(parts@.subrange(0, i + 1));
        assert(after.drop_last() =~= before);
        assert(after.last() == parts@[i as int]@);
        if i == 0 {
            assert(before =~= Seq::<Seq<char>>::empty());
            out = parts[i].clone();
        } else {
            out = out.concat(sep).concat(parts[i].as_str());
        }
        i = i + 1;
    }
    assert(parts@.subrange(0, i as int) =~= parts@);
    out
}

#[derive(Debug, Clone, PartialEq, Eq)]
pub struct PodCreateInput {
    pub name: String,
    pub image_name: String,
    pub gpu_type_id: String,
    pub cloud_type: Option<String>,
    pub gpu_count: Option<i32>,
    pub volume_in_gb: Option<i32>,
    pub container_disk_in_gb: Option<i32>,
    pub min_vcpu_count: Option<i32>,
    pub min_memory_in_gb: Option<i32>,
    pub docker_args: Option<String>,
    pub ports: Option<String>,
    pub volume_mount_path: Option<String>,
    /// Environment variables, in the order they are written; keys are
    /// unique (see `wf`).
    pub env: Option<Vec<(String, String)>>,
}

/// No two environment variables share a key.
#[verifier::opaque]
pub open spec fn env_keys_unique(env: Seq<(String, String)>) -> bool {
    forall|i: int, j: int| 0 <= i < j < env.len() ==> (#[trigger] env[i]).0@ != (#[trigger] env[j]).0@
}

impl PodCreateInput {
    /// The input is well formed: its environment, if any, has unique keys.
    pub open spec fn wf(&self) -> bool {
        match self.env {
            Some(env) => env_keys_unique(env@),
            None => true,
        }
    }

    /// Whether the input is well formed.
    pub fn is_wf(&self) -> (r: bool)
        ensures
            r == self.wf(),
    {
        match &self.env {
            None => true,
            Some(env) => {
                let mut j: usize = 0;
                while j < env.len()
                    invariant
                        self.env is Some,
                        self.env.unwrap()@ == env@,
                        j <= env@.len(),
                        forall|a: int, b: int|
                            0 <= a < b < j ==> (#[trigger] env@[a]).0@ != (#[trigger] env@[b]).0@,
                    decreases env.len() - j,
                {
                    let mut i: usize = 0;
                    while i < j
                        invariant
                            self.env is Some,
                            self.env.unwrap()@ == env@,
                            i <= j < env@.len(),
                            forall|a: int| 0 <= a < i ==> (#[trigger] env@[a]).0@ != env@[j as int].0@,
                        decreases j - i,
                    {
                        if text_eq(env[i].0.as_str(), env[j].0.as_str()) {
                            proof {
                                reveal(env_keys_unique);
                                assert(env@[i as int].0@ == env@[j as int].0@);
                                assert(!env_keys_unique(env@));
                            }
                            return false;
                        }
                        i = i + 1;
                    }
                    j = j + 1;
                }
                proof {
                    reveal(env_keys_unique);
                }
                true
            },
        }
    }
}

/// `name: value`.
pub open spec fn raw_field(name: Seq<char>, v: Seq<char>) -> Seq<char> {
    name + ": "@ + v
}

/// `name: "value"`.
pub open spec fn quoted_field(name: Seq<char>, v: Seq<char>) -> Seq<char> {
    name + ": \""@ + v + "\""@
}

pub open spec fn opt_raw(name: Seq<char>, o: Option<String>) -> Seq<Seq<char>> {
    match o {
        Some(s) => seq![raw_field(name, s@)],
        None => Seq::empty(),
    }
}

pub open spec fn opt_num(name: Seq<char>, o: Option<i32>) -> Seq<Seq<char>> {
    match o {
        Some(n) => seq![raw_field(name, int_text(n as int))],
        None => Seq::empty(),
    }
}

pub open spec fn opt_quoted(name: Seq<char>, o: Option<String>) -> Seq<Seq<char>> {
    match o {
        Some(s) => seq![quoted_field(name, s@)],
        None => Seq::empty(),
    }
}

/// `{ key: "k", value: "v" }`.
pub open spec fn env_entry(e: (String, String)) -> Seq<char> {
    "{ key: \""@ + e.0@ + "\", value: \""@ + e.1@ + "\" }"@
}

pub open spec fn opt_env(o: Option<Vec<(String, String)>>) -> Seq<Seq<char>> {
    match o {
        Some(env) => seq!["env: ["@ + joined(env@.map_values(|e: (String, String)| env_entry(e)), ", "@) + "]"@],
        None => Seq::empty(),
    }
}

/// The input fields of a deployment, in the order they are written.
pub open spec fn deployment_fields(i: PodCreateInput) -> Seq<Seq<char>> {
    opt_raw("cloudType"@, i.cloud_type) + opt_num("gpuCount"@, i.gpu_count) + opt_num(
        "volumeInGb"@,
        i.volume_in_gb,
    ) + opt_num("containerDiskInGb"@, i.container_disk_in_gb) + opt_num(
        "minVcpuCount"@,
        i.min_vcpu_count,
    ) + opt_num("minMemoryInGb"@, i.min_memory_in_gb) + seq![
        quoted_field("gpuTypeId"@, i.gpu_type_id@),
        quoted_field("name"@, i.name@),
        quoted_field("imageName"@, i.image_name@),
    ] + opt_quoted("dockerArgs"@, i.docker_args) + opt_quoted("ports"@, i.ports) + opt_quoted(
        "volumeMountPath"@,
        i.volume_mount_path,
    ) + opt_env(i.env)
}

pub const DEPLOY_HEAD: &'static str = "\n    mutation {\n      podFindAndDeployOnDemand(\n        input: {\n          ";
pub const DEPLOY_TAIL: &'static str = "\n        }\n      ) {\n        id\n        imageName\n        env\n        machineId\n        machine {\n          podHostId\n        }\n      }\n    }\n    ";
pub const STOP_HEAD: &'static str = "\n    mutation {\n        podStop(input: { podId: \"";
pub const STOP_TAIL: &'static str = "\" }) {\n            id\n            desiredStatus\n        }\n    }\n    ";
pub const RESUME_HEAD: &'static str = "\n    mutation {\n        podResume(input: { podId: \"";
pub const RESUME_MID: &'static str = "\", gpuCount: ";
pub const RESUME_TAIL: &'static str = " }) {\n            id\n            desiredStatus\n            imageName\n            env\n            machineId\n            machine {\n                podHostId\n            }\n        }\n    }\n    ";
pub const TERMINATE_HEAD: &'static str = "\n    mutation {\n        podTerminate(input: { podId: \"";
pub const TERMINATE_TAIL: &'static str = "\" })\n    }\n    ";
/// The query for every GPU type.
pub const QUERY_GPU_TYPES: &'static str = "\nquery GpuTypes {\n  gpuTypes {\n    id\n    displayName\n    memoryInGb\n  }\n}\n";
pub const GPU_HEAD: &'static str = "\n    query GpuTypes {\n      gpuTypes(input: {id: \"";
pub const GPU_TAIL: &'static str = "\"}) {\n        id\n        displayName\n        memoryInGb\n        secureCloud\n        communityCloud\n        lowestPrice(input: {gpuCount: 1}) {\n          minimumBidPrice\n          uninterruptablePrice\n        }\n      }\n    }\n    ";

fn push_opt_raw(fields: &mut Vec<String>, name: &str, o: Option<String>)
    ensures
        views(final(fields)@) == views(old(fields)@) + opt_raw(name@, o),
{
    match o {
        Some(s) => push_part(fields, String::from_str(name).concat(": ").concat(s.as_str())),
        None => {},
    }
    assert(views(fields@) =~= views(old(fields)@) + opt_raw(name@, o));
}

fn push_opt_num(fields: &mut Vec<String>, name: &str, o: Option<i32>)
    ensures
        views(final(fields)@) == views(old(fields)@) + opt_num(name@, o),
{
    match o {
        Some(n) => {
            let t = int_to_text(n);
            push_part(fields, String::from_str(name).concat(": ").concat(t.as_str()))
        },
        None => {},
    }
    assert(views(fields@) =~= views(old(fields)@) + opt_num(name@, o));
}

fn quoted(name: &str, v: &str) -> (r: String)
    ensures
        r@ == quoted_field(name@, v@),
{
    String::from_str(name).concat(": \"").concat(v).concat("\"")
}

fn push_opt_quoted(fields: &mut Vec<String>, name: &str, o: Option<String>)
    ensures
        views(final(fields)@) == views(old(fields)@) + opt_quoted(name@, o),
{
    match o {
        Some(s) => push_part(fields, quoted(name, s.as_str())),
        None => {},
    }
    assert(views(fields@) =~= views(old(fields)@) + opt_quoted(name@, o));
}

fn env_text(env: &Vec<(String, String)>) -> (r: String)
    ensures
        r@ == "env: ["@ + joined(env@.map_values(|e: (String, String)| env_entry(e)), ", "@) + "]"@,
{
    let mut entries: Vec<String> = Vec::new();
    let mut i: usize = 0;
    while i < env.len()
        invariant
            i <= env@.len(),
            views(entries@) == env@.subrange(0, i as int).map_values(|e: (String, String)| env_entry(e)),
        decreases env.len() - i,
    {
        let e = String::from_str("{ key: \"").concat(env[i].0.as_str()).concat("\", value: \"").concat(
            env[i].1.as_str(),
        ).concat("\" }");
        push_part(&mut entries, e);
        assert(env@.subrange(0, i + 1).map_values(|e: (String, String)| env_entry(e)) =~= env@.subrange(
            0,
            i as int,
        ).map_values(|e: (String, String)| env_entry(e)).push(env_entry(env@[i as int])));
        i = i + 1;
    }
    assert(env@.subrange(0, i as int) =~= env@);
    String::from_str("env: [").concat(join(&entries, ", ").as_str()).concat("]")
}

/// The mutation that deploys a pod on demand with the given input.
pub fn generate_pod_deployment_mutation(input: PodCreateInput) -> (r: String)
    requires
        input.wf(),
    ensures
        r@ == DEPLOY_HEAD@ + joined(deployment_fields(input), ", "@) + DEPLOY_TAIL@,
{
    let ghost spec_input = input;
    let mut fields: Vec<String> = Vec::new();
    assert(views(fields@) =~= Seq::<Seq<char>>::empty());
    push_opt_raw(&mut fields, "cloudType", input.cloud_type);
    push_opt_num(&mut fields, "gpuCount", input.gpu_count);
    push_opt_num(&mut fields, "volumeInGb", input.volume_in_gb);
    push_opt_num(&mut fields, "containerDiskInGb", input.container_disk_in_gb);
    push_opt_num(&mut fields, "minVcpuCount", input.min_vcpu_count);
    push_opt_num(&mut fields, "minMemoryInGb", input.min_memory_in_gb);
    push_part(&mut fields, quoted("gpuTypeId", input.gpu_type_id.as_str()));
    push_part(&mut fields, quoted("name", input.name.as_str()));
    push_part(&mut fields, quoted("imageName", input.image_name.as_str()));
    push_opt_quoted(&mut fields, "dockerArgs", input.docker_args);
    push_opt_quoted(&mut fields, "ports", input.ports);
    push_opt_quoted(&mut fields, "volumeMountPath", input.volume_mount_path);
    match &input.env {
        Some(env) => push_part(&mut fields, env_text(env)),
        None => {},
    }
    assert(views(fields@) =~= deployment_fields(spec_input));
    String::from_str(DEPLOY_HEAD).concat(join(&fields, ", ").as_str()).concat(DEPLOY_TAIL)
}

/// The mutation that stops pod `pod_id`.
pub fn generate_pod_stop_mutation(pod_id: &str) -> (r: String)
    ensures
        r@ == STOP_HEAD@ + pod_id@ + STOP_TAIL@,
{
    String::from_str(STOP_HEAD).concat(pod_id).concat(STOP_TAIL)
}

/// The mutation that resumes pod `pod_id` with `gpu_count` GPUs.
pub fn generate_pod_resume_mutation(pod_id: &str, gpu_count: i32) -> (r: String)
    ensures
        r@ == RESUME_HEAD@ + pod_id@ + RESUME_MID@ + int_text(gpu_count as int) + RESUME_TAIL@,
{
    let n = int_to_text(gpu_count);
    String::from_str(RESUME_HEAD).concat(pod_id).concat(RESUME_MID).concat(n.as_str()).concat(
        RESUME_TAIL,
    )
}

/// The mutation that terminates pod `pod_id`.
pub fn generate_pod_terminate_mutation(pod_id: &str) -> (r: String)
    ensures
        r@ == TERMINATE_HEAD@ + pod_id@ + TERMINATE_TAIL@,
{
    String::from_str(TERMINATE_HEAD).concat(pod_id).concat(TERMINATE_TAIL)
}

/// The query for GPU type `gpu_id`, with its prices for one GPU.
pub fn generate_gpu_query(gpu_id: &str) -> (r: String)
    ensures
        r@ == GPU_HEAD@ + gpu_id@ + GPU_TAIL@,
{
    String::from_str(GPU_HEAD).concat(gpu_id).concat(GPU_TAIL)
}

} // verus!
