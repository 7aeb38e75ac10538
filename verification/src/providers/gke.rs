//! GKE: runtimes as deployments in a gVisor-sandboxed node pool.

use vstd::prelude::*;
use vstd::string::*;
use crate::handle::{RuntimeHandle, RuntimeHandleView};
use crate::ids::{hyphenated, is_v4, random_v4, uuid_text};
use crate::providers::{public_url, public_url_for};
use crate::spec::{RuntimeSpec, RuntimeSpecView};
use crate::string_map::{StringMap, TextPairs};
use crate::text::{chars_of, decimal, lines, push_decimal, push_signed_decimal, signed_decimal, split_lines, string_from_chars};
use crate::time::{Timestamp, now};
use crate::types::{ExecResult, LogEntry, LogOptions, LogStream, Preset, ProviderKind, RuntimeError, RuntimeStatus};

verus! {

/// GKE runtime provider configuration.
#[derive(Clone, Debug, PartialEq, Eq)]
pub struct GkeConfig {
    /// K8s namespace for runtime pods.
    pub namespace: String,
    /// Node pool selector label.
    pub node_pool_label: String,
    /// RuntimeClass name for the gVisor sandbox.
    pub runtime_class: String,
    /// Sidecar image.
    pub sidecar_image: String,
    /// Base domain for exposed runtimes.
    pub base_domain: String,
}

pub struct GkeConfigView {
    pub namespace: Seq<char>,
    pub node_pool_label: Seq<char>,
    pub runtime_class: Seq<char>,
    pub sidecar_image: Seq<char>,
    pub base_domain: Seq<char>,
}

impl View for GkeConfig {
    type V = GkeConfigView;

    open spec fn view(&self) -> GkeConfigView {
        GkeConfigView {
            namespace: self.namespace@,
            node_pool_label: self.node_pool_label@,
            runtime_class: self.runtime_class@,
            sidecar_image: self.sidecar_image@,
            base_domain: self.base_domain@,
        }
    }
}

impl Default for GkeConfig {
    fn default() -> (c: Self)
        ensures
            c.namespace@ == "runtimes"@,
            c.node_pool_label@ == "runtimes"@,
            c.runtime_class@ == "gvisor"@,
            c.sidecar_image@ == "ghcr.io/1clawai/1claw-shroud-sidecar:latest"@,
            c.base_domain@ == "run.1claw.xyz"@,
    {
        GkeConfig {
            namespace: String::from_str("runtimes"),
            node_pool_label: String::from_str("runtimes"),
            runtime_class: String::from_str("gvisor"),
            sidecar_image: String::from_str("ghcr.io/1clawai/1claw-shroud-sidecar:latest"),
            base_domain: String::from_str("run.1claw.xyz"),
        }
    }
}

/// `runtime-` and the hyphenated runtime id.
pub open spec fn deployment_name_text(id: u128) -> Seq<char> {
    "runtime-"@ + hyphenated(id)
}

/// Distinct runtimes never share a deployment name.
pub proof fn lemma_deployment_names_distinct(a: u128, b: u128)
    requires
        a != b,
    ensures
        deployment_name_text(a) != deployment_name_text(b),
{
    let p = "runtime-"@;
    if deployment_name_text(a) == deployment_name_text(b) {
        assert(deployment_name_text(a).skip(p.len() as int) =~= hyphenated(a));
        assert(deployment_name_text(b).skip(p.len() as int) =~= hyphenated(b));
        crate::ids::lemma_hyphenated_injective(a, b);
    }
}

/// The CPU limit: millicores and `m`.
pub open spec fn cpu_limit_text(p: Preset) -> Seq<char> {
    decimal(p.spec_vcpu_millis() as nat) + "m"@
}

/// The memory limit: MiB and `Mi`.
pub open spec fn mem_limit_text(p: Preset) -> Seq<char> {
    decimal(p.spec_memory_mb() as nat) + "Mi"@
}

/// The container environment: the public variables, then the agent and the
/// runtime ids.
pub open spec fn env_view(spec: RuntimeSpecView, id: u128) -> TextPairs {
    spec.env_public + seq![
        ("ONECLAW_AGENT_ID"@, hyphenated(spec.agent_id)),
        ("ONECLAW_RUNTIME_ID"@, hyphenated(id)),
    ]
}

/// The handle of a deployment just created for `spec`.
pub open spec fn created_handle_view(
    config: GkeConfigView,
    spec: RuntimeSpecView,
    id: u128,
    created_at: Timestamp,
) -> RuntimeHandleView {
    RuntimeHandleView {
        id,
        name: spec.name,
        status: RuntimeStatus::Creating,
        provider: ProviderKind::Gke,
        preset: spec.preset,
        image: spec.image,
        agent_id: spec.agent_id,
        org_id: spec.org_id,
        public_url: public_url(spec.slug, spec.expose_http, config.base_domain),
        created_at,
        started_at: None,
        stopped_at: None,
        metadata: seq![
            ("deployment"@, deployment_name_text(id)),
            ("namespace"@, config.namespace),
            ("runtime_class"@, config.runtime_class),
            ("cpu_limit"@, cpu_limit_text(spec.preset)),
            ("mem_limit"@, mem_limit_text(spec.preset)),
        ],
        shell_access_enabled: spec.shell_access_enabled,
    }
}

/// A deployment scaled to zero is stopped; otherwise it runs once a replica
/// is ready, and is still being created before that.
pub open spec fn replica_status_of(ready: Option<i32>, desired: Option<i32>) -> RuntimeStatus {
    let r = match ready {
        Some(r) => r,
        None => 0,
    };
    let d = match desired {
        Some(d) => d,
        None => 0,
    };
    if d == 0 {
        RuntimeStatus::Stopped
    } else if r > 0 {
        RuntimeStatus::Running
    } else {
        RuntimeStatus::Creating
    }
}

/// The handle reported for a deployment with `ready` ready replicas out of
/// `desired`.
pub open spec fn status_handle_view(id: u128, ready: Option<i32>, desired: Option<i32>, created_at: Timestamp) -> RuntimeHandleView {
    let r = match ready {
        Some(r) => r,
        None => 0,
    };
    RuntimeHandleView {
        id,
        name: deployment_name_text(id),
        status: replica_status_of(ready, desired),
        provider: ProviderKind::Gke,
        preset: Preset::Small,
        image: Seq::empty(),
        agent_id: 0,
        org_id: 0,
        public_url: None,
        created_at,
        started_at: None,
        stopped_at: None,
        metadata: seq![
            ("deployment"@, deployment_name_text(id)),
            ("ready_replicas"@, signed_decimal(r as int)),
        ],
        shell_access_enabled: false,
    }
}

/// The deployment name of a runtime.
pub fn deployment_name(id: u128) -> (n: String)
    ensures
        n@ == deployment_name_text(id),
{
    let mut n = String::from_str("runtime-");
    let t = uuid_text(id);
    n.append(t.as_str());
    n
}

/// The CPU and memory limits of a preset, as Kubernetes quantities.
pub fn resource_limits(preset: &Preset) -> (l: (String, String))
    ensures
        l.0@ == cpu_limit_text(*preset),
        l.1@ == mem_limit_text(*preset),
{
    let mut cpu = String::new();
    push_decimal(&mut cpu, preset.vcpu_millis() as u64);
    cpu.append("m");
    let mut mem = String::new();
    push_decimal(&mut mem, preset.memory_mb() as u64);
    mem.append("Mi");
    (cpu, mem)
}

/// The environment of the runtime's container, as name and value.
pub fn runtime_env(spec: &RuntimeSpec, id: u128) -> (env: Vec<(String, String)>)
    ensures
        env@.map_values(|e: (String, String)| (e.0@, e.1@)) == env_view(spec@, id),
{
    let mut env: Vec<(String, String)> = Vec::new();
    let n = spec.env_public.len();
    let mut i: usize = 0;
    while i < n
        invariant
            i <= n,
            n == spec.env_public@.len(),
            env@.map_values(|e: (String, String)| (e.0@, e.1@)) =~= spec.env_public@.take(i as int),
        decreases n - i,
    {
        let k = spec.env_public.key_at(i).clone();
        let v = spec.env_public.value_at(i).clone();
        let ghost prev = env@;
        env.push((k, v));
        assert(env@.map_values(|e: (String, String)| (e.0@, e.1@)) =~= prev.map_values(
            |e: (String, String)| (e.0@, e.1@),
        ).push(spec.env_public@[i as int]));
        i = i + 1;
        assert(env@.map_values(|e: (String, String)| (e.0@, e.1@)) =~= spec.env_public@.take(i as int));
    }
    assert(spec.env_public@.take(n as int) =~= spec.env_public@);
    let ghost before = env@;
    env.push((String::from_str("ONECLAW_AGENT_ID"), uuid_text(spec.agent_id)));
    env.push((String::from_str("ONECLAW_RUNTIME_ID"), uuid_text(id)));
    assert(env@.map_values(|e: (String, String)| (e.0@, e.1@)) =~= env_view(spec@, id));
    env
}

/// The handle of a deployment just created for `spec`: status `Creating`, a
/// public URL when exposed with a slug, and deployment, namespace, runtime
/// class and limits as metadata.
pub fn created_handle(config: &GkeConfig, spec: RuntimeSpec, id: u128, created_at: Timestamp) -> (h: RuntimeHandle)
    ensures
        h@ == created_handle_view(config@, spec@, id, created_at),
        h.id == id,
        h.name@ == spec.name@,
        h.preset == spec.preset,
        h.image@ == spec.image@,
        h.agent_id == spec.agent_id,
        h.org_id == spec.org_id,
        h.status == RuntimeStatus::Creating,
        h.provider == ProviderKind::Gke,
        h.created_at == created_at,
{
    let (cpu_limit, mem_limit) = resource_limits(&spec.preset);
    let public_url = public_url_for(&spec.slug, spec.expose_http, &config.base_domain);
    proof {
        reveal_strlit("deployment");
        reveal_strlit("namespace");
        reveal_strlit("runtime_class");
        reveal_strlit("cpu_limit");
        reveal_strlit("mem_limit");
        assert("deployment"@[0] != "namespace"@[0]);
        assert("deployment"@[0] != "runtime_class"@[0]);
        assert("deployment"@[0] != "cpu_limit"@[0]);
        assert("deployment"@[0] != "mem_limit"@[0]);
        assert("namespace"@[0] != "runtime_class"@[0]);
        assert("namespace"@[0] != "cpu_limit"@[0]);
        assert("namespace"@[0] != "mem_limit"@[0]);
        assert("runtime_class"@[0] != "cpu_limit"@[0]);
        assert("runtime_class"@[0] != "mem_limit"@[0]);
        assert("cpu_limit"@[0] != "mem_limit"@[0]);
    }
    let pairs = vec![
        (String::from_str("deployment"), deployment_name(id)),
        (String::from_str("namespace"), config.namespace.clone()),
        (String::from_str("runtime_class"), config.runtime_class.clone()),
        (String::from_str("cpu_limit"), cpu_limit),
        (String::from_str("mem_limit"), mem_limit),
    ];
    assert(pairs@.map_values(|e: (String, String)| (e.0@, e.1@)) =~= created_handle_view(
        config@,
        spec@,
        id,
        created_at,
    ).metadata);
    let metadata = StringMap::from_pairs(pairs);
    let h = RuntimeHandle {
        id,
        name: spec.name,
        status: RuntimeStatus::Creating,
        provider: ProviderKind::Gke,
        preset: spec.preset,
        image: spec.image,
        agent_id: spec.agent_id,
        org_id: spec.org_id,
        public_url,
        created_at,
        started_at: None,
        stopped_at: None,
        metadata,
        shell_access_enabled: spec.shell_access_enabled,
    };
    assert(h@ =~= created_handle_view(config@, spec@, id, created_at));
    h
}

/// The handle of a created deployment is the spec's own runtime: its name,
/// preset, image, agent and organization ids, still being created on GKE,
/// with the given id and instant.
pub proof fn lemma_gke_handle_carries_spec(config: GkeConfigView, spec: RuntimeSpecView, id: u128, created_at: Timestamp)
    ensures
        ({
            let h = created_handle_view(config, spec, id, created_at);
            &&& h.id == id
            &&& h.name == spec.name
            &&& h.preset == spec.preset
            &&& h.image == spec.image
            &&& h.agent_id == spec.agent_id
            &&& h.org_id == spec.org_id
            &&& h.status == RuntimeStatus::Creating
            &&& h.provider == ProviderKind::Gke
            &&& h.created_at == created_at
            &&& h.started_at is None
        }),
{
}

/// A runtime created on GKE: its handle and the environment its container gets.
pub struct GkeCreated {
    pub handle: RuntimeHandle,
    pub env: Vec<(String, String)>,
}

/// Creates the runtime: a fresh random id, the container environment, and the
/// handle of the new deployment as of now.
pub fn create(config: &GkeConfig, spec: RuntimeSpec) -> (c: GkeCreated)
    ensures
        is_v4(c.handle.id),
        c.env@.map_values(|e: (String, String)| (e.0@, e.1@)) == env_view(spec@, c.handle.id),
        c.handle@ == created_handle_view(config@, spec@, c.handle.id, c.handle.created_at),
        c.handle.name@ == spec.name@,
        c.handle.preset == spec.preset,
        c.handle.image@ == spec.image@,
        c.handle.agent_id == spec.agent_id,
        c.handle.org_id == spec.org_id,
        c.handle.status == RuntimeStatus::Creating,
        c.handle.provider == ProviderKind::Gke,
{
    let id = random_v4();
    let env = runtime_env(&spec, id);
    let created_at = now();
    let handle = created_handle(config, spec, id, created_at);
    GkeCreated { handle, env }
}

/// The status of a deployment from its replica counts.
pub fn replica_status(ready: Option<i32>, desired: Option<i32>) -> (s: RuntimeStatus)
    ensures
        s == replica_status_of(ready, desired),
{
    let r = match ready {
        Some(r) => r,
        None => 0,
    };
    let d = match desired {
        Some(d) => d,
        None => 0,
    };
    if d == 0 {
        RuntimeStatus::Stopped
    } else if r > 0 {
        RuntimeStatus::Running
    } else {
        RuntimeStatus::Creating
    }
}

/// The handle reported for a deployment with `ready` ready replicas out of
/// `desired`: its name, status and ready count; preset, image and ids are not
/// known here.
pub fn status_handle(id: u128, ready: Option<i32>, desired: Option<i32>, created_at: Timestamp) -> (h: RuntimeHandle)
    ensures
        h@ == status_handle_view(id, ready, desired, created_at),
{
    let r = match ready {
        Some(r) => r,
        None => 0,
    };
    let name = deployment_name(id);
    let mut ready_text = String::new();
    push_signed_decimal(&mut ready_text, r);
    proof {
        reveal_strlit("deployment");
        reveal_strlit("ready_replicas");
        assert("deployment"@[0] != "ready_replicas"@[0]);
    }
    let pairs = vec![(String::from_str("deployment"), name.clone()), (String::from_str("ready_replicas"), ready_text)];
    assert(pairs@.map_values(|e: (String, String)| (e.0@, e.1@)) =~= status_handle_view(
        id,
        ready,
        desired,
        created_at,
    ).metadata);
    let metadata = StringMap::from_pairs(pairs);
    let h = RuntimeHandle {
        id,
        name,
        status: replica_status(ready, desired),
        provider: ProviderKind::Gke,
        preset: Preset::Small,
        image: String::new(),
        agent_id: 0,
        org_id: 0,
        public_url: None,
        created_at,
        started_at: None,
        stopped_at: None,
        metadata,
        shell_access_enabled: false,
    };
    assert(h@ =~= status_handle_view(id, ready, desired, created_at));
    h
}

/// The handle for a deployment that was found, as of now.
pub fn status_from_deployment(id: u128, ready: Option<i32>, desired: Option<i32>) -> (h: RuntimeHandle)
    ensures
        h@ == status_handle_view(id, ready, desired, h.created_at),
{
    let created_at = now();
    status_handle(id, ready, desired, created_at)
}

/// The label selector of the runtime's pods: `app=` and the deployment name.
pub fn pod_selector(id: u128) -> (s: String)
    ensures
        s@ == "app="@ + deployment_name_text(id),
{
    let mut s = String::from_str("app=");
    let d = deployment_name(id);
    s.append(d.as_str());
    s
}

/// The pod whose logs are read: the first one listed. No pod means the runtime
/// is not found; a first pod without a name is a provider error.
pub fn select_pod_name(id: u128, pod_names: &Vec<Option<String>>) -> (r: Result<String, RuntimeError>)
    ensures
        pod_names@.len() == 0 ==> (r matches Err(e) && e == RuntimeError::NotFound(id)),
        pod_names@.len() > 0 && pod_names@[0] is None ==> (r matches Err(RuntimeError::Provider(m))
            && m@ == "Pod has no name"@),
        pod_names@.len() > 0 && pod_names@[0] is Some ==> (r matches Ok(n) && n@ == pod_names@[0]->0@),
{
    if pod_names.len() == 0 {
        return Err(RuntimeError::NotFound(id));
    }
    match &pod_names[0] {
        Some(n) => Ok(n.clone()),
        None => Err(RuntimeError::Provider(String::from_str("Pod has no name"))),
    }
}

/// How many recent lines to ask for.
pub fn log_tail_lines(opts: &LogOptions) -> (n: i64)
    ensures
        n == opts.lines,
{
    opts.lines as i64
}

/// The log request for a runtime's pod: the last `tail_lines` lines, with
/// timestamps, only those after `since_time` where it is given.
pub struct PodLogRequest {
    pub tail_lines: i64,
    pub timestamps: bool,
    pub since_time: Option<Timestamp>,
}

/// The pod log request for `opts`.
pub fn plan_pod_logs(opts: &LogOptions) -> (r: PodLogRequest)
    ensures
        r.tail_lines == opts.lines,
        r.timestamps,
        r.since_time == opts.since,
{
    PodLogRequest { tail_lines: log_tail_lines(opts), timestamps: true, since_time: opts.since }
}

/// One log entry per line of the fetched text, in order, each from stdout and
/// stamped with the time it was read (the time is not stated).
pub fn log_entries(text: &str) -> (entries: Vec<LogEntry>)
    ensures
        entries@.len() == lines(text@).len(),
        forall|i: int| 0 <= i < entries@.len() ==> (#[trigger] entries@[i]).message@ == lines(text@)[i],
        forall|i: int| 0 <= i < entries@.len() ==> (#[trigger] entries@[i]).stream == LogStream::Stdout,
{
    let cs = chars_of(text);
    let ls = split_lines(&cs);
    let ghost lv = ls@.map_values(|l: Vec<char>| l@);
    let mut entries: Vec<LogEntry> = Vec::new();
    let mut i: usize = 0;
    while i < ls.len()
        invariant
            i <= ls@.len(),
            lv == lines(text@),
            lv == ls@.map_values(|l: Vec<char>| l@),
            entries@.len() == i,
            forall|j: int| 0 <= j < i ==> (#[trigger] entries@[j]).message@ == lv[j],
            forall|j: int| 0 <= j < i ==> (#[trigger] entries@[j]).stream == LogStream::Stdout,
        decreases ls@.len() - i,
    {
        let message = string_from_chars(&ls[i]);
        assert(message@ == lv[i as int]);
        let timestamp = now();
        let ghost prev = entries@;
        entries.push(LogEntry { timestamp, message, stream: LogStream::Stdout });
        assert(forall|j: int| 0 <= j < i ==> entries@[j] == prev[j]);
        i = i + 1;
    }
    entries
}

/// Exec is disabled: it goes through the sidecar's terminal, so that the
/// sidecar's controls cannot be bypassed.
pub fn exec(id: u128, command: &Vec<String>) -> (r: Result<ExecResult, RuntimeError>)
    ensures
        r matches Err(RuntimeError::Provider(m))
            && m@ == "Direct K8s exec is disabled. Use the sidecar web terminal endpoint."@,
{
    Err(RuntimeError::Provider(String::from_str("Direct K8s exec is disabled. Use the sidecar web terminal endpoint.")))
}

} // verus!
