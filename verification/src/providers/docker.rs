//! Local Docker: hardened containers on an isolated network.

use vstd::prelude::*;
use vstd::string::*;
use crate::handle::{RuntimeHandle, RuntimeHandleView};
use crate::ids::{hyphenated, is_v4, random_v4, uuid_text};
use crate::spec::{RuntimeSpec, RuntimeSpecView, opt_text};
use crate::string_map::{StringMap, TextPairs};
use crate::text::{
    chars_before, chars_of, decimal, drop_leading, has_prefix, is_prefix, push_decimal,
    text_before, trim_leading, utf8_lossy, utf8_lossy_text,
};
use crate::time::{Timestamp, now, parse_utc, rfc3339_utc};
use crate::types::{ExecResult, LogEntry, LogOptions, LogStream, Preset, ProviderKind, RuntimeError, RuntimeStatus};

verus! {

/// Configuration for the local Docker provider.
#[derive(Clone, Debug, PartialEq, Eq)]
pub struct DockerConfig {
    /// Additional allowed base images beyond the defaults.
    pub extra_allowed_images: Vec<String>,
    /// Docker network for isolated containers.
    pub network_name: String,
    /// Whether to allow internet access.
    pub allow_internet: bool,
    /// Sidecar image to use.
    pub sidecar_image: String,
}

pub struct DockerConfigView {
    pub extra_allowed_images: Seq<Seq<char>>,
    pub network_name: Seq<char>,
    pub allow_internet: bool,
    pub sidecar_image: Seq<char>,
}

impl View for DockerConfig {
    type V = DockerConfigView;

    open spec fn view(&self) -> DockerConfigView {
        DockerConfigView {
            extra_allowed_images: self.extra_allowed_images@.map_values(|s: String| s@),
            network_name: self.network_name@,
            allow_internet: self.allow_internet,
            sidecar_image: self.sidecar_image@,
        }
    }
}

impl Default for DockerConfig {
    /// No extra images, the isolated network, no internet, the latest sidecar.
    fn default() -> (c: Self)
        ensures
            c@.extra_allowed_images.len() == 0,
            c@.network_name == "1claw-isolated"@,
            !c@.allow_internet,
            c@.sidecar_image == "ghcr.io/1clawai/1claw-shroud-sidecar:latest"@,
    {
        DockerConfig {
            extra_allowed_images: Vec::new(),
            network_name: String::from_str("1claw-isolated"),
            allow_internet: false,
            sidecar_image: String::from_str("ghcr.io/1clawai/1claw-shroud-sidecar:latest"),
        }
    }
}

/// Base images allowed for every local runtime.
pub open spec fn default_base_images() -> Seq<Seq<char>> {
    seq!["python:3.12-slim"@, "node:22-slim"@, "rust:1-slim"@, "golang:1.23-alpine"@, "ubuntu:24.04"@]
}

/// Some entry of `prefixes` is a prefix of `s`.
pub open spec fn any_prefix(prefixes: Seq<Seq<char>>, s: Seq<char>) -> bool {
    exists|i: int| 0 <= i < prefixes.len() && is_prefix(#[trigger] prefixes[i], s)
}

/// An image reference without its `@digest` part.
pub open spec fn image_base(image: Seq<char>) -> Seq<char> {
    text_before(image, '@')
}

/// An image is allowed when its reference, without any `@digest`, starts with
/// a default base image or with one of the extra allowed images.
pub open spec fn image_allowed(extra: Seq<Seq<char>>, image: Seq<char>) -> bool {
    any_prefix(default_base_images(), image_base(image)) || any_prefix(extra, image_base(image))
}

/// The default base images.
pub fn default_base_image_list() -> (v: Vec<String>)
    ensures
        v@.map_values(|s: String| s@) == default_base_images(),
{
    let v = vec![
        String::from_str("python:3.12-slim"),
        String::from_str("node:22-slim"),
        String::from_str("rust:1-slim"),
        String::from_str("golang:1.23-alpine"),
        String::from_str("ubuntu:24.04"),
    ];
    assert(v@.map_values(|s: String| s@) =~= default_base_images());
    v
}

/// Whether some entry of `prefixes` is a prefix of `s`.
fn any_prefix_of(prefixes: &Vec<String>, s: &Vec<char>) -> (b: bool)
    ensures
        b == any_prefix(prefixes@.map_values(|p: String| p@), s@),
{
    let ghost ps = prefixes@.map_values(|p: String| p@);
    let mut i: usize = 0;
    while i < prefixes.len()
        invariant
            i <= prefixes@.len(),
            ps == prefixes@.map_values(|p: String| p@),
            forall|j: int| 0 <= j < i ==> !is_prefix(#[trigger] ps[j], s@),
        decreases prefixes@.len() - i,
    {
        let p = chars_of(prefixes[i].as_str());
        assert(p@ == ps[i as int]);
        if has_prefix(s, &p) {
            return true;
        }
        i = i + 1;
    }
    false
}

impl DockerConfig {
    /// Whether `image` may run locally: its reference without any `@digest`
    /// starts with a default or an extra allowed image.
    pub fn is_image_allowed(&self, image: &str) -> (b: bool)
        ensures
            b == image_allowed(self@.extra_allowed_images, image@),
    {
        let cs = chars_of(image);
        let base = chars_before(&cs, '@');
        let defaults = default_base_image_list();
        any_prefix_of(&defaults, &base) || any_prefix_of(&self.extra_allowed_images, &base)
    }
}

proof fn lemma_text_before_without(s: Seq<char>, c: char)
    requires
        !s.contains(c),
    ensures
        text_before(s, c) == s,
{
    crate::text::lemma_text_before(s, c, s.len());
    assert(s.take(s.len() as int) =~= s);
}

/// Pinning an image by digest changes nothing: `image@digest` is allowed
/// exactly when `image` is.
pub proof fn lemma_digest_does_not_matter(extra: Seq<Seq<char>>, image: Seq<char>, digest: Seq<char>)
    requires
        !image.contains('@'),
    ensures
        image_allowed(extra, image + seq!['@'] + digest) == image_allowed(extra, image),
{
    let pinned = image + seq!['@'] + digest;
    assert forall|i: int| 0 <= i < image.len() implies pinned[i] != '@' by {
        assert(pinned[i] == image[i]);
        if image[i] == '@' {
            assert(image.contains('@'));
        }
    }
    crate::text::lemma_text_before(pinned, '@', image.len());
    assert(pinned.take(image.len() as int) =~= image);
    lemma_text_before_without(image, '@');
}

/// Text before `c` in `p + rest`, when `p` holds no `c`, is `p` followed by
/// the text before `c` in `rest`.
proof fn lemma_text_before_after_clean_prefix(p: Seq<char>, rest: Seq<char>, c: char)
    requires
        forall|i: int| 0 <= i < p.len() ==> p[i] != c,
    ensures
        text_before(p + rest, c) == p + text_before(rest, c),
    decreases p.len(),
{
    if p.len() == 0 {
        assert(p + rest =~= rest);
        assert(p + text_before(rest, c) =~= text_before(rest, c));
    } else {
        let t = p.drop_first();
        assert forall|i: int| 0 <= i < t.len() implies t[i] != c by {
            assert(t[i] == p[i + 1]);
        }
        lemma_text_before_after_clean_prefix(t, rest, c);
        assert((p + rest).drop_first() =~= t + rest);
        assert((p + rest)[0] == p[0]);
        assert(p + text_before(rest, c) =~= seq![p[0]] + (t + text_before(rest, c)));
    }
}

/// A reference that starts with `p`, where `p` holds no `@`, is allowed
/// whenever `p` is one of the default base images.
proof fn lemma_starts_with_default(extra: Seq<Seq<char>>, i: int, rest: Seq<char>)
    requires
        0 <= i < default_base_images().len(),
        forall|j: int| 0 <= j < default_base_images()[i].len() ==> default_base_images()[i][j] != '@',
    ensures
        image_allowed(extra, default_base_images()[i] + rest),
{
    let p = default_base_images()[i];
    lemma_text_before_after_clean_prefix(p, rest, '@');
    let base = image_base(p + rest);
    assert(base == p + text_before(rest, '@'));
    assert(base.take(p.len() as int) =~= p);
    assert(is_prefix(default_base_images()[i], base));
}

/// Under every configuration, each of the five default base images is
/// allowed, and so is every reference that starts with one of them (a tag
/// suffix, a digest, anything).
pub proof fn lemma_default_images_always_allowed(extra: Seq<Seq<char>>, rest: Seq<char>)
    ensures
        image_allowed(extra, "python:3.12-slim"@ + rest),
        image_allowed(extra, "node:22-slim"@ + rest),
        image_allowed(extra, "rust:1-slim"@ + rest),
        image_allowed(extra, "golang:1.23-alpine"@ + rest),
        image_allowed(extra, "ubuntu:24.04"@ + rest),
{
    reveal_strlit("python:3.12-slim");
    reveal_strlit("node:22-slim");
    reveal_strlit("rust:1-slim");
    reveal_strlit("golang:1.23-alpine");
    reveal_strlit("ubuntu:24.04");
    let d = default_base_images();
    assert(d[0] == "python:3.12-slim"@);
    assert(d[1] == "node:22-slim"@);
    assert(d[2] == "rust:1-slim"@);
    assert(d[3] == "golang:1.23-alpine"@);
    assert(d[4] == "ubuntu:24.04"@);
    lemma_starts_with_default(extra, 0, rest);
    lemma_starts_with_default(extra, 1, rest);
    lemma_starts_with_default(extra, 2, rest);
    lemma_starts_with_default(extra, 3, rest);
    lemma_starts_with_default(extra, 4, rest);
}

/// More extra images only ever allow more.
pub proof fn lemma_extra_images_widen(extra: Seq<Seq<char>>, more: Seq<Seq<char>>, image: Seq<char>)
    requires
        image_allowed(extra, image),
    ensures
        image_allowed(extra + more, image),
{
    if any_prefix(extra, image_base(image)) {
        let i = choose|i: int| 0 <= i < extra.len() && is_prefix(#[trigger] extra[i], image_base(image));
        assert((extra + more)[i] == extra[i]);
    }
}

/// `1claw-runtime-` and the hyphenated runtime id.
pub open spec fn container_name_text(id: u128) -> Seq<char> {
    "1claw-runtime-"@ + hyphenated(id)
}

/// The container name of a runtime.
pub fn container_name(id: u128) -> (n: String)
    ensures
        n@ == container_name_text(id),
{
    let mut n = String::from_str("1claw-runtime-");
    let t = uuid_text(id);
    n.append(t.as_str());
    n
}

/// Distinct runtimes never share a container name.
pub proof fn lemma_container_names_distinct(a: u128, b: u128)
    requires
        a != b,
    ensures
        container_name_text(a) != container_name_text(b),
{
    let p = "1claw-runtime-"@;
    if container_name_text(a) == container_name_text(b) {
        assert(container_name_text(a).skip(p.len() as int) =~= hyphenated(a));
        assert(container_name_text(b).skip(p.len() as int) =~= hyphenated(b));
        crate::ids::lemma_hyphenated_injective(a, b);
    }
}

/// The HTTP port published on the loopback interface, on a port Docker picks.
pub struct PortBinding {
    /// `{port}/tcp`.
    pub container_port: String,
    pub host_ip: String,
    pub host_port: String,
}

pub struct PortBindingView {
    pub container_port: Seq<char>,
    pub host_ip: Seq<char>,
    pub host_port: Seq<char>,
}

impl View for PortBinding {
    type V = PortBindingView;

    open spec fn view(&self) -> PortBindingView {
        PortBindingView {
            container_port: self.container_port@,
            host_ip: self.host_ip@,
            host_port: self.host_port@,
        }
    }
}

/// The container to create: its name, image, environment, user and the host
/// settings that confine it.
pub struct ContainerPlan {
    pub runtime_id: u128,
    pub container_name: String,
    pub image: String,
    /// `KEY=value` assignments.
    pub env: Vec<String>,
    pub user: String,
    pub memory_bytes: i64,
    pub nano_cpus: i64,
    pub cap_drop: Vec<String>,
    pub security_opt: Vec<String>,
    pub read_only_rootfs: bool,
    pub pids_limit: i64,
    /// The network to join; `None` leaves Docker's default network.
    pub network_mode: Option<String>,
    pub port_binding: Option<PortBinding>,
    /// tmpfs mounts: target path and mount options.
    pub tmpfs: Vec<(String, String)>,
}

#[verifier::ext_equal]
pub struct ContainerPlanView {
    pub runtime_id: u128,
    pub container_name: Seq<char>,
    pub image: Seq<char>,
    pub env: Seq<Seq<char>>,
    pub user: Seq<char>,
    pub memory_bytes: i64,
    pub nano_cpus: i64,
    pub cap_drop: Seq<Seq<char>>,
    pub security_opt: Seq<Seq<char>>,
    pub read_only_rootfs: bool,
    pub pids_limit: i64,
    pub network_mode: Option<Seq<char>>,
    pub port_binding: Option<PortBindingView>,
    pub tmpfs: TextPairs,
}

impl View for ContainerPlan {
    type V = ContainerPlanView;

    open spec fn view(&self) -> ContainerPlanView {
        ContainerPlanView {
            runtime_id: self.runtime_id,
            container_name: self.container_name@,
            image: self.image@,
            env: self.env@.map_values(|s: String| s@),
            user: self.user@,
            memory_bytes: self.memory_bytes,
            nano_cpus: self.nano_cpus,
            cap_drop: self.cap_drop@.map_values(|s: String| s@),
            security_opt: self.security_opt@.map_values(|s: String| s@),
            read_only_rootfs: self.read_only_rootfs,
            pids_limit: self.pids_limit,
            network_mode: opt_text(self.network_mode),
            port_binding: match self.port_binding {
                Some(b) => Some(b@),
                None => None,
            },
            tmpfs: self.tmpfs@.map_values(|e: (String, String)| (e.0@, e.1@)),
        }
    }
}

/// `KEY=value` for each public variable, in order.
pub open spec fn env_assignments(p: TextPairs) -> Seq<Seq<char>> {
    p.map_values(|e: (Seq<char>, Seq<char>)| e.0 + "="@ + e.1)
}

/// The container planned for runtime `id` of `spec`.
pub open spec fn container_plan(config: DockerConfigView, spec: RuntimeSpecView, id: u128) -> ContainerPlanView {
    ContainerPlanView {
        runtime_id: id,
        container_name: container_name_text(id),
        image: spec.image,
        env: env_assignments(spec.env_public) + seq![
            "ONECLAW_AGENT_ID="@ + hyphenated(spec.agent_id),
            "ONECLAW_RUNTIME_ID="@ + hyphenated(id),
        ],
        user: "65534:65534"@,
        memory_bytes: (spec.preset.spec_memory_mb() * 1048576) as i64,
        nano_cpus: (spec.preset.spec_vcpu_millis() * 1000000) as i64,
        cap_drop: seq!["ALL"@],
        security_opt: seq!["no-new-privileges"@],
        read_only_rootfs: true,
        pids_limit: 256,
        network_mode: if config.allow_internet {
            None
        } else {
            Some(config.network_name)
        },
        port_binding: if spec.expose_http {
            Some(PortBindingView {
                container_port: decimal(spec.http_port as nat) + "/tcp"@,
                host_ip: "127.0.0.1"@,
                host_port: "0"@,
            })
        } else {
            None
        },
        tmpfs: seq![
            ("/tmp"@, "size=128m,noexec,nosuid"@),
            ("/secrets"@, "size=16m,noexec,nosuid,nodev"@),
        ],
    }
}

/// The message of an image refused by the allowlist.
pub open spec fn image_denied_message(image: Seq<char>) -> Seq<char> {
    "Image '"@ + image + "' is not in the allowed base image list"@
}

/// `strings` as owned strings.
fn strings_of(strings: &Vec<String>) -> (r: Vec<String>)
    ensures
        r@.map_values(|s: String| s@) == strings@.map_values(|s: String| s@),
{
    let mut r: Vec<String> = Vec::new();
    let mut i: usize = 0;
    while i < strings.len()
        invariant
            i <= strings@.len(),
            r@.map_values(|s: String| s@) =~= strings@.map_values(|s: String| s@).take(i as int),
        decreases strings@.len() - i,
    {
        let ghost prev = r@;
        r.push(strings[i].clone());
        assert(r@.map_values(|s: String| s@) =~= prev.map_values(|s: String| s@).push(strings@[i as int]@));
        i = i + 1;
        assert(r@.map_values(|s: String| s@) =~= strings@.map_values(|s: String| s@).take(i as int));
    }
    assert(strings@.map_values(|s: String| s@).take(i as int) =~= strings@.map_values(|s: String| s@));
    r
}

/// The environment assignments of the container.
fn container_env(spec: &RuntimeSpec, id: u128) -> (env: Vec<String>)
    ensures
        env@.map_values(|s: String| s@) == env_assignments(spec@.env_public) + seq![
            "ONECLAW_AGENT_ID="@ + hyphenated(spec.agent_id),
            "ONECLAW_RUNTIME_ID="@ + hyphenated(id),
        ],
{
    let ghost target = env_assignments(spec@.env_public);
    let mut env: Vec<String> = Vec::new();
    let n = spec.env_public.len();
    let mut i: usize = 0;
    while i < n
        invariant
            i <= n,
            n == spec.env_public@.len(),
            target == env_assignments(spec@.env_public),
            env@.map_values(|s: String| s@) =~= target.take(i as int),
        decreases n - i,
    {
        let mut line = spec.env_public.key_at(i).clone();
        line.append("=");
        line.append(spec.env_public.value_at(i).as_str());
        let ghost prev = env@;
        env.push(line);
        assert(env@.map_values(|s: String| s@) =~= prev.map_values(|s: String| s@).push(target[i as int]));
        i = i + 1;
        assert(env@.map_values(|s: String| s@) =~= target.take(i as int));
    }
    assert(target.take(n as int) =~= target);
    let mut agent = String::from_str("ONECLAW_AGENT_ID=");
    let at = uuid_text(spec.agent_id);
    agent.append(at.as_str());
    let mut runtime = String::from_str("ONECLAW_RUNTIME_ID=");
    let rt = uuid_text(id);
    runtime.append(rt.as_str());
    env.push(agent);
    env.push(runtime);
    assert(env@.map_values(|s: String| s@) =~= env_assignments(spec@.env_public) + seq![
        "ONECLAW_AGENT_ID="@ + hyphenated(spec.agent_id),
        "ONECLAW_RUNTIME_ID="@ + hyphenated(id),
    ]);
    env
}

/// The container for runtime `id` of `spec`: hardened (no capabilities, no
/// privilege gain, read-only root, non-root user, 256 processes, tmpfs only at
/// `/tmp` and `/secrets`), limited to the preset's CPU and memory, on the
/// isolated network unless internet is allowed, and publishing the HTTP port
/// on loopback only when exposed.
pub fn plan_container(config: &DockerConfig, spec: &RuntimeSpec, id: u128) -> (p: ContainerPlan)
    ensures
        p@ == container_plan(config@, spec@, id),
{
    let env = container_env(spec, id);
    let memory_bytes: i64 = (spec.preset.memory_mb() as i64) * 1048576;
    let nano_cpus: i64 = (spec.preset.vcpu_millis() as i64) * 1000000;
    let network_mode = if config.allow_internet {
        None
    } else {
        Some(config.network_name.clone())
    };
    let port_binding = if spec.expose_http {
        let mut port = String::new();
        push_decimal(&mut port, spec.http_port as u64);
        port.append("/tcp");
        Some(PortBinding {
            container_port: port,
            host_ip: String::from_str("127.0.0.1"),
            host_port: String::from_str("0"),
        })
    } else {
        None
    };
    let cap_drop = vec![String::from_str("ALL")];
    let security_opt = vec![String::from_str("no-new-privileges")];
    let tmpfs = vec![
        (String::from_str("/tmp"), String::from_str("size=128m,noexec,nosuid")),
        (String::from_str("/secrets"), String::from_str("size=16m,noexec,nosuid,nodev")),
    ];
    let p = ContainerPlan {
        runtime_id: id,
        container_name: container_name(id),
        image: spec.image.clone(),
        env,
        user: String::from_str("65534:65534"),
        memory_bytes,
        nano_cpus,
        cap_drop,
        security_opt,
        read_only_rootfs: true,
        pids_limit: 256,
        network_mode,
        port_binding,
        tmpfs,
    };
    assert(p@.cap_drop =~= seq!["ALL"@]);
    assert(p@.security_opt =~= seq!["no-new-privileges"@]);
    assert(p@.tmpfs =~= seq![
        ("/tmp"@, "size=128m,noexec,nosuid"@),
        ("/secrets"@, "size=16m,noexec,nosuid,nodev"@),
    ]);
    assert(p@ =~= container_plan(config@, spec@, id));
    p
}

/// Checks the image against the allowlist, then plans the container of a new
/// runtime with a fresh random id. A refused image is an `ImageDenied` error.
pub fn prepare_create(config: &DockerConfig, spec: &RuntimeSpec) -> (r: Result<ContainerPlan, RuntimeError>)
    ensures
        !image_allowed(config@.extra_allowed_images, spec@.image) ==> (r matches Err(
            RuntimeError::ImageDenied(m),
        ) && m@ == image_denied_message(spec@.image)),
        image_allowed(config@.extra_allowed_images, spec@.image) ==> (r matches Ok(p) && is_v4(p.runtime_id)
            && p@ == container_plan(config@, spec@, p.runtime_id)),
{
    if !config.is_image_allowed(spec.image.as_str()) {
        let mut m = String::from_str("Image '");
        m.append(spec.image.as_str());
        m.append("' is not in the allowed base image list");
        return Err(RuntimeError::ImageDenied(m));
    }
    let id = random_v4();
    Ok(plan_container(config, spec, id))
}

/// Whatever the spec, the planned container drops every capability, forbids
/// privilege gain, has a read-only root, runs as `65534:65534` with at most
/// 256 processes, mounts nothing but tmpfs at `/tmp` and `/secrets`, gets the
/// preset's memory and CPU, and stays on the isolated network unless the
/// configuration allows internet access, which the default one does not.
pub proof fn lemma_container_plan_hardened(config: DockerConfigView, spec: RuntimeSpecView, id: u128)
    ensures
        ({
            let p = container_plan(config, spec, id);
            &&& p.cap_drop == seq!["ALL"@]
            &&& p.security_opt == seq!["no-new-privileges"@]
            &&& p.read_only_rootfs
            &&& p.user == "65534:65534"@
            &&& p.pids_limit == 256
            &&& p.tmpfs.len() == 2
            &&& p.tmpfs[0].0 == "/tmp"@
            &&& p.tmpfs[1].0 == "/secrets"@
            &&& p.memory_bytes == spec.preset.spec_memory_mb() * 1048576
            &&& p.nano_cpus == spec.preset.spec_vcpu_millis() * 1000000
            &&& (!config.allow_internet ==> p.network_mode == Some(config.network_name))
            &&& (p.port_binding matches Some(b) ==> spec.expose_http && b.host_ip == "127.0.0.1"@)
        }),
{
}

/// The handle of a container just created and started for `spec`.
pub open spec fn created_handle_view(
    spec: RuntimeSpecView,
    id: u128,
    container_name: Seq<char>,
    created_at: Timestamp,
    started_at: Timestamp,
) -> RuntimeHandleView {
    RuntimeHandleView {
        id,
        name: spec.name,
        status: RuntimeStatus::Running,
        provider: ProviderKind::Local,
        preset: spec.preset,
        image: spec.image,
        agent_id: spec.agent_id,
        org_id: spec.org_id,
        public_url: None,
        created_at,
        started_at: Some(started_at),
        stopped_at: None,
        metadata: seq![("container_name"@, container_name)],
        shell_access_enabled: spec.shell_access_enabled,
    }
}

/// The handle of a created container is the spec's own runtime: its name,
/// preset, image, agent and organization ids, running and local, with the
/// given id, instants and container name.
pub proof fn lemma_docker_handle_carries_spec(
    spec: RuntimeSpecView,
    id: u128,
    container_name: Seq<char>,
    created_at: Timestamp,
    started_at: Timestamp,
)
    ensures
        ({
            let h = created_handle_view(spec, id, container_name, created_at, started_at);
            &&& h.id == id
            &&& h.name == spec.name
            &&& h.preset == spec.preset
            &&& h.image == spec.image
            &&& h.agent_id == spec.agent_id
            &&& h.org_id == spec.org_id
            &&& h.status == RuntimeStatus::Running
            &&& h.provider == ProviderKind::Local
            &&& h.created_at == created_at
            &&& h.started_at == Some(started_at)
            &&& h.metadata == seq![("container_name"@, container_name)]
        }),
{
}

/// An exit code that fits in an `i32` is reported unchanged; a missing one is
/// `-1`.
pub proof fn lemma_exit_code_kept(c: i64)
    ensures
        i32::MIN <= c <= i32::MAX ==> exit_code_of(Some(c)) == c,
        exit_code_of(None) == -1,
{
}

/// The handle of a container just created and started: running, local, no
/// public URL, with the container name as metadata.
pub fn created_handle(
    spec: RuntimeSpec,
    id: u128,
    container_name: String,
    created_at: Timestamp,
    started_at: Timestamp,
) -> (h: RuntimeHandle)
    ensures
        h@ == created_handle_view(spec@, id, container_name@, created_at, started_at),
        h.id == id,
        h.name@ == spec.name@,
        h.preset == spec.preset,
        h.image@ == spec.image@,
        h.agent_id == spec.agent_id,
        h.org_id == spec.org_id,
        h.status == RuntimeStatus::Running,
        h.provider == ProviderKind::Local,
        h.created_at == created_at,
        h.started_at == Some(started_at),
{
    let ghost name = container_name@;
    let pairs = vec![(String::from_str("container_name"), container_name)];
    assert(pairs@.map_values(|e: (String, String)| (e.0@, e.1@)) =~= seq![("container_name"@, name)]);
    let metadata = StringMap::from_pairs(pairs);
    let h = RuntimeHandle {
        id,
        name: spec.name,
        status: RuntimeStatus::Running,
        provider: ProviderKind::Local,
        preset: spec.preset,
        image: spec.image,
        agent_id: spec.agent_id,
        org_id: spec.org_id,
        public_url: None,
        created_at,
        started_at: Some(started_at),
        stopped_at: None,
        metadata,
        shell_access_enabled: spec.shell_access_enabled,
    };
    assert(h@ =~= created_handle_view(spec@, id, name, created_at, started_at));
    h
}

/// The handle once the planned container runs, created and started now.
pub fn finish_create(spec: RuntimeSpec, plan: ContainerPlan) -> (h: RuntimeHandle)
    ensures
        h.started_at is Some,
        h@ == created_handle_view(spec@, plan.runtime_id, plan.container_name@, h.created_at, h.started_at->0),
        h.id == plan.runtime_id,
        h.name@ == spec.name@,
        h.preset == spec.preset,
        h.image@ == spec.image@,
        h.agent_id == spec.agent_id,
        h.org_id == spec.org_id,
        h.status == RuntimeStatus::Running,
        h.provider == ProviderKind::Local,
{
    let created_at = now();
    let started_at = now();
    created_handle(spec, plan.runtime_id, plan.container_name, created_at, started_at)
}

/// The state Docker reports for a container.
#[derive(Clone, Copy, Debug, PartialEq, Eq, Structural)]
pub enum ContainerState {
    Empty,
    Created,
    Running,
    Paused,
    Restarting,
    Removing,
    Exited,
    Dead,
}

/// A running container is running, an exited one stopped, a created one still
/// being created; any other state, or none, is a failure.
pub open spec fn status_of_state(state: Option<ContainerState>) -> RuntimeStatus {
    match state {
        Some(ContainerState::Running) => RuntimeStatus::Running,
        Some(ContainerState::Exited) => RuntimeStatus::Stopped,
        Some(ContainerState::Created) => RuntimeStatus::Creating,
        _ => RuntimeStatus::Failed,
    }
}

/// The runtime status of a container state.
pub fn container_status(state: Option<ContainerState>) -> (s: RuntimeStatus)
    ensures
        s == status_of_state(state),
{
    match state {
        Some(ContainerState::Running) => RuntimeStatus::Running,
        Some(ContainerState::Exited) => RuntimeStatus::Stopped,
        Some(ContainerState::Created) => RuntimeStatus::Creating,
        _ => RuntimeStatus::Failed,
    }
}

/// A text, or the empty text where there is none.
pub open spec fn text_or_empty(t: Option<Seq<char>>) -> Seq<char> {
    match t {
        Some(t) => t,
        None => Seq::empty(),
    }
}

/// The handle reported for an inspected container: its name without leading
/// slashes, its status, its image, when it started, and its container name as
/// metadata; preset and ids are not known here.
pub open spec fn status_handle_view(
    id: u128,
    reported_name: Option<Seq<char>>,
    state: Option<ContainerState>,
    image: Option<Seq<char>>,
    started_at: Option<Timestamp>,
    created_at: Timestamp,
) -> RuntimeHandleView {
    RuntimeHandleView {
        id,
        name: drop_leading(text_or_empty(reported_name), '/'),
        status: status_of_state(state),
        provider: ProviderKind::Local,
        preset: Preset::Small,
        image: text_or_empty(image),
        agent_id: 0,
        org_id: 0,
        public_url: None,
        created_at,
        started_at,
        stopped_at: None,
        metadata: seq![("container_name"@, container_name_text(id))],
        shell_access_enabled: false,
    }
}

/// The instant a reported start time denotes, if it parses.
pub open spec fn parsed_time(text: Option<Seq<char>>) -> Option<Timestamp> {
    match text {
        Some(t) => match rfc3339_utc(t) {
            Some(p) => Some(Timestamp { secs: p.0, nanos: p.1 }),
            None => None,
        },
        None => None,
    }
}

/// The handle reported for an inspected container.
pub fn status_handle(
    id: u128,
    reported_name: Option<String>,
    state: Option<ContainerState>,
    image: Option<String>,
    started_at: Option<Timestamp>,
    created_at: Timestamp,
) -> (h: RuntimeHandle)
    ensures
        h@ == status_handle_view(id, opt_text(reported_name), state, opt_text(image), started_at, created_at),
{
    let raw_name = match reported_name {
        Some(n) => n,
        None => String::new(),
    };
    let name = trim_leading(&raw_name, '/');
    let ghost reported_image = opt_text(image);
    let image_text = match image {
        Some(i) => i,
        None => String::new(),
    };
    let cname = container_name(id);
    let ghost cn = cname@;
    let pairs = vec![(String::from_str("container_name"), cname)];
    assert(pairs@.map_values(|e: (String, String)| (e.0@, e.1@)) =~= seq![("container_name"@, cn)]);
    let metadata = StringMap::from_pairs(pairs);
    let h = RuntimeHandle {
        id,
        name,
        status: container_status(state),
        provider: ProviderKind::Local,
        preset: Preset::Small,
        image: image_text,
        agent_id: 0,
        org_id: 0,
        public_url: None,
        created_at,
        started_at,
        stopped_at: None,
        metadata,
        shell_access_enabled: false,
    };
    assert(h@ =~= status_handle_view(id, opt_text(reported_name), state, reported_image, started_at, created_at));
    h
}

/// The handle reported for an inspected container, as of now, with its start
/// time parsed from the text Docker reports.
pub fn status_from_inspect(
    id: u128,
    reported_name: Option<String>,
    state: Option<ContainerState>,
    image: Option<String>,
    started_at: Option<String>,
) -> (h: RuntimeHandle)
    ensures
        h@ == status_handle_view(
            id,
            opt_text(reported_name),
            state,
            opt_text(image),
            parsed_time(opt_text(started_at)),
            h.created_at,
        ),
{
    let started = match &started_at {
        Some(t) => parse_utc(t.as_str()),
        None => None,
    };
    let created_at = now();
    status_handle(id, reported_name, state, image, started, created_at)
}

/// What the Docker engine sends on an attached or log stream.
pub enum OutputChunk {
    StdErr(Vec<u8>),
    StdOut(Vec<u8>),
    StdIn(Vec<u8>),
    Console(Vec<u8>),
}

/// The log records of a stream: one per stdout or stderr chunk, in order, with
/// its text; other chunks are skipped.
pub open spec fn log_records(chunks: Seq<OutputChunk>) -> Seq<(Seq<char>, LogStream)>
    decreases chunks.len(),
{
    if chunks.len() == 0 {
        seq![]
    } else {
        let prev = log_records(chunks.drop_last());
        match chunks.last() {
            OutputChunk::StdOut(b) => prev.push((utf8_lossy_text(b@), LogStream::Stdout)),
            OutputChunk::StdErr(b) => prev.push((utf8_lossy_text(b@), LogStream::Stderr)),
            _ => prev,
        }
    }
}

/// The text of one stream of an exec: its chunks' texts, concatenated.
pub open spec fn stream_text(chunks: Seq<OutputChunk>, stderr: bool) -> Seq<char>
    decreases chunks.len(),
{
    if chunks.len() == 0 {
        seq![]
    } else {
        let prev = stream_text(chunks.drop_last(), stderr);
        match chunks.last() {
            OutputChunk::StdOut(b) => if stderr {
                prev
            } else {
                prev + utf8_lossy_text(b@)
            },
            OutputChunk::StdErr(b) => if stderr {
                prev + utf8_lossy_text(b@)
            } else {
                prev
            },
            _ => prev,
        }
    }
}

/// The log request for a container: both streams, with timestamps, the last
/// `tail` lines, only those written since `since`.
pub struct LogRequest {
    pub stdout: bool,
    pub stderr: bool,
    pub timestamps: bool,
    /// The number of lines, in decimal.
    pub tail: String,
    /// Only logs since this instant, in whole seconds since the Unix epoch;
    /// 0 asks for all of them.
    pub since: i64,
}

/// The engine's `since` for an optional instant: its whole seconds, or 0 (no
/// filter) where there is none.
pub open spec fn since_secs(since: Option<Timestamp>) -> i64 {
    match since {
        Some(t) => t.secs,
        None => 0,
    }
}

/// The log request for `opts`: the last `opts.lines` lines of both streams,
/// only those after `opts.since` where it is given.
pub fn plan_logs(opts: &LogOptions) -> (r: LogRequest)
    ensures
        r.stdout && r.stderr && r.timestamps,
        r.tail@ == decimal(opts.lines as nat),
        r.since == since_secs(opts.since),
{
    let mut tail = String::new();
    push_decimal(&mut tail, opts.lines as u64);
    let since: i64 = match opts.since {
        Some(t) => t.secs,
        None => 0,
    };
    LogRequest { stdout: true, stderr: true, timestamps: true, tail, since }
}

/// One entry per stdout or stderr chunk read, in order, each stamped with the
/// time it was read (the time is not stated).
pub fn log_entries(chunks: &Vec<OutputChunk>) -> (entries: Vec<LogEntry>)
    ensures
        entries@.map_values(|e: LogEntry| (e.message@, e.stream)) == log_records(chunks@),
{
    let mut entries: Vec<LogEntry> = Vec::new();
    let mut i: usize = 0;
    while i < chunks.len()
        invariant
            i <= chunks@.len(),
            entries@.map_values(|e: LogEntry| (e.message@, e.stream)) =~= log_records(chunks@.take(i as int)),
        decreases chunks@.len() - i,
    {
        let ghost prev = entries@;
        assert(chunks@.take(i + 1).drop_last() =~= chunks@.take(i as int));
        assert(chunks@.take(i + 1).last() == chunks@[i as int]);
        match &chunks[i] {
            OutputChunk::StdOut(b) => {
                let message = utf8_lossy(b.as_slice());
                let timestamp = now();
                entries.push(LogEntry { timestamp, message, stream: LogStream::Stdout });
                assert(entries@.map_values(|e: LogEntry| (e.message@, e.stream)) =~= prev.map_values(
                    |e: LogEntry| (e.message@, e.stream),
                ).push((utf8_lossy_text(b@), LogStream::Stdout)));
            },
            OutputChunk::StdErr(b) => {
                let message = utf8_lossy(b.as_slice());
                let timestamp = now();
                entries.push(LogEntry { timestamp, message, stream: LogStream::Stderr });
                assert(entries@.map_values(|e: LogEntry| (e.message@, e.stream)) =~= prev.map_values(
                    |e: LogEntry| (e.message@, e.stream),
                ).push((utf8_lossy_text(b@), LogStream::Stderr)));
            },
            _ => {},
        }
        i = i + 1;
    }
    assert(chunks@.take(i as int) =~= chunks@);
    entries
}

/// The exec to create: the command, both output streams attached, run as the
/// unprivileged user `65534`.
pub struct ExecPlan {
    pub cmd: Vec<String>,
    pub attach_stdout: bool,
    pub attach_stderr: bool,
    pub user: String,
}

/// The exec of `command` in a runtime's container.
pub fn plan_exec(command: &Vec<String>) -> (p: ExecPlan)
    ensures
        p.cmd@.map_values(|s: String| s@) == command@.map_values(|s: String| s@),
        p.attach_stdout && p.attach_stderr,
        p.user@ == "65534"@,
{
    ExecPlan {
        cmd: strings_of(command),
        attach_stdout: true,
        attach_stderr: true,
        user: String::from_str("65534"),
    }
}

/// The stdout and stderr texts of an exec's output.
pub fn exec_output(chunks: &Vec<OutputChunk>) -> (out: (String, String))
    ensures
        out.0@ == stream_text(chunks@, false),
        out.1@ == stream_text(chunks@, true),
{
    let mut stdout = String::new();
    let mut stderr = String::new();
    let mut i: usize = 0;
    while i < chunks.len()
        invariant
            i <= chunks@.len(),
            stdout@ == stream_text(chunks@.take(i as int), false),
            stderr@ == stream_text(chunks@.take(i as int), true),
        decreases chunks@.len() - i,
    {
        assert(chunks@.take(i + 1).drop_last() =~= chunks@.take(i as int));
        assert(chunks@.take(i + 1).last() == chunks@[i as int]);
        match &chunks[i] {
            OutputChunk::StdOut(b) => {
                let t = utf8_lossy(b.as_slice());
                stdout.append(t.as_str());
            },
            OutputChunk::StdErr(b) => {
                let t = utf8_lossy(b.as_slice());
                stderr.append(t.as_str());
            },
            _ => {},
        }
        i = i + 1;
    }
    assert(chunks@.take(i as int) =~= chunks@);
    (stdout, stderr)
}

/// The exit code as an `i32` (truncated), or `-1` where none was reported.
pub open spec fn exit_code_of(code: Option<i64>) -> i32 {
    match code {
        Some(c) => c as i32,
        None => -1i32,
    }
}

/// The result of an exec.
pub fn exec_result(stdout: String, stderr: String, exit_code: Option<i64>) -> (r: ExecResult)
    ensures
        r.stdout@ == stdout@,
        r.stderr@ == stderr@,
        r.exit_code == exit_code_of(exit_code),
        (exit_code matches Some(c) && i32::MIN <= c <= i32::MAX) ==> r.exit_code == exit_code->0,
        exit_code is None ==> r.exit_code == -1,
{
    let code: i32 = match exit_code {
        Some(c) => c as i32,
        None => -1,
    };
    ExecResult { stdout, stderr, exit_code: code }
}

} // verus!
