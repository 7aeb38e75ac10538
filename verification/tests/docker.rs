use oneclaw_runtime::providers::docker::{self, ContainerState, DockerConfig, OutputChunk};
use oneclaw_runtime::{LogOptions, LogStream, Preset, ProviderKind, RuntimeError, RuntimeSpec, RuntimeStatus, Timestamp};

const ID: u128 = 0x67e5504410b1426f9247bb680e5fe0c8;
const TEXT: &str = "67e55044-10b1-426f-9247-bb680e5fe0c8";

#[test]
fn docker_config_default() {
    let c = DockerConfig::default();
    assert!(c.extra_allowed_images.is_empty());
    assert_eq!(c.network_name, "1claw-isolated");
    assert!(!c.allow_internet);
    assert_eq!(c.sidecar_image, "ghcr.io/1clawai/1claw-shroud-sidecar:latest");
}

#[test]
fn default_images_allowed() {
    let c = DockerConfig::default();
    for image in docker::default_base_image_list() {
        assert!(c.is_image_allowed(&image));
    }
    assert!(c.is_image_allowed("python:3.12-slim-bookworm"));
    assert!(c.is_image_allowed("ubuntu:24.04"));
    assert!(!c.is_image_allowed("ubuntu:22.04"));
    assert!(!c.is_image_allowed("alpine"));
    assert!(!c.is_image_allowed(""));
    assert!(!c.is_image_allowed("docker.io/python:3.12-slim"));
}

#[test]
fn digest_is_ignored() {
    let c = DockerConfig::default();
    assert!(c.is_image_allowed("node:22-slim@sha256:abcd"));
    assert!(!c.is_image_allowed("evil@python:3.12-slim"));
    assert_eq!(c.is_image_allowed("alpine@sha256:1"), c.is_image_allowed("alpine"));
}

#[test]
fn extra_images_allowed() {
    let mut c = DockerConfig::default();
    assert!(!c.is_image_allowed("ghcr.io/acme/agent:1"));
    c.extra_allowed_images.push("ghcr.io/acme/".to_string());
    assert!(c.is_image_allowed("ghcr.io/acme/agent:1"));
    assert!(c.is_image_allowed("python:3.12-slim"));
}

#[test]
fn container_names() {
    assert_eq!(docker::container_name(ID), format!("1claw-runtime-{}", TEXT));
    assert_ne!(docker::container_name(1), docker::container_name(2));
}

#[test]
fn denied_image_error() {
    let spec = RuntimeSpec::builder().image("alpine:3").agent_id(1).org_id(2).build();
    match docker::prepare_create(&DockerConfig::default(), &spec) {
        Err(RuntimeError::ImageDenied(m)) => {
            assert_eq!(m, "Image 'alpine:3' is not in the allowed base image list")
        }
        _ => panic!("expected ImageDenied"),
    }
}

#[test]
fn container_plan_hardened() {
    let spec = RuntimeSpec::builder()
        .preset(Preset::Medium)
        .agent_id(ID)
        .org_id(2)
        .env("MODEL", "gpt-4o")
        .expose_http(true)
        .http_port(8080)
        .build();
    let p = docker::plan_container(&DockerConfig::default(), &spec, 0);
    assert_eq!(p.runtime_id, 0);
    assert_eq!(p.container_name, "1claw-runtime-00000000-0000-0000-0000-000000000000");
    assert_eq!(p.image, "python:3.12-slim");
    assert_eq!(
        p.env,
        vec![
            "MODEL=gpt-4o".to_string(),
            format!("ONECLAW_AGENT_ID={}", TEXT),
            "ONECLAW_RUNTIME_ID=00000000-0000-0000-0000-000000000000".to_string(),
        ]
    );
    assert_eq!(p.user, "65534:65534");
    assert_eq!(p.memory_bytes, 2048 * 1024 * 1024);
    assert_eq!(p.nano_cpus, 1_000_000_000);
    assert_eq!(p.cap_drop, vec!["ALL".to_string()]);
    assert_eq!(p.security_opt, vec!["no-new-privileges".to_string()]);
    assert!(p.read_only_rootfs);
    assert_eq!(p.pids_limit, 256);
    assert_eq!(p.network_mode, Some("1claw-isolated".to_string()));
    let b = p.port_binding.unwrap();
    assert_eq!(b.container_port, "8080/tcp");
    assert_eq!(b.host_ip, "127.0.0.1");
    assert_eq!(b.host_port, "0");
    assert_eq!(
        p.tmpfs,
        vec![
            ("/tmp".to_string(), "size=128m,noexec,nosuid".to_string()),
            ("/secrets".to_string(), "size=16m,noexec,nosuid,nodev".to_string()),
        ]
    );
}

#[test]
fn container_plan_internet_and_no_port() {
    let mut c = DockerConfig::default();
    c.allow_internet = true;
    let spec = RuntimeSpec::builder().preset(Preset::Small).agent_id(1).org_id(2).build();
    let p = docker::plan_container(&c, &spec, 5);
    assert_eq!(p.network_mode, None);
    assert!(p.port_binding.is_none());
    assert_eq!(p.nano_cpus, 500_000_000);
    assert_eq!(p.memory_bytes, 1024 * 1024 * 1024);
}

#[test]
fn prepare_and_finish_create() {
    let spec = RuntimeSpec::builder().name("n").agent_id(1).org_id(2).build();
    let plan = docker::prepare_create(&DockerConfig::default(), &spec).ok().unwrap();
    assert_eq!((plan.runtime_id >> 76) & 0xf, 4);
    let name = plan.container_name.clone();
    let id = plan.runtime_id;
    let h = docker::finish_create(spec, plan);
    assert_eq!(h.id, id);
    assert_eq!(h.name, "n");
    assert_eq!(h.status, RuntimeStatus::Running);
    assert_eq!(h.provider, ProviderKind::Local);
    assert!(h.started_at.is_some());
    assert_eq!(h.public_url, None);
    assert_eq!(h.metadata.get("container_name"), Some(name));
}

#[test]
fn created_handle_exact() {
    let spec = RuntimeSpec::builder().agent_id(1).org_id(2).shell_access(true).build();
    let t1 = Timestamp { secs: 10, nanos: 1 };
    let t2 = Timestamp { secs: 10, nanos: 2 };
    let h = docker::created_handle(spec, ID, "c".to_string(), t1, t2);
    assert_eq!(h.created_at, t1);
    assert_eq!(h.started_at, Some(t2));
    assert!(h.shell_access_enabled);
    assert_eq!(h.metadata.len(), 1);
}

#[test]
fn container_state_mapping() {
    assert_eq!(docker::container_status(Some(ContainerState::Running)), RuntimeStatus::Running);
    assert_eq!(docker::container_status(Some(ContainerState::Exited)), RuntimeStatus::Stopped);
    assert_eq!(docker::container_status(Some(ContainerState::Created)), RuntimeStatus::Creating);
    assert_eq!(docker::container_status(Some(ContainerState::Paused)), RuntimeStatus::Failed);
    assert_eq!(docker::container_status(Some(ContainerState::Dead)), RuntimeStatus::Failed);
    assert_eq!(docker::container_status(None), RuntimeStatus::Failed);
}

#[test]
fn status_handle_trims_slashes() {
    let t = Timestamp { secs: 3, nanos: 0 };
    let h = docker::status_handle(
        ID,
        Some("//1claw-runtime-x".to_string()),
        Some(ContainerState::Running),
        Some("node:22-slim".to_string()),
        None,
        t,
    );
    assert_eq!(h.name, "1claw-runtime-x");
    assert_eq!(h.status, RuntimeStatus::Running);
    assert_eq!(h.image, "node:22-slim");
    assert_eq!(h.preset, Preset::Small);
    assert_eq!(h.agent_id, 0);
    assert_eq!(h.org_id, 0);
    assert_eq!(h.metadata.get("container_name"), Some(format!("1claw-runtime-{}", TEXT)));
    let h = docker::status_handle(ID, None, None, None, None, t);
    assert_eq!(h.name, "");
    assert_eq!(h.image, "");
    assert_eq!(h.status, RuntimeStatus::Failed);
}

#[test]
fn status_from_inspect_parses_start_time() {
    let h = docker::status_from_inspect(
        ID,
        Some("/c".to_string()),
        Some(ContainerState::Exited),
        None,
        Some("2024-01-01T00:00:00Z".to_string()),
    );
    assert_eq!(h.started_at, Some(Timestamp { secs: 1704067200, nanos: 0 }));
    assert_eq!(h.status, RuntimeStatus::Stopped);
    let h = docker::status_from_inspect(ID, None, None, None, Some("2024-01-01T01:00:00.5+01:00".to_string()));
    assert_eq!(h.started_at, Some(Timestamp { secs: 1704067200, nanos: 500_000_000 }));
    let h = docker::status_from_inspect(ID, None, None, None, Some("not a time".to_string()));
    assert_eq!(h.started_at, None);
}

#[test]
fn log_request_and_entries() {
    let r = docker::plan_logs(&LogOptions::default());
    assert_eq!(r.tail, "100");
    assert_eq!(r.since, 0);
    assert!(r.stdout && r.stderr && r.timestamps);
    let r = docker::plan_logs(&LogOptions { lines: 0, since: None, include_sidecar: true });
    assert_eq!(r.tail, "0");
    let since = Timestamp { secs: 1704067200, nanos: 250 };
    let r = docker::plan_logs(&LogOptions { lines: 5, since: Some(since), include_sidecar: false });
    assert_eq!(r.tail, "5");
    assert_eq!(r.since, 1704067200);
    let chunks = vec![
        OutputChunk::StdOut(b"hello".to_vec()),
        OutputChunk::StdIn(b"ignored".to_vec()),
        OutputChunk::StdErr(b"oops".to_vec()),
        OutputChunk::Console(b"ignored".to_vec()),
        OutputChunk::StdOut(vec![0x61, 0xff]),
    ];
    let entries = docker::log_entries(&chunks);
    let got: Vec<(String, LogStream)> = entries.into_iter().map(|e| (e.message, e.stream)).collect();
    assert_eq!(
        got,
        vec![
            ("hello".to_string(), LogStream::Stdout),
            ("oops".to_string(), LogStream::Stderr),
            ("a\u{fffd}".to_string(), LogStream::Stdout),
        ]
    );
}

#[test]
fn exec_plan_output_and_result() {
    let cmd = vec!["ls".to_string(), "-la".to_string()];
    let p = docker::plan_exec(&cmd);
    assert_eq!(p.cmd, cmd);
    assert!(p.attach_stdout && p.attach_stderr);
    assert_eq!(p.user, "65534");
    let chunks = vec![
        OutputChunk::StdOut(b"a".to_vec()),
        OutputChunk::StdErr(b"x".to_vec()),
        OutputChunk::StdOut(b"b".to_vec()),
        OutputChunk::Console(b"z".to_vec()),
    ];
    let (out, err) = docker::exec_output(&chunks);
    assert_eq!(out, "ab");
    assert_eq!(err, "x");
    let r = docker::exec_result(out, err, Some(3));
    assert_eq!(r.exit_code, 3);
    assert_eq!(r.stdout, "ab");
    assert_eq!(docker::exec_result(String::new(), String::new(), None).exit_code, -1);
    assert_eq!(docker::exec_result(String::new(), String::new(), Some(4294967297)).exit_code, 1);
}
