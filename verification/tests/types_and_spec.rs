use oneclaw_runtime::string_map::StringMap;
use oneclaw_runtime::{
    default_http_port, default_idle_timeout, default_inbound_auth, default_log_lines,
    default_shell_auth_policy, default_shell_max_session_minutes, InboundAuth, LogOptions,
    Preset, RuntimeError, RuntimeSpec, RuntimeStatus, SecretMount,
};

const ID: u128 = 0x67e5504410b1426f9247bb680e5fe0c8;

fn is_v4(id: u128) -> bool {
    (id >> 76) & 0xf == 4 && (id >> 62) & 0x3 == 2
}

#[test]
fn preset_memory_and_cpu() {
    assert_eq!(Preset::Small.memory_mb(), 1024);
    assert_eq!(Preset::Medium.memory_mb(), 2048);
    assert_eq!(Preset::Large.memory_mb(), 4096);
    assert_eq!(Preset::SmallCc.memory_mb(), 1024);
    assert_eq!(Preset::MediumCc.memory_mb(), 2048);
    assert_eq!(Preset::LargeCc.memory_mb(), 4096);
    assert_eq!(Preset::Small.vcpu_millis(), 500);
    assert_eq!(Preset::MediumCc.vcpu_millis(), 1000);
    assert_eq!(Preset::LargeCc.vcpu_millis(), 2000);
}

#[test]
fn preset_millis_match_fractional_vcpu() {
    let expected: [(Preset, f32); 6] = [
        (Preset::Small, 0.5),
        (Preset::Medium, 1.0),
        (Preset::Large, 2.0),
        (Preset::SmallCc, 0.5),
        (Preset::MediumCc, 1.0),
        (Preset::LargeCc, 2.0),
    ];
    for (p, vcpu) in expected {
        assert_eq!(p.vcpu_millis(), (vcpu * 1000.0) as u32);
        assert_eq!(p.vcpu_millis() as i64 * 1_000_000, (vcpu * 1_000_000_000.0) as i64);
    }
}

#[test]
fn preset_confidential() {
    assert!(!Preset::Small.is_confidential());
    assert!(!Preset::Medium.is_confidential());
    assert!(!Preset::Large.is_confidential());
    assert!(Preset::SmallCc.is_confidential());
    assert!(Preset::MediumCc.is_confidential());
    assert!(Preset::LargeCc.is_confidential());
}

#[test]
fn serde_defaults() {
    assert_eq!(default_idle_timeout(), 1800);
    assert_eq!(default_http_port(), 8000);
    assert_eq!(default_inbound_auth(), InboundAuth::ApiKey);
    assert_eq!(InboundAuth::default(), default_inbound_auth());
    assert_eq!(default_shell_auth_policy(), "password");
    assert_eq!(default_shell_max_session_minutes(), 30);
    assert_eq!(default_log_lines(), 100);
}

#[test]
fn log_options_default_matches_serde_default() {
    let o = LogOptions::default();
    assert_eq!(o.lines, default_log_lines());
    assert_eq!(o.since, None);
    assert!(!o.include_sidecar);
}

#[test]
fn status_debug_names() {
    assert_eq!(RuntimeStatus::Creating.debug_text(), format!("{:?}", RuntimeStatus::Creating));
    assert_eq!(RuntimeStatus::Running.debug_text(), "Running");
    assert_eq!(RuntimeStatus::Stopping.debug_text(), "Stopping");
    assert_eq!(RuntimeStatus::Stopped.debug_text(), "Stopped");
    assert_eq!(RuntimeStatus::Failed.debug_text(), "Failed");
    assert_eq!(RuntimeStatus::Deleting.debug_text(), "Deleting");
}

#[test]
fn error_messages() {
    assert_eq!(
        RuntimeError::NotFound(ID).to_string(),
        "Runtime not found: 67e55044-10b1-426f-9247-bb680e5fe0c8"
    );
    assert_eq!(
        RuntimeError::InvalidState { status: RuntimeStatus::Stopped }.to_string(),
        "Runtime is in an invalid state for this operation: Stopped"
    );
    assert_eq!(RuntimeError::Provider("boom".to_string()).to_string(), "Provider error: boom");
    assert_eq!(RuntimeError::Config("bad".to_string()).to_string(), "Configuration error: bad");
    assert_eq!(
        RuntimeError::ResourceLimit("cpu".to_string()).to_string(),
        "Resource limit exceeded: cpu"
    );
    assert_eq!(RuntimeError::ImageDenied("x".to_string()).to_string(), "Image not allowed: x");
    assert_eq!(RuntimeError::Timeout.to_string(), "Timeout waiting for runtime");
}

#[test]
fn nil_id_message() {
    assert_eq!(
        RuntimeError::NotFound(0).to_string(),
        "Runtime not found: 00000000-0000-0000-0000-000000000000"
    );
}

#[test]
fn string_map_insert_and_get() {
    let mut m = StringMap::new();
    assert_eq!(m.len(), 0);
    m.insert("MODEL".to_string(), "gpt-4o".to_string());
    m.insert("REGION".to_string(), "eu".to_string());
    m.insert("MODEL".to_string(), "o1".to_string());
    assert_eq!(m.len(), 2);
    assert_eq!(m.get("MODEL"), Some("o1".to_string()));
    assert_eq!(m.get("REGION"), Some("eu".to_string()));
    assert_eq!(m.get("OTHER"), None);
    assert_eq!(m.key_at(0), "MODEL");
    assert_eq!(m.value_at(0), "o1");
    assert_eq!(m.key_at(1), "REGION");
    let c = m.clone();
    assert_eq!(c, m);
}

#[test]
fn builder_defaults() {
    let s = RuntimeSpec::builder().build();
    assert_eq!(s.name, "runtime");
    assert_eq!(s.image, "python:3.12-slim");
    assert_eq!(s.preset, Preset::Small);
    assert_eq!(s.env_public.len(), 0);
    assert_eq!(s.idle_timeout_secs, default_idle_timeout());
    assert!(!s.expose_http);
    assert_eq!(s.http_port, default_http_port());
    assert_eq!(s.slug, None);
    assert_eq!(s.inbound_auth, InboundAuth::ApiKey);
    assert!(s.secret_mounts.is_empty());
    assert_eq!(s.sidecar_image, None);
    assert!(!s.shell_access_enabled);
    assert_eq!(s.shell_auth_policy, "password");
    assert_eq!(s.shell_max_session_minutes, 30);
    assert!(is_v4(s.agent_id));
    assert!(is_v4(s.org_id));
}

#[test]
fn builder_fresh_ids_differ() {
    let a = RuntimeSpec::builder().build();
    let b = RuntimeSpec::builder().build();
    assert_ne!(a.agent_id, b.agent_id);
    assert_ne!(a.agent_id, a.org_id);
}

#[test]
fn builder_sets_everything() {
    let mount = SecretMount {
        vault_id: 7,
        secret_path: "api/key".to_string(),
        mount_path: "/secrets/api-key".to_string(),
    };
    let s = RuntimeSpec::builder()
        .name("my-agent")
        .image("node:22-slim")
        .preset(Preset::Medium)
        .agent_id(11)
        .org_id(22)
        .env("MODEL", "gpt-4o")
        .env("MODE", "fast")
        .env("MODEL", "o1")
        .idle_timeout(60)
        .expose_http(true)
        .http_port(9000)
        .slug("my-agent")
        .inbound_auth(InboundAuth::Jwt)
        .secret_mount(mount.clone())
        .sidecar_image("side:1")
        .shell_access(true)
        .shell_auth_policy("totp")
        .shell_max_session_minutes(5)
        .build();
    assert_eq!(s.name, "my-agent");
    assert_eq!(s.image, "node:22-slim");
    assert_eq!(s.preset, Preset::Medium);
    assert_eq!(s.agent_id, 11);
    assert_eq!(s.org_id, 22);
    assert_eq!(s.env_public.len(), 2);
    assert_eq!(s.env_public.get("MODEL"), Some("o1".to_string()));
    assert_eq!(s.env_public.get("MODE"), Some("fast".to_string()));
    assert_eq!(s.idle_timeout_secs, 60);
    assert!(s.expose_http);
    assert_eq!(s.http_port, 9000);
    assert_eq!(s.slug, Some("my-agent".to_string()));
    assert_eq!(s.inbound_auth, InboundAuth::Jwt);
    assert_eq!(s.secret_mounts, vec![mount]);
    assert_eq!(s.sidecar_image, Some("side:1".to_string()));
    assert!(s.shell_access_enabled);
    assert_eq!(s.shell_auth_policy, "totp");
    assert_eq!(s.shell_max_session_minutes, 5);
}

#[test]
fn builder_zero_values_take_defaults() {
    let s = RuntimeSpec::builder()
        .idle_timeout(0)
        .http_port(0)
        .shell_auth_policy("")
        .shell_max_session_minutes(0)
        .build();
    assert_eq!(s.idle_timeout_secs, 1800);
    assert_eq!(s.http_port, 8000);
    assert_eq!(s.shell_auth_policy, "password");
    assert_eq!(s.shell_max_session_minutes, 30);
}

#[test]
fn builder_negative_session_kept() {
    let s = RuntimeSpec::builder().shell_max_session_minutes(-5).build();
    assert_eq!(s.shell_max_session_minutes, -5);
}

#[test]
fn builder_mounts_keep_order() {
    let m1 = SecretMount { vault_id: 1, secret_path: "a".to_string(), mount_path: "/secrets/a".to_string() };
    let m2 = SecretMount { vault_id: 2, secret_path: "b".to_string(), mount_path: "/secrets/b".to_string() };
    let s = RuntimeSpec::builder().secret_mount(m1.clone()).secret_mount(m2.clone()).build();
    assert_eq!(s.secret_mounts, vec![m1, m2]);
}

#[test]
fn provider_failure_message() {
    match oneclaw_runtime::providers::provider_failure("Failed to stop", "no such container") {
        RuntimeError::Provider(m) => assert_eq!(m, "Failed to stop: no such container"),
        _ => panic!("expected a provider error"),
    }
}

#[test]
fn builder_env_read_after_write() {
    let s = RuntimeSpec::builder()
        .env("K", "1")
        .env("J", "2")
        .env("K", "3")
        .agent_id(1)
        .org_id(1)
        .build();
    assert_eq!(s.env_public.get("K"), Some("3".to_string()));
    assert_eq!(s.env_public.get("J"), Some("2".to_string()));
    assert_eq!(s.env_public.key_at(0), "K");
    assert_eq!(s.env_public.len(), 2);
}
