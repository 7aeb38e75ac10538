use oneclaw_runtime::providers::cloudrun::{self, CloudRunConfig, ServiceLookup};
use oneclaw_runtime::providers::gke::{self, GkeConfig};
use oneclaw_runtime::{LogOptions, LogStream, Preset, ProviderKind, RuntimeError, RuntimeSpec, RuntimeStatus, Timestamp};

const ID: u128 = 0x67e5504410b1426f9247bb680e5fe0c8;
const TEXT: &str = "67e55044-10b1-426f-9247-bb680e5fe0c8";

fn cloud_config() -> CloudRunConfig {
    CloudRunConfig {
        project_id: "proj".to_string(),
        region: "us-central1".to_string(),
        base_domain: "run.1claw.xyz".to_string(),
    }
}

fn at(secs: i64) -> Timestamp {
    Timestamp { secs, nanos: 0 }
}

#[test]
fn cloudrun_service_name_uses_first_eight_digits() {
    assert_eq!(cloudrun::service_name(ID), "rt-67e55044");
    assert_eq!(cloudrun::service_name(0), "rt-00000000");
    assert_eq!(cloudrun::service_name(u128::MAX), "rt-ffffffff");
}

#[test]
fn cloudrun_created_handle_exposed() {
    let spec = RuntimeSpec::builder()
        .name("agent")
        .preset(Preset::Large)
        .agent_id(1)
        .org_id(2)
        .expose_http(true)
        .slug("my-agent")
        .shell_access(true)
        .build();
    let h = cloudrun::created_handle(&cloud_config(), spec, ID, at(5));
    assert_eq!(h.id, ID);
    assert_eq!(h.name, "agent");
    assert_eq!(h.status, RuntimeStatus::Creating);
    assert_eq!(h.provider, ProviderKind::CloudRun);
    assert_eq!(h.preset, Preset::Large);
    assert_eq!(h.image, "python:3.12-slim");
    assert_eq!(h.agent_id, 1);
    assert_eq!(h.org_id, 2);
    assert_eq!(h.public_url, Some("https://my-agent.run.1claw.xyz".to_string()));
    assert_eq!(h.created_at, at(5));
    assert_eq!(h.started_at, None);
    assert_eq!(h.stopped_at, None);
    assert!(h.shell_access_enabled);
    assert_eq!(h.metadata.len(), 3);
    assert_eq!(h.metadata.get("service_name"), Some("rt-67e55044".to_string()));
    assert_eq!(h.metadata.get("project_id"), Some("proj".to_string()));
    assert_eq!(h.metadata.get("region"), Some("us-central1".to_string()));
}

#[test]
fn cloudrun_public_url_needs_exposure_and_slug() {
    let not_exposed = RuntimeSpec::builder().slug("s").agent_id(1).org_id(1).build();
    assert_eq!(cloudrun::created_handle(&cloud_config(), not_exposed, ID, at(0)).public_url, None);
    let no_slug = RuntimeSpec::builder().expose_http(true).agent_id(1).org_id(1).build();
    assert_eq!(cloudrun::created_handle(&cloud_config(), no_slug, ID, at(0)).public_url, None);
}

#[test]
fn cloudrun_create_uses_fresh_id() {
    let spec = RuntimeSpec::builder().agent_id(1).org_id(2).build();
    let h = cloudrun::create(&cloud_config(), spec);
    assert_eq!((h.id >> 76) & 0xf, 4);
    assert_eq!(h.metadata.get("service_name"), Some(cloudrun::service_name(h.id)));
}

#[test]
fn cloudrun_unsupported_operations() {
    assert!(cloudrun::stop(ID).is_ok());
    assert!(cloudrun::delete(ID).is_ok());
    match cloudrun::logs(ID, LogOptions::default()) {
        Err(RuntimeError::Provider(m)) => assert_eq!(
            m,
            "Cloud Run logs are accessed via Cloud Logging. Use `gcloud logging read` or the dashboard."
        ),
        _ => panic!("expected a provider error"),
    }
    match cloudrun::exec(ID, &vec!["ls".to_string()]) {
        Err(RuntimeError::Provider(m)) => {
            assert_eq!(m, "Cloud Run does not support exec. Use the sidecar web terminal endpoint.")
        }
        _ => panic!("expected a provider error"),
    }
}

#[test]
fn gke_config_default() {
    let c = GkeConfig::default();
    assert_eq!(c.namespace, "runtimes");
    assert_eq!(c.node_pool_label, "runtimes");
    assert_eq!(c.runtime_class, "gvisor");
    assert_eq!(c.sidecar_image, "ghcr.io/1clawai/1claw-shroud-sidecar:latest");
    assert_eq!(c.base_domain, "run.1claw.xyz");
}

#[test]
fn gke_names_and_limits() {
    assert_eq!(gke::deployment_name(ID), format!("runtime-{}", TEXT));
    assert_eq!(gke::pod_selector(ID), format!("app=runtime-{}", TEXT));
    assert_eq!(gke::resource_limits(&Preset::Small), ("500m".to_string(), "1024Mi".to_string()));
    assert_eq!(gke::resource_limits(&Preset::MediumCc), ("1000m".to_string(), "2048Mi".to_string()));
    assert_eq!(gke::resource_limits(&Preset::Large), ("2000m".to_string(), "4096Mi".to_string()));
}

#[test]
fn gke_runtime_env() {
    let spec = RuntimeSpec::builder().agent_id(ID).org_id(1).env("A", "1").env("B", "2").build();
    let env = gke::runtime_env(&spec, 0);
    assert_eq!(
        env,
        vec![
            ("A".to_string(), "1".to_string()),
            ("B".to_string(), "2".to_string()),
            ("ONECLAW_AGENT_ID".to_string(), TEXT.to_string()),
            ("ONECLAW_RUNTIME_ID".to_string(), "00000000-0000-0000-0000-000000000000".to_string()),
        ]
    );
}

#[test]
fn gke_created_handle() {
    let spec = RuntimeSpec::builder()
        .preset(Preset::SmallCc)
        .agent_id(1)
        .org_id(2)
        .expose_http(true)
        .slug("s1")
        .build();
    let h = gke::created_handle(&GkeConfig::default(), spec, ID, at(9));
    assert_eq!(h.status, RuntimeStatus::Creating);
    assert_eq!(h.provider, ProviderKind::Gke);
    assert_eq!(h.public_url, Some("https://s1.run.1claw.xyz".to_string()));
    assert_eq!(h.metadata.len(), 5);
    assert_eq!(h.metadata.get("deployment"), Some(format!("runtime-{}", TEXT)));
    assert_eq!(h.metadata.get("namespace"), Some("runtimes".to_string()));
    assert_eq!(h.metadata.get("runtime_class"), Some("gvisor".to_string()));
    assert_eq!(h.metadata.get("cpu_limit"), Some("500m".to_string()));
    assert_eq!(h.metadata.get("mem_limit"), Some("1024Mi".to_string()));
}

#[test]
fn gke_create_env_and_handle_agree() {
    let spec = RuntimeSpec::builder().agent_id(3).org_id(4).build();
    let c = gke::create(&GkeConfig::default(), spec);
    assert_eq!(c.env.len(), 2);
    assert_eq!(c.env[1].1, c.handle.metadata.get("deployment").unwrap()["runtime-".len()..]);
}

#[test]
fn gke_replica_status() {
    assert_eq!(gke::replica_status(Some(3), Some(0)), RuntimeStatus::Stopped);
    assert_eq!(gke::replica_status(None, None), RuntimeStatus::Stopped);
    assert_eq!(gke::replica_status(Some(1), Some(1)), RuntimeStatus::Running);
    assert_eq!(gke::replica_status(Some(0), Some(1)), RuntimeStatus::Creating);
    assert_eq!(gke::replica_status(None, Some(2)), RuntimeStatus::Creating);
}

#[test]
fn gke_status_handle() {
    let h = gke::status_handle(ID, Some(3), Some(3), at(1));
    assert_eq!(h.name, format!("runtime-{}", TEXT));
    assert_eq!(h.status, RuntimeStatus::Running);
    assert_eq!(h.preset, Preset::Small);
    assert_eq!(h.image, "");
    assert_eq!(h.agent_id, 0);
    assert_eq!(h.metadata.get("ready_replicas"), Some("3".to_string()));
    let h = gke::status_handle(ID, None, Some(1), at(1));
    assert_eq!(h.metadata.get("ready_replicas"), Some("0".to_string()));
    let h = gke::status_handle(ID, Some(-12), Some(1), at(1));
    assert_eq!(h.metadata.get("ready_replicas"), Some("-12".to_string()));
    assert_eq!(h.status, RuntimeStatus::Creating);
}

#[test]
fn gke_select_pod_name() {
    assert!(matches!(gke::select_pod_name(ID, &vec![]), Err(RuntimeError::NotFound(id)) if id == ID));
    match gke::select_pod_name(ID, &vec![None, Some("b".to_string())]) {
        Err(RuntimeError::Provider(m)) => assert_eq!(m, "Pod has no name"),
        _ => panic!("expected a provider error"),
    }
    assert_eq!(gke::select_pod_name(ID, &vec![Some("a".to_string()), None]).unwrap(), "a");
}

#[test]
fn gke_log_lines() {
    let opts = LogOptions { lines: 42, since: None, include_sidecar: false };
    assert_eq!(gke::log_tail_lines(&opts), 42);
    let r = gke::plan_pod_logs(&opts);
    assert_eq!(r.tail_lines, 42);
    assert!(r.timestamps);
    assert_eq!(r.since_time, None);
    let since = Timestamp { secs: 1704067200, nanos: 7 };
    let r = gke::plan_pod_logs(&LogOptions { lines: 3, since: Some(since), include_sidecar: true });
    assert_eq!(r.tail_lines, 3);
    assert_eq!(r.since_time, Some(since));
    let entries = gke::log_entries("foo\r\nbar\n\nbaz\r");
    let messages: Vec<&str> = entries.iter().map(|e| e.message.as_str()).collect();
    assert_eq!(messages, vec!["foo", "bar", "", "baz\r"]);
    assert!(entries.iter().all(|e| e.stream == LogStream::Stdout));
    assert!(gke::log_entries("").is_empty());
    let one: Vec<String> = gke::log_entries("only\n").into_iter().map(|e| e.message).collect();
    assert_eq!(one, vec!["only".to_string()]);
    let text = "a\nb\r\n\r\nc";
    let ours: Vec<String> = gke::log_entries(text).into_iter().map(|e| e.message).collect();
    let std_lines: Vec<String> = text.lines().map(|l| l.to_string()).collect();
    assert_eq!(ours, std_lines);
}

#[test]
fn gke_exec_disabled() {
    match gke::exec(ID, &vec![]) {
        Err(RuntimeError::Provider(m)) => {
            assert_eq!(m, "Direct K8s exec is disabled. Use the sidecar web terminal endpoint.")
        }
        _ => panic!("expected a provider error"),
    }
}

#[test]
fn gke_lines_agree_with_std_lines() {
    let samples = [
        "", "\n", "\n\n", "\r", "\r\n", "\r\n\r", "x\r\r\n", "a\nb", "a\nb\n", "a\r\nb\r\n",
        "\r\r\n\n", "tail\r", "one\n\rtwo", "é\nü\r\n", "\n\nend",
    ];
    for text in samples {
        let ours: Vec<String> = gke::log_entries(text).into_iter().map(|e| e.message).collect();
        let std_lines: Vec<String> = text.lines().map(|l| l.to_string()).collect();
        assert_eq!(ours, std_lines, "text {:?}", text);
    }
}

#[test]
fn cloudrun_service_url() {
    assert_eq!(
        cloudrun::service_url(&cloud_config(), ID),
        "https://run.googleapis.com/v2/projects/proj/locations/us-central1/services/rt-67e55044"
    );
}

#[test]
fn cloudrun_ready_states() {
    assert_eq!(cloudrun::service_status(&Some("CONDITION_SUCCEEDED".to_string())), RuntimeStatus::Running);
    assert_eq!(cloudrun::service_status(&Some("CONDITION_FAILED".to_string())), RuntimeStatus::Failed);
    assert_eq!(cloudrun::service_status(&Some("CONDITION_PENDING".to_string())), RuntimeStatus::Creating);
    assert_eq!(cloudrun::service_status(&Some("CONDITION_RECONCILING".to_string())), RuntimeStatus::Creating);
    assert_eq!(cloudrun::service_status(&None), RuntimeStatus::Creating);
}

#[test]
fn cloudrun_status_of_existing_service() {
    let found = ServiceLookup::Found { ready_state: Some("CONDITION_SUCCEEDED".to_string()) };
    let h = cloudrun::status_handle(&cloud_config(), ID, found, at(4)).ok().unwrap();
    assert_eq!(h.id, ID);
    assert_eq!(h.name, "rt-67e55044");
    assert_eq!(h.status, RuntimeStatus::Running);
    assert_eq!(h.provider, ProviderKind::CloudRun);
    assert_eq!(h.preset, Preset::Small);
    assert_eq!(h.image, "");
    assert_eq!(h.public_url, None);
    assert_eq!(h.created_at, at(4));
    assert_eq!(h.metadata.get("service_name"), Some("rt-67e55044".to_string()));
    assert_eq!(h.metadata.get("project_id"), Some("proj".to_string()));
    assert_eq!(h.metadata.get("region"), Some("us-central1".to_string()));
}

#[test]
fn cloudrun_status_missing_or_failed() {
    assert!(matches!(
        cloudrun::status_handle(&cloud_config(), ID, ServiceLookup::Missing, at(0)),
        Err(RuntimeError::NotFound(id)) if id == ID
    ));
    match cloudrun::status_from_lookup(&cloud_config(), ID, ServiceLookup::Failed("HTTP 403".to_string())) {
        Err(RuntimeError::Provider(m)) => assert_eq!(m, "Failed to get service: HTTP 403"),
        _ => panic!("expected a provider error"),
    }
    let h = cloudrun::status_from_lookup(&cloud_config(), ID, ServiceLookup::Found { ready_state: None })
        .ok()
        .unwrap();
    assert_eq!(h.status, RuntimeStatus::Creating);
    assert!(h.created_at.secs >= 0 && h.created_at.nanos < 1_000_000_000);
}
