//! Cloud Run: runtimes as services that scale to zero.

use vstd::prelude::*;
use vstd::string::*;
use crate::handle::{RuntimeHandle, RuntimeHandleView};
use crate::ids::{hyphenated, is_v4, random_v4, uuid_text, lemma_hex_of_len};
use crate::providers::{public_url, public_url_for};
use crate::spec::{RuntimeSpec, RuntimeSpecView, opt_text};
use crate::string_map::StringMap;
use crate::text::{chars_of, push_char};
use crate::time::{Timestamp, now};
use crate::types::{ExecResult, LogEntry, LogOptions, Preset, ProviderKind, RuntimeError, RuntimeStatus};

verus! {

/// Cloud Run provider configuration.
#[derive(Clone, Debug, PartialEq, Eq)]
pub struct CloudRunConfig {
    /// GCP project ID.
    pub project_id: String,
    /// GCP region (e.g. us-central1).
    pub region: String,
    /// Base domain for exposed runtimes.
    pub base_domain: String,
}

pub struct CloudRunConfigView {
    pub project_id: Seq<char>,
    pub region: Seq<char>,
    pub base_domain: Seq<char>,
}

impl View for CloudRunConfig {
    type V = CloudRunConfigView;

    open spec fn view(&self) -> CloudRunConfigView {
        CloudRunConfigView {
            project_id: self.project_id@,
            region: self.region@,
            base_domain: self.base_domain@,
        }
    }
}

/// `rt-` and the first eight hexadecimal digits of the runtime id.
pub open spec fn service_name_text(id: u128) -> Seq<char> {
    "rt-"@ + hyphenated(id).take(8)
}

/// The handle of a service just created for `spec`.
pub open spec fn created_handle_view(
    config: CloudRunConfigView,
    spec: RuntimeSpecView,
    id: u128,
    created_at: Timestamp,
) -> RuntimeHandleView {
    RuntimeHandleView {
        id,
        name: spec.name,
        status: RuntimeStatus::Creating,
        provider: ProviderKind::CloudRun,
        preset: spec.preset,
        image: spec.image,
        agent_id: spec.agent_id,
        org_id: spec.org_id,
        public_url: public_url(spec.slug, spec.expose_http, config.base_domain),
        created_at,
        started_at: None,
        stopped_at: None,
        metadata: seq![
            ("service_name"@, service_name_text(id)),
            ("project_id"@, config.project_id),
            ("region"@, config.region),
        ],
        shell_access_enabled: spec.shell_access_enabled,
    }
}

/// The Cloud Run service name of a runtime.
pub fn service_name(id: u128) -> (n: String)
    ensures
        n@ == service_name_text(id),
{
    let text = uuid_text(id);
    let cs = chars_of(text.as_str());
    proof {
        lemma_hex_of_len(id as nat, 32);
    }
    let mut n = String::from_str("rt-");
    let mut i: usize = 0;
    while i < 8
        invariant
            i <= 8,
            cs@ == hyphenated(id),
            cs@.len() == 36,
            n@ =~= "rt-"@ + cs@.take(i as int),
        decreases 8 - i,
    {
        push_char(&mut n, cs[i]);
        i = i + 1;
        assert(n@ =~= "rt-"@ + cs@.take(i as int));
    }
    n
}

/// The handle of a service just created for `spec`: status `Creating`, a
/// public URL when exposed with a slug, and the service, project and region
/// as metadata.
pub fn created_handle(config: &CloudRunConfig, spec: RuntimeSpec, id: u128, created_at: Timestamp) -> (h: RuntimeHandle)
    ensures
        h@ == created_handle_view(config@, spec@, id, created_at),
        h.id == id,
        h.name@ == spec.name@,
        h.preset == spec.preset,
        h.image@ == spec.image@,
        h.agent_id == spec.agent_id,
        h.org_id == spec.org_id,
        h.status == RuntimeStatus::Creating,
        h.provider == ProviderKind::CloudRun,
        h.created_at == created_at,
{
    let public_url = public_url_for(&spec.slug, spec.expose_http, &config.base_domain);
    let svc = service_name(id);
    let k1 = String::from_str("service_name");
    let k2 = String::from_str("project_id");
    let k3 = String::from_str("region");
    proof {
        reveal_strlit("service_name");
        reveal_strlit("project_id");
        reveal_strlit("region");
        assert("service_name"@[0] != "project_id"@[0]);
        assert("service_name"@[0] != "region"@[0]);
        assert("project_id"@[0] != "region"@[0]);
    }
    let pairs = vec![(k1, svc), (k2, config.project_id.clone()), (k3, config.region.clone())];
    assert(pairs@.map_values(|e: (String, String)| (e.0@, e.1@)) =~= seq![
        ("service_name"@, service_name_text(id)),
        ("project_id"@, config.project_id@),
        ("region"@, config.region@),
    ]);
    let metadata = StringMap::from_pairs(pairs);
    let h = RuntimeHandle {
        id,
        name: spec.name,
        status: RuntimeStatus::Creating,
        provider: ProviderKind::CloudRun,
        preset: spec.preset,
        image: spec.image,
        agent_id: spec.agent_id,
        org_id: spec.org_id,
        public_url,
        created_at,
        started_at: None,
        stopped_at: None,
        metadata,
        shell_access_enabled: spec.shell_access_enabled,
    };
    assert(h@ =~= created_handle_view(config@, spec@, id, created_at));
    h
}

/// Creates the runtime: a fresh random id, and the handle of the new service
/// as of now.
pub fn create(config: &CloudRunConfig, spec: RuntimeSpec) -> (h: RuntimeHandle)
    ensures
        is_v4(h.id),
        h@ == created_handle_view(config@, spec@, h.id, h.created_at),
        h.name@ == spec.name@,
        h.preset == spec.preset,
        h.image@ == spec.image@,
        h.agent_id == spec.agent_id,
        h.org_id == spec.org_id,
{
    let id = random_v4();
    let created_at = now();
    created_handle(config, spec, id, created_at)
}

/// The Cloud Run API address of a runtime's service.
pub open spec fn service_url_text(config: CloudRunConfigView, id: u128) -> Seq<char> {
    "https://run.googleapis.com/v2/projects/"@ + config.project_id + "/locations/"@ + config.region
        + "/services/"@ + service_name_text(id)
}

/// The Cloud Run API address of a runtime's service.
pub fn service_url(config: &CloudRunConfig, id: u128) -> (u: String)
    ensures
        u@ == service_url_text(config@, id),
{
    let mut u = String::from_str("https://run.googleapis.com/v2/projects/");
    u.append(config.project_id.as_str());
    u.append("/locations/");
    u.append(config.region.as_str());
    u.append("/services/");
    let n = service_name(id);
    u.append(n.as_str());
    u
}

/// What the Cloud Run API answered when asked for a runtime's service.
pub enum ServiceLookup {
    /// The service exists; the state of its terminal `Ready` condition, where
    /// one is reported.
    Found { ready_state: Option<String> },
    /// There is no such service.
    Missing,
    /// The request failed otherwise; what went wrong.
    Failed(String),
}

/// A ready service runs, a failed one has failed, and one whose readiness is
/// pending, reconciling or not reported is still being created.
pub open spec fn status_of_ready_state(state: Option<Seq<char>>) -> RuntimeStatus {
    match state {
        Some(s) => if s == "CONDITION_SUCCEEDED"@ {
            RuntimeStatus::Running
        } else if s == "CONDITION_FAILED"@ {
            RuntimeStatus::Failed
        } else {
            RuntimeStatus::Creating
        },
        None => RuntimeStatus::Creating,
    }
}

/// The runtime status of a service's readiness state.
pub fn service_status(state: &Option<String>) -> (s: RuntimeStatus)
    ensures
        s == status_of_ready_state(opt_text(*state)),
{
    match state {
        Some(st) => {
            if *st == String::from_str("CONDITION_SUCCEEDED") {
                RuntimeStatus::Running
            } else if *st == String::from_str("CONDITION_FAILED") {
                RuntimeStatus::Failed
            } else {
                RuntimeStatus::Creating
            }
        },
        None => RuntimeStatus::Creating,
    }
}

/// The handle reported for an existing service: its name, status, project and
/// region; preset, image and ids are not known here.
pub open spec fn status_handle_view(
    config: CloudRunConfigView,
    id: u128,
    ready_state: Option<Seq<char>>,
    created_at: Timestamp,
) -> RuntimeHandleView {
    RuntimeHandleView {
        id,
        name: service_name_text(id),
        status: status_of_ready_state(ready_state),
        provider: ProviderKind::CloudRun,
        preset: Preset::Small,
        image: Seq::empty(),
        agent_id: 0,
        org_id: 0,
        public_url: None,
        created_at,
        started_at: None,
        stopped_at: None,
        metadata: seq![
            ("service_name"@, service_name_text(id)),
            ("project_id"@, config.project_id),
            ("region"@, config.region),
        ],
        shell_access_enabled: false,
    }
}

/// The status of a runtime from what the API answered: the handle of an
/// existing service, `NotFound` for a missing one, and a provider error
/// (`Failed to get service: ...`) when the request failed.
pub fn status_handle(config: &CloudRunConfig, id: u128, lookup: ServiceLookup, created_at: Timestamp) -> (r: Result<RuntimeHandle, RuntimeError>)
    ensures
        match lookup {
            ServiceLookup::Found { ready_state } => r matches Ok(h) && h@ == status_handle_view(
                config@,
                id,
                opt_text(ready_state),
                created_at,
            ),
            ServiceLookup::Missing => r matches Err(e) && e == RuntimeError::NotFound(id),
            ServiceLookup::Failed(d) => r matches Err(RuntimeError::Provider(m)) && m@
                == "Failed to get service: "@ + d@,
        },
{
    match lookup {
        ServiceLookup::Found { ready_state } => {
            let status = service_status(&ready_state);
            let svc = service_name(id);
            let name = svc.clone();
            let k1 = String::from_str("service_name");
            let k2 = String::from_str("project_id");
            let k3 = String::from_str("region");
            proof {
                reveal_strlit("service_name");
                reveal_strlit("project_id");
                reveal_strlit("region");
                assert("service_name"@[0] != "project_id"@[0]);
                assert("service_name"@[0] != "region"@[0]);
                assert("project_id"@[0] != "region"@[0]);
            }
            let pairs = vec![(k1, svc), (k2, config.project_id.clone()), (k3, config.region.clone())];
            assert(pairs@.map_values(|e: (String, String)| (e.0@, e.1@)) =~= seq![
                ("service_name"@, service_name_text(id)),
                ("project_id"@, config.project_id@),
                ("region"@, config.region@),
            ]);
            let metadata = StringMap::from_pairs(pairs);
            let h = RuntimeHandle {
                id,
                name,
                status,
                provider: ProviderKind::CloudRun,
                preset: Preset::Small,
                image: String::new(),
                agent_id: 0,
                org_id: 0,
                public_url: None,
                created_at,
                started_at: None,
                stopped_at: None,
                metadata,
                shell_access_enabled: false,
            };
            assert(h@ =~= status_handle_view(config@, id, opt_text(ready_state), created_at));
            Ok(h)
        },
        ServiceLookup::Missing => Err(RuntimeError::NotFound(id)),
        ServiceLookup::Failed(d) => {
            let mut m = String::from_str("Failed to get service: ");
            m.append(d.as_str());
            Err(RuntimeError::Provider(m))
        },
    }
}

/// The status of a runtime from what the API answered, as of now.
pub fn status_from_lookup(config: &CloudRunConfig, id: u128, lookup: ServiceLookup) -> (r: Result<RuntimeHandle, RuntimeError>)
    ensures
        match lookup {
            ServiceLookup::Found { ready_state } => r matches Ok(h) && h@ == status_handle_view(
                config@,
                id,
                opt_text(ready_state),
                h.created_at,
            ),
            ServiceLookup::Missing => r matches Err(e) && e == RuntimeError::NotFound(id),
            ServiceLookup::Failed(d) => r matches Err(RuntimeError::Provider(m)) && m@
                == "Failed to get service: "@ + d@,
        },
{
    let created_at = now();
    status_handle(config, id, lookup, created_at)
}

/// Stopping lets the service scale to zero; it always succeeds.
pub fn stop(id: u128) -> (r: Result<(), RuntimeError>)
    ensures
        r is Ok,
{
    Ok(())
}

/// Deleting the service always succeeds.
pub fn delete(id: u128) -> (r: Result<(), RuntimeError>)
    ensures
        r is Ok,
{
    Ok(())
}

/// Logs are not served here: they live in Cloud Logging.
pub fn logs(id: u128, opts: LogOptions) -> (r: Result<Vec<LogEntry>, RuntimeError>)
    ensures
        r matches Err(RuntimeError::Provider(m))
            && m@ == "Cloud Run logs are accessed via Cloud Logging. Use `gcloud logging read` or the dashboard."@,
{
    Err(RuntimeError::Provider(String::from_str("Cloud Run logs are accessed via Cloud Logging. Use `gcloud logging read` or the dashboard.")))
}

/// Exec is not supported: the sidecar's web terminal serves that purpose.
pub fn exec(id: u128, command: &Vec<String>) -> (r: Result<ExecResult, RuntimeError>)
    ensures
        r matches Err(RuntimeError::Provider(m))
            && m@ == "Cloud Run does not support exec. Use the sidecar web terminal endpoint."@,
{
    Err(RuntimeError::Provider(String::from_str("Cloud Run does not support exec. Use the sidecar web terminal endpoint.")))
}

} // verus!
