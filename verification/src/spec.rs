//! The specification of a runtime to create, and its builder.

use vstd::prelude::*;
use vstd::string::*;
use crate::ids::{is_v4, random_v4};
use crate::string_map::{StringMap, TextPairs, keys_distinct, lookup, with_entry};
use crate::types::{
    Preset, InboundAuth, idle_timeout_default, http_port_default, shell_auth_policy_default,
    shell_max_session_minutes_default, default_idle_timeout, default_http_port,
    default_shell_auth_policy, default_shell_max_session_minutes,
};

verus! {

/// The text of an optional string.
pub open spec fn opt_text(o: Option<String>) -> Option<Seq<char>> {
    match o {
        Some(s) => Some(s@),
        None => None,
    }
}

/// A secret to mount as a file inside the container.
#[derive(Clone, Debug, PartialEq, Eq)]
pub struct SecretMount {
    pub vault_id: u128,
    pub secret_path: String,
    /// Filesystem path inside the container (e.g. `/secrets/api-key`).
    pub mount_path: String,
}

pub struct SecretMountView {
    pub vault_id: u128,
    pub secret_path: Seq<char>,
    pub mount_path: Seq<char>,
}

impl View for SecretMount {
    type V = SecretMountView;

    open spec fn view(&self) -> SecretMountView {
        SecretMountView {
            vault_id: self.vault_id,
            secret_path: self.secret_path@,
            mount_path: self.mount_path@,
        }
    }
}

/// Specification for creating a new runtime.
#[derive(Clone, Debug)]
pub struct RuntimeSpec {
    pub name: String,
    pub image: String,
    pub preset: Preset,
    pub agent_id: u128,
    pub org_id: u128,
    /// Public (non-secret) environment variables.
    pub env_public: StringMap,
    /// Seconds of inactivity before auto-stop.
    pub idle_timeout_secs: u32,
    /// Whether to expose an HTTP endpoint.
    pub expose_http: bool,
    /// Port the user container listens on.
    pub http_port: u16,
    /// Public slug for `{slug}.run.1claw.xyz`.
    pub slug: Option<String>,
    /// Inbound authentication mode when exposed.
    pub inbound_auth: InboundAuth,
    /// Secret paths to mount as tmpfs files (fetched by sidecar).
    pub secret_mounts: Vec<SecretMount>,
    /// Sidecar image override (defaults to latest stable).
    pub sidecar_image: Option<String>,
    /// Whether interactive shell access is enabled for this runtime.
    pub shell_access_enabled: bool,
    /// Authentication policy for shell sessions (`password`, `totp`, `passkey`).
    pub shell_auth_policy: String,
    /// Maximum shell session duration in minutes.
    pub shell_max_session_minutes: i32,
}

#[verifier::ext_equal]
pub struct RuntimeSpecView {
    pub name: Seq<char>,
    pub image: Seq<char>,
    pub preset: Preset,
    pub agent_id: u128,
    pub org_id: u128,
    pub env_public: TextPairs,
    pub idle_timeout_secs: u32,
    pub expose_http: bool,
    pub http_port: u16,
    pub slug: Option<Seq<char>>,
    pub inbound_auth: InboundAuth,
    pub secret_mounts: Seq<SecretMountView>,
    pub sidecar_image: Option<Seq<char>>,
    pub shell_access_enabled: bool,
    pub shell_auth_policy: Seq<char>,
    pub shell_max_session_minutes: i32,
}

impl View for RuntimeSpec {
    type V = RuntimeSpecView;

    open spec fn view(&self) -> RuntimeSpecView {
        RuntimeSpecView {
            name: self.name@,
            image: self.image@,
            preset: self.preset,
            agent_id: self.agent_id,
            org_id: self.org_id,
            env_public: self.env_public@,
            idle_timeout_secs: self.idle_timeout_secs,
            expose_http: self.expose_http,
            http_port: self.http_port,
            slug: opt_text(self.slug),
            inbound_auth: self.inbound_auth,
            secret_mounts: self.secret_mounts@.map_values(|m: SecretMount| m@),
            sidecar_image: opt_text(self.sidecar_image),
            shell_access_enabled: self.shell_access_enabled,
            shell_auth_policy: self.shell_auth_policy@,
            shell_max_session_minutes: self.shell_max_session_minutes,
        }
    }
}

impl RuntimeSpec {
    /// A builder with nothing set.
    pub fn builder() -> (b: RuntimeSpecBuilder)
        ensures
            b@ == RuntimeSpecBuilderView::unset(),
    {
        RuntimeSpecBuilder::default()
    }
}

/// Builder for `RuntimeSpec`.
#[derive(Debug)]
pub struct RuntimeSpecBuilder {
    name: Option<String>,
    image: Option<String>,
    preset: Option<Preset>,
    agent_id: Option<u128>,
    org_id: Option<u128>,
    env_public: StringMap,
    idle_timeout_secs: u32,
    expose_http: bool,
    http_port: u16,
    slug: Option<String>,
    inbound_auth: InboundAuth,
    secret_mounts: Vec<SecretMount>,
    sidecar_image: Option<String>,
    shell_access_enabled: bool,
    shell_auth_policy: String,
    shell_max_session_minutes: i32,
}

#[verifier::ext_equal]
pub struct RuntimeSpecBuilderView {
    pub name: Option<Seq<char>>,
    pub image: Option<Seq<char>>,
    pub preset: Option<Preset>,
    pub agent_id: Option<u128>,
    pub org_id: Option<u128>,
    pub env_public: TextPairs,
    pub idle_timeout_secs: u32,
    pub expose_http: bool,
    pub http_port: u16,
    pub slug: Option<Seq<char>>,
    pub inbound_auth: InboundAuth,
    pub secret_mounts: Seq<SecretMountView>,
    pub sidecar_image: Option<Seq<char>>,
    pub shell_access_enabled: bool,
    pub shell_auth_policy: Seq<char>,
    pub shell_max_session_minutes: i32,
}

impl RuntimeSpecBuilderView {
    /// Nothing set: every option absent, every number zero, every flag false,
    /// every text and list empty, API-key inbound auth.
    pub open spec fn unset() -> RuntimeSpecBuilderView {
        RuntimeSpecBuilderView {
            name: None,
            image: None,
            preset: None,
            agent_id: None,
            org_id: None,
            env_public: Seq::empty(),
            idle_timeout_secs: 0,
            expose_http: false,
            http_port: 0,
            slug: None,
            inbound_auth: InboundAuth::ApiKey,
            secret_mounts: Seq::empty(),
            sidecar_image: None,
            shell_access_enabled: false,
            shell_auth_policy: Seq::empty(),
            shell_max_session_minutes: 0,
        }
    }

    /// The spec built from these settings, with `fresh_agent` and `fresh_org`
    /// standing for the ids generated where none was set.
    pub open spec fn built(self, fresh_agent: u128, fresh_org: u128) -> RuntimeSpecView {
        RuntimeSpecView {
            name: match self.name {
                Some(n) => n,
                None => "runtime"@,
            },
            image: match self.image {
                Some(i) => i,
                None => "python:3.12-slim"@,
            },
            preset: match self.preset {
                Some(p) => p,
                None => Preset::Small,
            },
            agent_id: match self.agent_id {
                Some(a) => a,
                None => fresh_agent,
            },
            org_id: match self.org_id {
                Some(o) => o,
                None => fresh_org,
            },
            env_public: self.env_public,
            idle_timeout_secs: if self.idle_timeout_secs == 0 {
                idle_timeout_default()
            } else {
                self.idle_timeout_secs
            },
            expose_http: self.expose_http,
            http_port: if self.http_port == 0 {
                http_port_default()
            } else {
                self.http_port
            },
            slug: self.slug,
            inbound_auth: self.inbound_auth,
            secret_mounts: self.secret_mounts,
            sidecar_image: self.sidecar_image,
            shell_access_enabled: self.shell_access_enabled,
            shell_auth_policy: if self.shell_auth_policy.len() == 0 {
                shell_auth_policy_default()
            } else {
                self.shell_auth_policy
            },
            shell_max_session_minutes: if self.shell_max_session_minutes == 0 {
                shell_max_session_minutes_default()
            } else {
                self.shell_max_session_minutes
            },
        }
    }
}

impl RuntimeSpecBuilder {
    pub closed spec fn spec_view(&self) -> RuntimeSpecBuilderView {
        RuntimeSpecBuilderView {
            name: opt_text(self.name),
            image: opt_text(self.image),
            preset: self.preset,
            agent_id: self.agent_id,
            org_id: self.org_id,
            env_public: self.env_public@,
            idle_timeout_secs: self.idle_timeout_secs,
            expose_http: self.expose_http,
            http_port: self.http_port,
            slug: opt_text(self.slug),
            inbound_auth: self.inbound_auth,
            secret_mounts: self.secret_mounts@.map_values(|m: SecretMount| m@),
            sidecar_image: opt_text(self.sidecar_image),
            shell_access_enabled: self.shell_access_enabled,
            shell_auth_policy: self.shell_auth_policy@,
            shell_max_session_minutes: self.shell_max_session_minutes,
        }
    }
}

impl View for RuntimeSpecBuilder {
    type V = RuntimeSpecBuilderView;

    open spec fn view(&self) -> RuntimeSpecBuilderView {
        self.spec_view()
    }
}

impl Default for RuntimeSpecBuilder {
    fn default() -> (b: Self)
        ensures
            b@ == RuntimeSpecBuilderView::unset(),
    {
        let b = RuntimeSpecBuilder {
            name: None,
            image: None,
            preset: None,
            agent_id: None,
            org_id: None,
            env_public: StringMap::new(),
            idle_timeout_secs: 0,
            expose_http: false,
            http_port: 0,
            slug: None,
            inbound_auth: InboundAuth::ApiKey,
            secret_mounts: Vec::new(),
            sidecar_image: None,
            shell_access_enabled: false,
            shell_auth_policy: String::new(),
            shell_max_session_minutes: 0,
        };
        assert(b@ =~= RuntimeSpecBuilderView::unset());
        b
    }
}

impl RuntimeSpecBuilder {
    pub fn name(self, name: &str) -> (b: Self)
        ensures
            b@ == (RuntimeSpecBuilderView { name: Some(name@), ..self@ }),
    {
        let mut b = self;
        b.name = Some(String::from_str(name));
        assert(b@ =~= (RuntimeSpecBuilderView { name: Some(name@), ..self@ }));
        b
    }

    pub fn image(self, image: &str) -> (b: Self)
        ensures
            b@ == (RuntimeSpecBuilderView { image: Some(image@), ..self@ }),
    {
        let mut b = self;
        b.image = Some(String::from_str(image));
        assert(b@ =~= (RuntimeSpecBuilderView { image: Some(image@), ..self@ }));
        b
    }

    pub fn preset(self, preset: Preset) -> (b: Self)
        ensures
            b@ == (RuntimeSpecBuilderView { preset: Some(preset), ..self@ }),
    {
        let mut b = self;
        b.preset = Some(preset);
        assert(b@ =~= (RuntimeSpecBuilderView { preset: Some(preset), ..self@ }));
        b
    }

    pub fn agent_id(self, id: u128) -> (b: Self)
        ensures
            b@ == (RuntimeSpecBuilderView { agent_id: Some(id), ..self@ }),
    {
        let mut b = self;
        b.agent_id = Some(id);
        assert(b@ =~= (RuntimeSpecBuilderView { agent_id: Some(id), ..self@ }));
        b
    }

    pub fn org_id(self, id: u128) -> (b: Self)
        ensures
            b@ == (RuntimeSpecBuilderView { org_id: Some(id), ..self@ }),
    {
        let mut b = self;
        b.org_id = Some(id);
        assert(b@ =~= (RuntimeSpecBuilderView { org_id: Some(id), ..self@ }));
        b
    }

    /// Sets a public environment variable; a later value for the same key
    /// replaces an earlier one.
    pub fn env(self, key: &str, value: &str) -> (b: Self)
        ensures
            b@ == (RuntimeSpecBuilderView {
                env_public: with_entry(self@.env_public, key@, value@),
                ..self@
            }),
            keys_distinct(self@.env_public),
            keys_distinct(b@.env_public),
            lookup(b@.env_public, key@) == Some(value@),
            forall|k: Seq<char>| k != key@ ==> #[trigger] lookup(b@.env_public, k) == lookup(
                self@.env_public,
                k,
            ),
    {
        let mut b = self;
        b.env_public.insert(String::from_str(key), String::from_str(value));
        assert(b@ =~= (RuntimeSpecBuilderView {
            env_public: with_entry(self@.env_public, key@, value@),
            ..self@
        }));
        b
    }

    pub fn idle_timeout(self, secs: u32) -> (b: Self)
        ensures
            b@ == (RuntimeSpecBuilderView { idle_timeout_secs: secs, ..self@ }),
    {
        let mut b = self;
        b.idle_timeout_secs = secs;
        assert(b@ =~= (RuntimeSpecBuilderView { idle_timeout_secs: secs, ..self@ }));
        b
    }

    pub fn expose_http(self, expose: bool) -> (b: Self)
        ensures
            b@ == (RuntimeSpecBuilderView { expose_http: expose, ..self@ }),
    {
        let mut b = self;
        b.expose_http = expose;
        assert(b@ =~= (RuntimeSpecBuilderView { expose_http: expose, ..self@ }));
        b
    }

    pub fn http_port(self, port: u16) -> (b: Self)
        ensures
            b@ == (RuntimeSpecBuilderView { http_port: port, ..self@ }),
    {
        let mut b = self;
        b.http_port = port;
        assert(b@ =~= (RuntimeSpecBuilderView { http_port: port, ..self@ }));
        b
    }

    pub fn slug(self, slug: &str) -> (b: Self)
        ensures
            b@ == (RuntimeSpecBuilderView { slug: Some(slug@), ..self@ }),
    {
        let mut b = self;
        b.slug = Some(String::from_str(slug));
        assert(b@ =~= (RuntimeSpecBuilderView { slug: Some(slug@), ..self@ }));
        b
    }

    pub fn inbound_auth(self, auth: InboundAuth) -> (b: Self)
        ensures
            b@ == (RuntimeSpecBuilderView { inbound_auth: auth, ..self@ }),
    {
        let mut b = self;
        b.inbound_auth = auth;
        assert(b@ =~= (RuntimeSpecBuilderView { inbound_auth: auth, ..self@ }));
        b
    }

    /// Adds a secret mount after those already added.
    pub fn secret_mount(self, mount: SecretMount) -> (b: Self)
        ensures
            b@ == (RuntimeSpecBuilderView {
                secret_mounts: self@.secret_mounts.push(mount@),
                ..self@
            }),
    {
        let ghost m = mount@;
        let mut b = self;
        b.secret_mounts.push(mount);
        assert(b@.secret_mounts =~= self@.secret_mounts.push(m));
        assert(b@ =~= (RuntimeSpecBuilderView {
            secret_mounts: self@.secret_mounts.push(m),
            ..self@
        }));
        b
    }

    pub fn sidecar_image(self, image: &str) -> (b: Self)
        ensures
            b@ == (RuntimeSpecBuilderView { sidecar_image: Some(image@), ..self@ }),
    {
        let mut b = self;
        b.sidecar_image = Some(String::from_str(image));
        assert(b@ =~= (RuntimeSpecBuilderView { sidecar_image: Some(image@), ..self@ }));
        b
    }

    pub fn shell_access(self, enabled: bool) -> (b: Self)
        ensures
            b@ == (RuntimeSpecBuilderView { shell_access_enabled: enabled, ..self@ }),
    {
        let mut b = self;
        b.shell_access_enabled = enabled;
        assert(b@ =~= (RuntimeSpecBuilderView { shell_access_enabled: enabled, ..self@ }));
        b
    }

    pub fn shell_auth_policy(self, policy: &str) -> (b: Self)
        ensures
            b@ == (RuntimeSpecBuilderView { shell_auth_policy: policy@, ..self@ }),
    {
        let mut b = self;
        b.shell_auth_policy = String::from_str(policy);
        assert(b@ =~= (RuntimeSpecBuilderView { shell_auth_policy: policy@, ..self@ }));
        b
    }

    pub fn shell_max_session_minutes(self, minutes: i32) -> (b: Self)
        ensures
            b@ == (RuntimeSpecBuilderView { shell_max_session_minutes: minutes, ..self@ }),
    {
        let mut b = self;
        b.shell_max_session_minutes = minutes;
        assert(b@ =~= (RuntimeSpecBuilderView { shell_max_session_minutes: minutes, ..self@ }));
        b
    }

    /// The spec: each setting that was given, and the default of each that was
    /// not (a zero number or an empty policy counts as not given). An agent or
    /// organization id that was not given is a fresh random (version 4) id.
    pub fn build(self) -> (s: RuntimeSpec)
        ensures
            s@ == self@.built(s.agent_id, s.org_id),
            self@.agent_id is None ==> is_v4(s.agent_id),
            self@.org_id is None ==> is_v4(s.org_id),
            self@.agent_id matches Some(a) ==> s.agent_id == a,
            self@.org_id matches Some(o) ==> s.org_id == o,
            self@.http_port != 0 ==> s.http_port == self@.http_port,
            self@.http_port == 0 ==> s.http_port == 8000,
            self@.idle_timeout_secs != 0 ==> s.idle_timeout_secs == self@.idle_timeout_secs,
            self@.idle_timeout_secs == 0 ==> s.idle_timeout_secs == 1800,
            self@.shell_max_session_minutes != 0 ==> s.shell_max_session_minutes
                == self@.shell_max_session_minutes,
            self@.shell_max_session_minutes == 0 ==> s.shell_max_session_minutes == 30,
            self@.shell_auth_policy.len() != 0 ==> s.shell_auth_policy@ == self@.shell_auth_policy,
            self@.shell_auth_policy.len() == 0 ==> s.shell_auth_policy@ == "password"@,
            self@.name matches Some(n) ==> s.name@ == n,
            self@.image matches Some(i) ==> s.image@ == i,
            self@.preset matches Some(p) ==> s.preset == p,
    {
        let ghost v = self@;
        let agent_id = match self.agent_id {
            Some(a) => a,
            None => random_v4(),
        };
        let org_id = match self.org_id {
            Some(o) => o,
            None => random_v4(),
        };
        let name = match self.name {
            Some(n) => n,
            None => String::from_str("runtime"),
        };
        let image = match self.image {
            Some(i) => i,
            None => String::from_str("python:3.12-slim"),
        };
        let preset = match self.preset {
            Some(p) => p,
            None => Preset::Small,
        };
        let idle_timeout_secs = if self.idle_timeout_secs == 0 {
            default_idle_timeout()
        } else {
            self.idle_timeout_secs
        };
        let http_port = if self.http_port == 0 {
            default_http_port()
        } else {
            self.http_port
        };
        let shell_auth_policy = if self.shell_auth_policy.as_str().is_empty() {
            default_shell_auth_policy()
        } else {
            self.shell_auth_policy
        };
        let shell_max_session_minutes = if self.shell_max_session_minutes == 0 {
            default_shell_max_session_minutes()
        } else {
            self.shell_max_session_minutes
        };
        let s = RuntimeSpec {
            name,
            image,
            preset,
            agent_id,
            org_id,
            env_public: self.env_public,
            idle_timeout_secs,
            expose_http: self.expose_http,
            http_port,
            slug: self.slug,
            inbound_auth: self.inbound_auth,
            secret_mounts: self.secret_mounts,
            sidecar_image: self.sidecar_image,
            shell_access_enabled: self.shell_access_enabled,
            shell_auth_policy,
            shell_max_session_minutes,
        };
        assert(s@ =~= v.built(agent_id, org_id));
        s
    }
}

/// What was given is kept: a nonzero port, idle timeout or session limit, a
/// nonempty shell policy, and a given name, image, preset or id come through
/// unchanged; only a zero, empty or absent setting takes its default.
pub proof fn lemma_build_keeps_given(b: RuntimeSpecBuilderView, fresh_agent: u128, fresh_org: u128)
    ensures
        ({
            let s = b.built(fresh_agent, fresh_org);
            &&& (b.http_port != 0 ==> s.http_port == b.http_port)
            &&& (b.http_port == 0 ==> s.http_port == 8000)
            &&& (b.idle_timeout_secs != 0 ==> s.idle_timeout_secs == b.idle_timeout_secs)
            &&& (b.idle_timeout_secs == 0 ==> s.idle_timeout_secs == 1800)
            &&& (b.shell_max_session_minutes != 0 ==> s.shell_max_session_minutes == b.shell_max_session_minutes)
            &&& (b.shell_max_session_minutes == 0 ==> s.shell_max_session_minutes == 30)
            &&& (b.shell_auth_policy.len() != 0 ==> s.shell_auth_policy == b.shell_auth_policy)
            &&& (b.shell_auth_policy.len() == 0 ==> s.shell_auth_policy == "password"@)
            &&& (b.name matches Some(n) ==> s.name == n)
            &&& (b.image matches Some(i) ==> s.image == i)
            &&& (b.preset matches Some(p) ==> s.preset == p)
            &&& (b.agent_id matches Some(a) ==> s.agent_id == a)
            &&& (b.org_id matches Some(o) ==> s.org_id == o)
            &&& s.env_public == b.env_public
            &&& s.slug == b.slug
            &&& s.expose_http == b.expose_http
            &&& s.inbound_auth == b.inbound_auth
            &&& s.secret_mounts == b.secret_mounts
            &&& s.sidecar_image == b.sidecar_image
            &&& s.shell_access_enabled == b.shell_access_enabled
        }),
{
}

/// A spec built with nothing set carries the same defaults as a spec read with
/// those fields left out: idle timeout, HTTP port, inbound auth, shell policy
/// and shell session limit.
pub proof fn lemma_unset_builder_defaults(fresh_agent: u128, fresh_org: u128)
    ensures
        ({
            let s = RuntimeSpecBuilderView::unset().built(fresh_agent, fresh_org);
            &&& s.idle_timeout_secs == idle_timeout_default()
            &&& s.http_port == http_port_default()
            &&& s.inbound_auth == InboundAuth::ApiKey
            &&& s.shell_auth_policy == shell_auth_policy_default()
            &&& s.shell_max_session_minutes == shell_max_session_minutes_default()
            &&& s.name == "runtime"@
            &&& s.image == "python:3.12-slim"@
            &&& s.preset == Preset::Small
            &&& !s.expose_http
            &&& s.env_public.len() == 0
            &&& s.secret_mounts.len() == 0
        }),
{
}

/// Whatever was set, a built spec never holds a zero idle timeout, port or
/// session limit, nor an empty shell policy.
pub proof fn lemma_built_never_unset(b: RuntimeSpecBuilderView, fresh_agent: u128, fresh_org: u128)
    ensures
        ({
            let s = b.built(fresh_agent, fresh_org);
            &&& s.idle_timeout_secs != 0
            &&& s.http_port != 0
            &&& s.shell_max_session_minutes != 0
            &&& s.shell_auth_policy.len() != 0
        }),
{
    reveal_strlit("password");
}

} // verus!
