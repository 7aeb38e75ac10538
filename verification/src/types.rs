//! Presets, statuses, log and exec records, errors and the serde defaults.

use vstd::prelude::*;
use vstd::string::*;
use crate::ids::{hyphenated, uuid_text};
use crate::time::Timestamp;

verus! {

/// Runtime compute preset: determines CPU, memory, and cost tier.
#[derive(Clone, Copy, Debug, PartialEq, Eq, Structural)]
pub enum Preset {
    Small,
    Medium,
    Large,
    /// Confidential Compute (AMD SEV-SNP): Business+ tier only.
    SmallCc,
    MediumCc,
    LargeCc,
}

impl Preset {
    /// Memory in MiB.
    pub open spec fn spec_memory_mb(self) -> u32 {
        match self {
            Preset::Small | Preset::SmallCc => 1024,
            Preset::Medium | Preset::MediumCc => 2048,
            Preset::Large | Preset::LargeCc => 4096,
        }
    }

    /// CPU in thousandths of a virtual CPU (half a vCPU is 500).
    pub open spec fn spec_vcpu_millis(self) -> u32 {
        match self {
            Preset::Small | Preset::SmallCc => 500,
            Preset::Medium | Preset::MediumCc => 1000,
            Preset::Large | Preset::LargeCc => 2000,
        }
    }

    pub open spec fn spec_is_confidential(self) -> bool {
        self is SmallCc || self is MediumCc || self is LargeCc
    }

    /// The size without confidential compute.
    pub open spec fn base_size(self) -> Preset {
        match self {
            Preset::Small | Preset::SmallCc => Preset::Small,
            Preset::Medium | Preset::MediumCc => Preset::Medium,
            Preset::Large | Preset::LargeCc => Preset::Large,
        }
    }

    /// Memory limit in MiB.
    pub fn memory_mb(&self) -> (m: u32)
        ensures
            m == self.spec_memory_mb(),
    {
        match self {
            Preset::Small | Preset::SmallCc => 1024,
            Preset::Medium | Preset::MediumCc => 2048,
            Preset::Large | Preset::LargeCc => 4096,
        }
    }

    /// CPU limit in thousandths of a vCPU: 500, 1000 or 2000.
    pub fn vcpu_millis(&self) -> (m: u32)
        ensures
            m == self.spec_vcpu_millis(),
    {
        match self {
            Preset::Small | Preset::SmallCc => 500,
            Preset::Medium | Preset::MediumCc => 1000,
            Preset::Large | Preset::LargeCc => 2000,
        }
    }

    /// Whether the preset runs on confidential compute.
    pub fn is_confidential(&self) -> (b: bool)
        ensures
            b == self.spec_is_confidential(),
    {
        match self {
            Preset::SmallCc | Preset::MediumCc | Preset::LargeCc => true,
            _ => false,
        }
    }
}

/// A confidential preset has exactly the CPU and memory of its base size, and
/// the base size is not confidential.
pub proof fn lemma_confidential_same_resources(p: Preset)
    ensures
        p.base_size().spec_memory_mb() == p.spec_memory_mb(),
        p.base_size().spec_vcpu_millis() == p.spec_vcpu_millis(),
        !p.base_size().spec_is_confidential(),
        p.spec_is_confidential() <==> p.base_size() != p,
{
}

/// Infrastructure provider backend.
#[derive(Clone, Copy, Debug, PartialEq, Eq, Structural)]
pub enum ProviderKind {
    Gke,
    CloudRun,
    Local,
}

/// Inbound authentication mode for exposed runtimes.
#[derive(Clone, Copy, Debug, PartialEq, Eq, Structural)]
pub enum InboundAuth {
    ApiKey,
    Jwt,
    Public,
}

impl Default for InboundAuth {
    fn default() -> (a: Self)
        ensures
            a == InboundAuth::ApiKey,
    {
        InboundAuth::ApiKey
    }
}

/// Runtime lifecycle status.
#[derive(Clone, Copy, Debug, PartialEq, Eq, Structural)]
pub enum RuntimeStatus {
    Creating,
    Running,
    Stopping,
    Stopped,
    Failed,
    Deleting,
}

impl RuntimeStatus {
    /// The variant's name, as its `Debug` form prints it.
    pub open spec fn debug_name(self) -> Seq<char> {
        match self {
            RuntimeStatus::Creating => "Creating"@,
            RuntimeStatus::Running => "Running"@,
            RuntimeStatus::Stopping => "Stopping"@,
            RuntimeStatus::Stopped => "Stopped"@,
            RuntimeStatus::Failed => "Failed"@,
            RuntimeStatus::Deleting => "Deleting"@,
        }
    }

    /// The variant's name.
    pub fn debug_text(&self) -> (s: String)
        ensures
            s@ == self.debug_name(),
    {
        match self {
            RuntimeStatus::Creating => String::from_str("Creating"),
            RuntimeStatus::Running => String::from_str("Running"),
            RuntimeStatus::Stopping => String::from_str("Stopping"),
            RuntimeStatus::Stopped => String::from_str("Stopped"),
            RuntimeStatus::Failed => String::from_str("Failed"),
            RuntimeStatus::Deleting => String::from_str("Deleting"),
        }
    }
}

/// Which stream a log line came from.
#[derive(Clone, Copy, Debug, PartialEq, Eq, Structural)]
pub enum LogStream {
    Stdout,
    Stderr,
    Sidecar,
}

/// Options for fetching logs.
#[derive(Clone, Copy, Debug, PartialEq, Eq, Structural)]
pub struct LogOptions {
    /// Number of recent lines to fetch.
    pub lines: u32,
    /// Only include logs after this instant.
    pub since: Option<Timestamp>,
    /// Include sidecar logs alongside user container logs.
    pub include_sidecar: bool,
}

impl Default for LogOptions {
    fn default() -> (o: Self)
        ensures
            o.lines == log_lines_default(),
            o.since is None,
            !o.include_sidecar,
    {
        LogOptions { lines: 100, since: None, include_sidecar: false }
    }
}

/// A single log entry.
#[derive(Clone, Debug, PartialEq, Eq)]
pub struct LogEntry {
    pub timestamp: Timestamp,
    pub message: String,
    pub stream: LogStream,
}

/// Result of executing a command inside a runtime.
#[derive(Clone, Debug, PartialEq, Eq)]
pub struct ExecResult {
    pub stdout: String,
    pub stderr: String,
    pub exit_code: i32,
}

/// Errors from runtime operations.
#[derive(Clone, Debug, PartialEq, Eq)]
pub enum RuntimeError {
    NotFound(u128),
    InvalidState { status: RuntimeStatus },
    Provider(String),
    Config(String),
    ResourceLimit(String),
    ImageDenied(String),
    Timeout,
}

impl RuntimeError {
    /// The error's message.
    pub open spec fn message(self) -> Seq<char> {
        match self {
            RuntimeError::NotFound(id) => "Runtime not found: "@ + hyphenated(id),
            RuntimeError::InvalidState { status } =>
                "Runtime is in an invalid state for this operation: "@ + status.debug_name(),
            RuntimeError::Provider(m) => "Provider error: "@ + m@,
            RuntimeError::Config(m) => "Configuration error: "@ + m@,
            RuntimeError::ResourceLimit(m) => "Resource limit exceeded: "@ + m@,
            RuntimeError::ImageDenied(m) => "Image not allowed: "@ + m@,
            RuntimeError::Timeout => "Timeout waiting for runtime"@,
        }
    }

    /// The error's message, as its display form.
    pub fn to_string(&self) -> (s: String)
        ensures
            s@ == self.message(),
    {
        match self {
            RuntimeError::NotFound(id) => {
                let mut s = String::from_str("Runtime not found: ");
                let t = uuid_text(*id);
                s.append(t.as_str());
                s
            },
            RuntimeError::InvalidState { status } => {
                let mut s = String::from_str("Runtime is in an invalid state for this operation: ");
                let t = status.debug_text();
                s.append(t.as_str());
                s
            },
            RuntimeError::Provider(m) => {
                let mut s = String::from_str("Provider error: ");
                s.append(m.as_str());
                s
            },
            RuntimeError::Config(m) => {
                let mut s = String::from_str("Configuration error: ");
                s.append(m.as_str());
                s
            },
            RuntimeError::ResourceLimit(m) => {
                let mut s = String::from_str("Resource limit exceeded: ");
                s.append(m.as_str());
                s
            },
            RuntimeError::ImageDenied(m) => {
                let mut s = String::from_str("Image not allowed: ");
                s.append(m.as_str());
                s
            },
            RuntimeError::Timeout => String::from_str("Timeout waiting for runtime"),
        }
    }
}

/// Seconds of inactivity before auto-stop when none is given.
pub open spec fn idle_timeout_default() -> u32 {
    1800
}

/// Port the user container listens on when none is given.
pub open spec fn http_port_default() -> u16 {
    8000
}

/// Shell session authentication policy when none is given.
pub open spec fn shell_auth_policy_default() -> Seq<char> {
    "password"@
}

/// Shell session limit in minutes when none is given.
pub open spec fn shell_max_session_minutes_default() -> i32 {
    30
}

/// Number of log lines fetched when none is given.
pub open spec fn log_lines_default() -> u32 {
    100
}

pub fn default_idle_timeout() -> (t: u32)
    ensures
        t == idle_timeout_default(),
{
    1800
}

pub fn default_http_port() -> (p: u16)
    ensures
        p == http_port_default(),
{
    8000
}

pub fn default_inbound_auth() -> (a: InboundAuth)
    ensures
        a == InboundAuth::ApiKey,
{
    InboundAuth::ApiKey
}

pub fn default_shell_auth_policy() -> (p: String)
    ensures
        p@ == shell_auth_policy_default(),
{
    String::from_str("password")
}

pub fn default_shell_max_session_minutes() -> (m: i32)
    ensures
        m == shell_max_session_minutes_default(),
{
    30
}

pub fn default_log_lines() -> (n: u32)
    ensures
        n == log_lines_default(),
{
    100
}

} // verus!
