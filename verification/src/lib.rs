//! # oneclaw_runtime
//!
//! Types and provider logic for managing containerized agent runtimes on
//! different infrastructure backends (GKE, Cloud Run, local Docker).
//!
//! The library holds what each backend decides and computes: which images may
//! run, what container or deployment a runtime gets, how a reported state maps
//! to a runtime status, and what handle, log entries or exec result come back.
//! The I/O against the Docker engine and the Kubernetes API stays with the
//! caller, which hands the library the plain values it read.

pub mod handle;
pub mod ids;
pub mod providers;
pub mod spec;
pub mod string_map;
pub mod text;
pub mod time;
pub mod types;

pub use handle::{RuntimeHandle, RuntimeHandleView};
pub use spec::{RuntimeSpec, RuntimeSpecBuilder, RuntimeSpecBuilderView, RuntimeSpecView, SecretMount, SecretMountView};
pub use string_map::StringMap;
pub use time::Timestamp;
pub use types::{
    default_http_port, default_idle_timeout, default_inbound_auth, default_log_lines,
    default_shell_auth_policy, default_shell_max_session_minutes, ExecResult, InboundAuth,
    LogEntry, LogOptions, LogStream, Preset, ProviderKind, RuntimeError, RuntimeStatus,
};
