//! The handle to a running or stopped runtime.

use vstd::prelude::*;
use crate::spec::opt_text;
use crate::string_map::{StringMap, TextPairs};
use crate::time::Timestamp;
use crate::types::{Preset, ProviderKind, RuntimeStatus};

verus! {

/// Handle to a running or stopped runtime with current status.
#[derive(Clone, Debug)]
pub struct RuntimeHandle {
    pub id: u128,
    pub name: String,
    pub status: RuntimeStatus,
    pub provider: ProviderKind,
    pub preset: Preset,
    pub image: String,
    pub agent_id: u128,
    pub org_id: u128,
    pub public_url: Option<String>,
    pub created_at: Timestamp,
    pub started_at: Option<Timestamp>,
    pub stopped_at: Option<Timestamp>,
    /// Provider-specific metadata (container name, deployment, and so on).
    pub metadata: StringMap,
    /// Whether interactive shell access is enabled.
    pub shell_access_enabled: bool,
}

#[verifier::ext_equal]
pub struct RuntimeHandleView {
    pub id: u128,
    pub name: Seq<char>,
    pub status: RuntimeStatus,
    pub provider: ProviderKind,
    pub preset: Preset,
    pub image: Seq<char>,
    pub agent_id: u128,
    pub org_id: u128,
    pub public_url: Option<Seq<char>>,
    pub created_at: Timestamp,
    pub started_at: Option<Timestamp>,
    pub stopped_at: Option<Timestamp>,
    pub metadata: TextPairs,
    pub shell_access_enabled: bool,
}

impl View for RuntimeHandle {
    type V = RuntimeHandleView;

    open spec fn view(&self) -> RuntimeHandleView {
        RuntimeHandleView {
            id: self.id,
            name: self.name@,
            status: self.status,
            provider: self.provider,
            preset: self.preset,
            image: self.image@,
            agent_id: self.agent_id,
            org_id: self.org_id,
            public_url: opt_text(self.public_url),
            created_at: self.created_at,
            started_at: self.started_at,
            stopped_at: self.stopped_at,
            metadata: self.metadata@,
            shell_access_enabled: self.shell_access_enabled,
        }
    }
}

} // verus!
