//! Request and response types of the node agent.

use vstd::prelude::*;
use crate::text::owned;

verus! {

// ── Container lifecycle ─────────────────────────────────────────────────────

/// What `POST /containers/run` asks the agent to start.
pub struct RunContainerRequest {
    pub container_name: String,
    pub image: String,
    pub command: Option<Vec<String>>,
    pub args: Option<Vec<String>>,
    pub working_dir: Option<String>,
    pub env: Vec<(String, String)>,
    pub cpu_limit_mcores: Option<u32>,
    pub mem_limit_mb: Option<u32>,
    pub gpu_count: u8,
    /// Primary Docker network to attach (e.g. "qs-vpc").
    pub network_name: Option<String>,
    /// Fixed IP within the primary network.
    pub ip_address: Option<String>,
    /// Additional networks to connect after creation (e.g. public pool).
    pub extra_networks: Vec<ExtraNetwork>,
    pub port_bindings: Vec<PortBinding>,
    pub volumes: Vec<VolumeMount>,
    /// Inline files to write to disk and mount into the container.
    pub file_mounts: Vec<FileMount>,
    pub health_check: Option<HealthCheck>,
    pub restart_policy: String,
    pub user: Option<String>,
    pub privileged: bool,
    pub read_only_rootfs: bool,
    pub registry_auth: Option<RegistryAuth>,
}

/// The restart policy a request gets when it names none.
pub fn default_restart_policy() -> (s: String)
    ensures
        s@ == "unless-stopped"@,
{
    owned("unless-stopped")
}

pub struct ExtraNetwork {
    pub name: String,
    pub ip: String,
}

pub struct PortBinding {
    pub container_port: u16,
    pub host_port: u16,
    pub protocol: String,
}

/// The protocol a port binding gets when it names none.
pub fn default_protocol() -> (s: String)
    ensures
        s@ == "tcp"@,
{
    owned("tcp")
}

pub struct VolumeMount {
    pub host_path: String,
    pub container_path: String,
    pub read_only: bool,
}

pub struct FileMount {
    pub filename: String,
    pub mount_path: String,
    pub content: String,
}

/// A container health check: "HTTP", "TCP", or "CMD".
pub struct HealthCheck {
    pub check_type: String,
    pub port: Option<u16>,
    pub path: Option<String>,
    pub cmd: Option<String>,
    pub interval_secs: u32,
    pub timeout_secs: u32,
    pub retries: u32,
}

/// Seconds between health probes when the request names none.
pub fn default_interval() -> (n: u32)
    ensures
        n == 30,
{
    30
}

/// Seconds a health probe may take when the request names none.
pub fn default_timeout() -> (n: u32)
    ensures
        n == 5,
{
    5
}

/// Failed probes before the container counts as unhealthy, when the request
/// names none.
pub fn default_retries() -> (n: u32)
    ensures
        n == 3,
{
    3
}

pub struct RegistryAuth {
    pub username: String,
    pub password: String,
    pub server_address: String,
}

pub struct RunContainerResponse {
    pub container_id: String,
    pub container_name: String,
}

// ── Network ─────────────────────────────────────────────────────────────────

pub struct EnsureNetworkRequest {
    pub name: String,
    pub subnet: String,
    pub gateway: Option<String>,
    /// Linux bridge name on the host (e.g. "br-vpc").
    pub bridge_name: Option<String>,
}

pub struct EnsureNetworkResponse {
    pub network_id: String,
    pub created: bool,
}

// ── Status ──────────────────────────────────────────────────────────────────

pub struct AgentStatus {
    pub ok: bool,
    pub node_id: String,
    pub docker_version: String,
    pub containers_running: usize,
    pub cpu_count: usize,
    pub mem_total_mb: u64,
}

// ── Container info ──────────────────────────────────────────────────────────

pub struct ContainerInfo {
    pub id: String,
    pub name: String,
    pub image: String,
    pub state: String,
    pub status: String,
    pub created: i64,
}

} // verus!
