//! `GET /status`: the agent's health and basic node facts.

use vstd::prelude::*;
use crate::agent::types::AgentStatus;
use crate::text::{opt_view, owned};

verus! {

/// Total memory in MiB from the daemon's byte count (read as unsigned, as
/// the daemon's signed field is).
pub open spec fn mem_mb(mem_total: Option<i64>) -> u64 {
    match mem_total {
        Some(m) => ((m as u64) / 1048576) as u64,
        None => 0,
    }
}

/// The status report: each fact the daemon did not give is reported as
/// zero, and the Docker version as `unknown`.
pub fn health(
    node_id: &String,
    docker_version: Option<String>,
    containers_running: Option<usize>,
    ncpu: Option<i64>,
    mem_total: Option<i64>,
) -> (s: AgentStatus)
    ensures
        s.ok,
        s.node_id@ == node_id@,
        s.docker_version@ == (match opt_view(docker_version) {
            Some(v) => v,
            None => "unknown"@,
        }),
        s.containers_running == (match containers_running { Some(n) => n, None => 0 }),
        s.cpu_count == (match ncpu { Some(n) => n as usize, None => 0 }),
        s.mem_total_mb == mem_mb(mem_total),
{
    let version = match docker_version {
        Some(v) => v,
        None => owned("unknown"),
    };
    let running = match containers_running {
        Some(n) => n,
        None => 0,
    };
    let cpu_count: usize = match ncpu {
        Some(n) => n as usize,
        None => 0,
    };
    let mem_total_mb: u64 = match mem_total {
        Some(m) => (m as u64) / 1024 / 1024,
        None => 0,
    };
    AgentStatus {
        ok: true,
        node_id: node_id.clone(),
        docker_version: version,
        containers_running: running,
        cpu_count,
        mem_total_mb,
    }
}

} // verus!
