//! Cluster nodes: admitting a node, re-provisioning it, and following its
//! provisioning progress.

use vstd::prelude::*;
use crate::columns::patched;
use crate::error::{bad_request, internal, AppError, ErrKind};
use crate::text::{cat2, copy_opt, opt_view, owned, str_eq};

verus! {

pub struct AddNodeRequest {
    pub cluster_id: String,
    pub hostname: String,
    pub ip_address: String,
    pub node_role: Option<String>,
    /// SSH password for the first connection; absent or empty when the
    /// platform key already works.
    pub ssh_password: Option<String>,
    /// SSH port (defaults to 22).
    pub ssh_port: Option<u16>,
    /// Local path for hostPath volumes (defaults to /storage).
    pub storage_path: Option<String>,
    /// Agent HTTP port of Docker-mode nodes (defaults to 9800).
    pub agent_port: Option<u16>,
}

pub struct UpdateNodeRequest {
    pub hostname: Option<String>,
    pub ip_address: Option<String>,
    pub node_role: Option<String>,
    pub storage_path: Option<String>,
    pub ssh_port: Option<u16>,
}

pub struct ReprovisionRequest {
    /// Absent or empty to reprovision over the platform key.
    pub ssh_password: Option<String>,
}

/// How a node is provisioned.
pub struct NodePlan {
    pub role: String,
    pub storage_path: String,
    pub ssh_port: u16,
    pub agent_port: u16,
    pub ssh_password: String,
    /// Provision as a Docker agent node rather than a k3s node.
    pub docker: bool,
}

pub open spec fn or_default(o: Option<String>, d: Seq<char>) -> Seq<char> {
    match o {
        Some(s) => s@,
        None => d,
    }
}

pub open spec fn worker_without_master(orchestrator: Seq<char>, role: Seq<char>, masters: i64) -> bool {
    orchestrator != "DOCKER"@ && role == "WORKER"@ && masters == 0
}

/// Decides `POST /admin/nodes`: the cluster must exist and be active; the
/// role defaults to WORKER; on a k3s cluster (the default orchestrator) a
/// worker needs an existing master; storage defaults to /storage, SSH to
/// port 22, the agent to port 9800, the password to empty.
pub fn plan_node_add(
    body: &AddNodeRequest,
    cluster_active: Option<i8>,
    orchestrator: &Option<String>,
    masters: i64,
) -> (r: Result<NodePlan, AppError>)
    ensures
        cluster_active is None ==> (r matches Err(e) && e.as_pair() == (ErrKind::NotFound, "cluster "@ + body.cluster_id@)),
        cluster_active == Some(0i8) ==> (r matches Err(e) && e.as_pair() == (ErrKind::BadRequest, "cluster is inactive"@)),
        cluster_active matches Some(a) && a != 0 ==> ({
            let role = or_default(body.node_role, "WORKER"@);
            let orch = or_default(*orchestrator, "K3S"@);
            if worker_without_master(orch, role, masters) {
                r matches Err(e) && e.as_pair() == (
                    ErrKind::BadRequest,
                    "Cannot add a WORKER node: no MASTER node exists in this cluster yet. Add a MASTER node first."@,
                )
            } else {
                r matches Ok(p) && p.role@ == role && p.docker == (orch == "DOCKER"@) && p.storage_path@
                    == or_default(body.storage_path, "/storage"@) && p.ssh_port == (match body.ssh_port {
                    Some(x) => x,
                    None => 22,
                }) && p.agent_port == (match body.agent_port {
                    Some(x) => x,
                    None => 9800,
                }) && p.ssh_password@ == or_default(body.ssh_password, Seq::empty())
            }
        }),
{
    let active = match cluster_active {
        None => return Err(AppError::NotFound(cat2("cluster ", body.cluster_id.as_str()))),
        Some(a) => a,
    };
    if active == 0 {
        return Err(bad_request("cluster is inactive"));
    }
    let role = match &body.node_role {
        Some(r) => r.clone(),
        None => owned("WORKER"),
    };
    let docker = match orchestrator {
        Some(o) => str_eq(o.as_str(), "DOCKER"),
        None => str_eq("K3S", "DOCKER"),
    };
    if !docker && str_eq(role.as_str(), "WORKER") && masters == 0 {
        return Err(bad_request(
            "Cannot add a WORKER node: no MASTER node exists in this cluster yet. Add a MASTER node first.",
        ));
    }
    let storage_path = match &body.storage_path {
        Some(s) => s.clone(),
        None => owned("/storage"),
    };
    let ssh_password = match &body.ssh_password {
        Some(s) => s.clone(),
        None => String::new(),
    };
    Ok(NodePlan {
        role,
        storage_path,
        ssh_port: match body.ssh_port { Some(x) => x, None => 22 },
        agent_port: match body.agent_port { Some(x) => x, None => 9800 },
        ssh_password,
        docker,
    })
}

/// A k3s cluster never admits a worker before it has a master.
pub proof fn no_worker_before_master(orchestrator: Seq<char>, role: Seq<char>, masters: i64)
    requires
        orchestrator != "DOCKER"@,
        role == "WORKER"@,
        masters == 0,
    ensures
        worker_without_master(orchestrator, role, masters),
{
}

/// Decides `POST /admin/nodes/:id/reprovision`: a node being provisioned is
/// left alone, a node must belong to a cluster; the stored role is kept,
/// storage defaults to /storage, SSH to port 22, the agent port is 9800.
pub fn plan_reprovision(
    node_status: &str,
    cluster_id: &Option<String>,
    role: &str,
    storage_path: &Option<String>,
    ssh_port: Option<u16>,
    orchestrator: &Option<String>,
    body: &ReprovisionRequest,
) -> (r: Result<NodePlan, AppError>)
    ensures
        node_status@ == "PROVISIONING"@ ==> (r matches Err(e) && e.as_pair() == (
            ErrKind::BadRequest,
            "Node is already being provisioned."@,
        )),
        node_status@ != "PROVISIONING"@ && cluster_id is None ==> (r matches Err(e) && e.as_pair() == (
            ErrKind::Internal,
            "node has no cluster_id"@,
        )),
        node_status@ != "PROVISIONING"@ && cluster_id is Some ==> (r matches Ok(p) && p.role@ == role@
            && p.storage_path@ == or_default(*storage_path, "/storage"@) && p.ssh_port == (match ssh_port {
            Some(x) => x,
            None => 22,
        }) && p.agent_port == 9800 && p.ssh_password@ == or_default(body.ssh_password, Seq::empty())
            && p.docker == (or_default(*orchestrator, "K3S"@) == "DOCKER"@)),
{
    if str_eq(node_status, "PROVISIONING") {
        return Err(bad_request("Node is already being provisioned."));
    }
    if cluster_id.is_none() {
        return Err(internal("node has no cluster_id"));
    }
    let storage = match storage_path {
        Some(s) => s.clone(),
        None => owned("/storage"),
    };
    let ssh_password = match &body.ssh_password {
        Some(s) => s.clone(),
        None => String::new(),
    };
    let docker = match orchestrator {
        Some(o) => str_eq(o.as_str(), "DOCKER"),
        None => str_eq("K3S", "DOCKER"),
    };
    Ok(NodePlan {
        role: owned(role),
        storage_path: storage,
        ssh_port: match ssh_port { Some(x) => x, None => 22 },
        agent_port: 9800,
        ssh_password,
        docker,
    })
}

// ── Provisioning progress ───────────────────────────────────────────────────

/// The end of a provisioning stream: the event name and its data.
pub struct StreamEnd {
    pub event: String,
    pub data: String,
}

/// One round of the provisioning stream.
pub struct StreamRound {
    /// Highest log row id sent so far.
    pub last_seen_id: i64,
    /// Whether new rows arrived (which resets the stall clock).
    pub activity: bool,
    /// The closing event, when the stream ends this round.
    pub end: Option<StreamEnd>,
}

pub open spec fn max_id(start: i64, ids: Seq<i64>) -> i64
    decreases ids.len(),
{
    if ids.len() == 0 {
        start
    } else {
        let m = max_id(start, ids.drop_last());
        if ids.last() > m {
            ids.last()
        } else {
            m
        }
    }
}

/// One poll of `GET /admin/nodes/:id/provision-stream`, after the new log
/// rows (`row_ids`, each sent as a `step` event) were fetched: the stream
/// ends with `finish` when provisioning is `done` or `failed`, with an
/// `error` past the 30-minute deadline or after more than 300 s without
/// new rows, and otherwise polls again.
pub fn provision_stream_step(
    last_seen_id: i64,
    row_ids: &Vec<i64>,
    provision_step: &str,
    past_deadline: bool,
    idle_secs: u64,
) -> (r: StreamRound)
    ensures
        r.last_seen_id == max_id(last_seen_id, row_ids@),
        r.last_seen_id >= last_seen_id,
        r.activity == (row_ids@.len() > 0),
        provision_step@ == "done"@ || provision_step@ == "failed"@ ==> (r.end matches Some(e) && e.event@
            == "finish"@ && e.data@ == provision_step@),
        !(provision_step@ == "done"@ || provision_step@ == "failed"@) && past_deadline ==> (r.end matches Some(e)
            && e.event@ == "error"@ && e.data@ == "stream timeout (30 min)"@),
        !(provision_step@ == "done"@ || provision_step@ == "failed"@) && !past_deadline && row_ids@.len() == 0
            && idle_secs > 300 ==> (r.end matches Some(e) && e.event@ == "error"@ && e.data@
            == "provision appears stalled (no output for 5 min)"@),
        !(provision_step@ == "done"@ || provision_step@ == "failed"@) && !past_deadline && !(row_ids@.len() == 0
            && idle_secs > 300) ==> r.end is None,
{
    let mut m: i64 = last_seen_id;
    let mut i: usize = 0;
    while i < row_ids.len()
        invariant
            i <= row_ids.len(),
            m == max_id(last_seen_id, row_ids@.take(i as int)),
            m >= last_seen_id,
        decreases row_ids.len() - i,
    {
        assert(row_ids@.take(i + 1).drop_last() =~= row_ids@.take(i as int));
        assert(row_ids@.take(i + 1).last() == row_ids@[i as int]);
        if row_ids[i] > m {
            m = row_ids[i];
        }
        i = i + 1;
    }
    assert(row_ids@.take(i as int) =~= row_ids@);
    let activity = row_ids.len() > 0;
    let end = if str_eq(provision_step, "done") || str_eq(provision_step, "failed") {
        Some(StreamEnd { event: owned("finish"), data: owned(provision_step) })
    } else if past_deadline {
        Some(StreamEnd { event: owned("error"), data: owned("stream timeout (30 min)") })
    } else if !activity && idle_secs > 300 {
        Some(StreamEnd { event: owned("error"), data: owned("provision appears stalled (no output for 5 min)") })
    } else {
        None
    };
    StreamRound { last_seen_id: m, activity, end }
}

/// A node operation needs the node's cluster.
pub fn node_cluster(cluster_id: Option<String>) -> (r: Result<String, AppError>)
    ensures
        cluster_id matches Some(c) ==> (r matches Ok(x) && x@ == c@),
        cluster_id is None ==> (r matches Err(e) && e.as_pair() == (ErrKind::Internal, "node has no cluster_id"@)),
{
    match cluster_id {
        Some(c) => Ok(c),
        None => Err(internal("node has no cluster_id")),
    }
}

/// The settings of a node that an update may change.
pub struct NodeSettings {
    pub hostname: String,
    pub ip_address: String,
    pub node_role: String,
    pub storage_path: Option<String>,
    pub ssh_port: u16,
}

/// `PUT /admin/nodes/:id`: each given setting replaces the stored one, each
/// absent one keeps it.
pub fn node_update(existing: &NodeSettings, body: &UpdateNodeRequest) -> (r: NodeSettings)
    ensures
        r.hostname@ == patched(existing.hostname@, opt_view(body.hostname)),
        r.ip_address@ == patched(existing.ip_address@, opt_view(body.ip_address)),
        r.node_role@ == patched(existing.node_role@, opt_view(body.node_role)),
        opt_view(r.storage_path) == (match body.storage_path {
            Some(s) => Some(s@),
            None => opt_view(existing.storage_path),
        }),
        r.ssh_port == patched(existing.ssh_port, body.ssh_port),
{
    NodeSettings {
        hostname: match &body.hostname {
            Some(h) => h.clone(),
            None => existing.hostname.clone(),
        },
        ip_address: match &body.ip_address {
            Some(ip) => ip.clone(),
            None => existing.ip_address.clone(),
        },
        node_role: match &body.node_role {
            Some(role) => role.clone(),
            None => existing.node_role.clone(),
        },
        storage_path: match &body.storage_path {
            Some(s) => Some(s.clone()),
            None => copy_opt(&existing.storage_path),
        },
        ssh_port: match body.ssh_port {
            Some(p) => p,
            None => existing.ssh_port,
        },
    }
}

} // verus!
