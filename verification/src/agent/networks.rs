//! `POST /networks/ensure`: create a Docker network unless it exists.

use vstd::prelude::*;
use crate::agent::types::{EnsureNetworkRequest, EnsureNetworkResponse};
use crate::text::{opt_view, owned};

verus! {

/// What inspecting the network by name gave.
pub enum InspectOutcome {
    /// The network exists; its id, if the daemon reported one.
    Found(Option<String>),
    /// The daemon answered 404.
    Missing,
    /// Any other failure, with its message.
    Failed(String),
}

/// The bridge network to create.
pub struct NetworkPlan {
    pub name: String,
    pub driver: String,
    pub subnet: String,
    pub gateway: Option<String>,
    /// Driver options: the host bridge name, when one is asked for.
    pub options: Vec<(String, String)>,
}

/// What the agent does next.
pub enum EnsureStep {
    /// The network exists: answer with its id, nothing created.
    Existing(EnsureNetworkResponse),
    /// Create it.
    Create(NetworkPlan),
    /// Answer 500 with the message.
    Fail(String),
}

pub open spec fn id_or_empty(id: Option<String>) -> Seq<char> {
    match opt_view(id) {
        Some(s) => s,
        None => Seq::empty(),
    }
}

/// Decides `ensure` from the inspection of the requested name: an existing
/// network is reported as it is; a missing one is created as a bridge with
/// the requested subnet and gateway, named after the requested host bridge;
/// any other failure is passed on.
pub fn ensure_step(req: &EnsureNetworkRequest, inspected: InspectOutcome) -> (s: EnsureStep)
    ensures
        inspected matches InspectOutcome::Found(id) ==> (s matches EnsureStep::Existing(r)
            && r.network_id@ == id_or_empty(id) && !r.created),
        inspected matches InspectOutcome::Failed(m) ==> (s matches EnsureStep::Fail(e) && e@
            == m@),
        inspected is Missing ==> (s matches EnsureStep::Create(p) && p.name@ == req.name@
            && p.driver@ == "bridge"@ && p.subnet@ == req.subnet@ && opt_view(p.gateway)
            == opt_view(req.gateway) && match req.bridge_name {
            Some(b) => p.options@.len() == 1 && p.options@[0].0@
                == "com.docker.network.bridge.name"@ && p.options@[0].1@ == b@,
            None => p.options@.len() == 0,
        }),
{
    match inspected {
        InspectOutcome::Found(id) => {
            let network_id = match id {
                Some(s) => s,
                None => String::new(),
            };
            EnsureStep::Existing(EnsureNetworkResponse { network_id, created: false })
        },
        InspectOutcome::Failed(m) => EnsureStep::Fail(m),
        InspectOutcome::Missing => {
            let mut options: Vec<(String, String)> = Vec::new();
            if let Some(b) = &req.bridge_name {
                options.push((owned("com.docker.network.bridge.name"), b.clone()));
            }
            let gateway = match &req.gateway {
                Some(g) => Some(g.clone()),
                None => None,
            };
            EnsureStep::Create(
                NetworkPlan {
                    name: req.name.clone(),
                    driver: owned("bridge"),
                    subnet: req.subnet.clone(),
                    gateway,
                    options,
                },
            )
        },
    }
}

/// The answer after a network was created: its id (empty when the daemon
/// reported none), marked as created.
pub fn created_response(id: Option<String>) -> (r: EnsureNetworkResponse)
    ensures
        r.network_id@ == id_or_empty(id),
        r.created,
{
    let network_id = match id {
        Some(s) => s,
        None => String::new(),
    };
    EnsureNetworkResponse { network_id, created: true }
}

} // verus!
