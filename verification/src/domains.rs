//! Custom domains of an app: the route registered with the proxy manager
//! and the errors of a domain request.

use vstd::prelude::*;
use crate::error::{bad_request, internal, AppError, ErrKind};
use crate::text::{cat2, cat3, owned};

verus! {

/// `POST /projects/:pid/apps/:aid/domains`.
pub struct CreateDomainRequest {
    pub hostname: String,
    pub target_port: u16,
    pub ssl_enabled: Option<bool>,
    pub use_lets_encrypt: Option<bool>,
}

/// TLS and Let's Encrypt are both on unless the request turns them off.
pub open spec fn ssl_of(body: CreateDomainRequest) -> bool {
    match body.ssl_enabled {
        Some(b) => b,
        None => true,
    }
}

pub open spec fn lets_encrypt_of(body: CreateDomainRequest) -> bool {
    match body.use_lets_encrypt {
        Some(b) => b,
        None => true,
    }
}

/// The NodePort behind the target port: the app's port must exist and
/// have been deployed (a port row without a NodePort counts as absent).
pub fn require_nodeport(nodeport: Option<Option<i32>>) -> (r: Result<i32, AppError>)
    ensures
        match nodeport {
            Some(Some(p)) => r == Ok::<i32, AppError>(p),
            _ => r matches Err(e) && e.as_pair() == (ErrKind::BadRequest, "port not found or not yet deployed"@),
        },
{
    match nodeport {
        Some(Some(p)) => Ok(p),
        _ => Err(bad_request("port not found or not yet deployed")),
    }
}

/// The upstream needs a ready node.
pub fn require_ready_node(node_ip: Option<String>) -> (r: Result<String, AppError>)
    ensures
        match node_ip {
            Some(ip) => r == Ok::<String, AppError>(ip),
            None => r matches Err(e) && e.as_pair() == (ErrKind::Internal, "no ready nodes"@),
        },
{
    match node_ip {
        Some(ip) => Ok(ip),
        None => Err(internal("no ready nodes")),
    }
}

/// A hostname taken by another domain (409).
pub fn hostname_in_use(hostname: &str) -> (e: AppError)
    ensures
        e.as_pair() == (ErrKind::Conflict, "hostname '"@ + hostname@ + "' already in use"@),
{
    AppError::Conflict(cat3("hostname '", hostname, "' already in use"))
}

/// A domain id that does not exist (404).
pub fn domain_not_found(domain_id: &str) -> (e: AppError)
    ensures
        e.as_pair() == (ErrKind::NotFound, "domain "@ + domain_id@),
{
    AppError::NotFound(cat2("domain ", domain_id))
}

/// The proxy host of a domain, and whether a certificate is requested.
pub struct DomainRoute {
    pub domain: String,
    pub scheme: String,
    pub upstream_ip: String,
    pub upstream_port: i32,
    pub ssl_force: bool,
    pub request_cert: bool,
}

/// The route of a new domain: `https` with TLS forced when TLS is on,
/// plain `http` otherwise, to the app's NodePort on a ready node; a
/// certificate is requested when both TLS and Let's Encrypt are on.
pub fn plan_domain_route(body: &CreateDomainRequest, nodeport: i32, node_ip: String) -> (r: DomainRoute)
    ensures
        r.domain@ == body.hostname@,
        r.scheme@ == (if ssl_of(*body) {
            "https"@
        } else {
            "http"@
        }),
        r.upstream_ip == node_ip,
        r.upstream_port == nodeport,
        r.ssl_force == ssl_of(*body),
        r.request_cert == (ssl_of(*body) && lets_encrypt_of(*body)),
{
    let ssl = match body.ssl_enabled {
        Some(b) => b,
        None => true,
    };
    let le = match body.use_lets_encrypt {
        Some(b) => b,
        None => true,
    };
    DomainRoute {
        domain: body.hostname.clone(),
        scheme: if ssl {
            owned("https")
        } else {
            owned("http")
        },
        upstream_ip: node_ip,
        upstream_port: nodeport,
        ssl_force: ssl,
        request_cert: ssl && le,
    }
}

} // verus!
