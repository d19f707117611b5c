//! Quota enforcement by administrators: the reason recorded when an app is
//! suspended, and what resuming one adds to the project's usage.

use vstd::prelude::*;
use crate::error::{internal, AppError, ErrKind};
use crate::text::owned;

verus! {

/// `POST /admin/apps/:app_id/suspend` (the body is optional).
pub struct SuspendRequest {
    pub reason: Option<String>,
}

/// The recorded reason: the given one, else `admin_suspend`.
pub fn suspend_reason(body: Option<SuspendRequest>) -> (r: String)
    ensures
        r@ == (match body {
            Some(b) => match b.reason {
                Some(x) => x@,
                None => "admin_suspend"@,
            },
            None => "admin_suspend"@,
        }),
{
    match body {
        Some(b) => match b.reason {
            Some(x) => x,
            None => owned("admin_suspend"),
        },
        None => owned("admin_suspend"),
    }
}

/// What resuming an app adds to the project's usage: its per-replica CPU
/// and memory times its replica count.
pub fn unsuspend_extra(cpu: i64, mem: i64, replicas: i32) -> (r: (i64, i64))
    requires
        i64::MIN <= cpu * replicas <= i64::MAX,
        i64::MIN <= mem * replicas <= i64::MAX,
    ensures
        r.0 == cpu * replicas,
        r.1 == mem * replicas,
{
    (cpu * (replicas as i64), mem * (replicas as i64))
}

/// Scaling an app needs the active cluster of its pool.
pub fn require_app_cluster(cluster_id: Option<String>) -> (r: Result<String, AppError>)
    ensures
        match cluster_id {
            Some(c) => r == Ok::<String, AppError>(c),
            None => r matches Err(e) && e.as_pair() == (ErrKind::Internal, "no cluster for app"@),
        },
{
    match cluster_id {
        Some(c) => Ok(c),
        None => Err(internal("no cluster for app")),
    }
}

} // verus!
