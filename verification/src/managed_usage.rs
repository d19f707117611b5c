//! Per-project usage and quota of managed-service bindings.
//!
//! A project counts the distinct managed resources of each kind it uses
//! (databases, MQ, SMTP, Redis, S3); a deploy that would push a kind past a
//! positive per-project limit is refused.

use vstd::prelude::*;
use crate::error::{AppError, ErrKind};
use crate::text::{cat2, cat4, sdec, signed_decimal_string, str_eq};

verus! {

/// One {used, limit} pair per kind. `limit == 0` means unlimited.
#[derive(PartialEq, Eq, Structural, Debug, Clone, Copy)]
pub struct KindUsage {
    pub used: i64,
    pub limit: i64,
}

pub struct ManagedUsage {
    pub db_instances: KindUsage,
    pub mq_bindings: KindUsage,
    pub smtp_bindings: KindUsage,
    pub redis_bindings: KindUsage,
    pub s3_bindings: KindUsage,
}

/// The usage entry of a binding kind, if it is one of the five kinds.
pub open spec fn usage_of(u: ManagedUsage, kind: Seq<char>) -> Option<KindUsage> {
    if kind == "database_instance"@ {
        Some(u.db_instances)
    } else if kind == "mq_endpoint"@ {
        Some(u.mq_bindings)
    } else if kind == "smtp_endpoint"@ {
        Some(u.smtp_bindings)
    } else if kind == "redis_endpoint"@ {
        Some(u.redis_bindings)
    } else if kind == "s3_target"@ {
        Some(u.s3_bindings)
    } else {
        None
    }
}

/// Whether `delta` more of a kind would exceed its positive limit.
pub open spec fn exceeds(u: ManagedUsage, kind: Seq<char>, delta: i64) -> bool {
    match usage_of(u, kind) {
        Some(k) => k.limit > 0 && k.used + delta > k.limit,
        None => false,
    }
}

pub open spec fn exceeded_message(kind: Seq<char>, used: i64, delta: i64, limit: i64) -> Seq<char> {
    kind + " quota would be exceeded: used="@ + sdec(used as int) + " + new="@ + sdec(delta as int)
        + " > limit="@ + sdec(limit as int)
}

fn usage_for(u: &ManagedUsage, kind: &str) -> (r: Option<KindUsage>)
    ensures
        r == usage_of(*u, kind@),
{
    if str_eq(kind, "database_instance") {
        Some(u.db_instances)
    } else if str_eq(kind, "mq_endpoint") {
        Some(u.mq_bindings)
    } else if str_eq(kind, "smtp_endpoint") {
        Some(u.smtp_bindings)
    } else if str_eq(kind, "redis_endpoint") {
        Some(u.redis_bindings)
    } else if str_eq(kind, "s3_target") {
        Some(u.s3_bindings)
    } else {
        None
    }
}

/// Pre-deploy quota check over the new distinct refs per binding kind: the
/// deploy passes when no kind would exceed its limit; otherwise it is
/// refused naming the first such kind in `incoming`.
pub fn check_binding_allowed(u: &ManagedUsage, incoming: &Vec<(String, i64)>) -> (r: Result<(), AppError>)
    ensures
        r is Ok <==> forall|i: int| 0 <= i < incoming@.len() ==> !exceeds(*u, #[trigger] incoming@[i].0@, incoming@[i].1),
        r matches Err(e) ==> exists|i: int|
            0 <= i < incoming@.len() && exceeds(*u, #[trigger] incoming@[i].0@, incoming@[i].1)
                && (forall|j: int| 0 <= j < i ==> !exceeds(*u, #[trigger] incoming@[j].0@, incoming@[j].1))
                && e.as_pair() == (ErrKind::QuotaExceeded, exceeded_message(
                incoming@[i].0@,
                usage_of(*u, incoming@[i].0@).unwrap().used,
                incoming@[i].1,
                usage_of(*u, incoming@[i].0@).unwrap().limit,
            )),
{
    let mut i: usize = 0;
    while i < incoming.len()
        invariant
            i <= incoming@.len(),
            forall|j: int| 0 <= j < i ==> !exceeds(*u, #[trigger] incoming@[j].0@, incoming@[j].1),
        decreases incoming.len() - i,
    {
        let (kind, delta) = &incoming[i];
        match usage_for(u, kind.as_str()) {
            None => {},
            Some(k) => {
                if k.limit > 0 && (k.used as i128) + (*delta as i128) > (k.limit as i128) {
                    let used = signed_decimal_string(k.used);
                    let d = signed_decimal_string(*delta);
                    let lim = signed_decimal_string(k.limit);
                    let a = cat4(kind.as_str(), " quota would be exceeded: used=", used.as_str(), " + new=");
                    let b = cat4(a.as_str(), d.as_str(), " > limit=", lim.as_str());
                    let e = AppError::QuotaExceeded(b);
                    assert(exceeds(*u, incoming@[i as int].0@, incoming@[i as int].1));
                    return Err(e);
                }
            },
        }
        i = i + 1;
    }
    Ok(())
}

} // verus!
