//! Resource pools: how a pool is named, what an update keeps, and when a
//! pool may be deleted.

use vstd::prelude::*;
use crate::columns::flag;
use crate::error::{bad_request, AppError, ErrKind};
use crate::text::{cat3, chars_of, copy_opt, dec, decimal_string, is_alphanumeric_char, opt_view, unicode_alphanumeric};

verus! {

/// `POST /admin/resource-pools`.
pub struct CreatePoolRequest {
    pub name: String,
    pub display_name: String,
    pub region: Option<String>,
    pub description: Option<String>,
}

/// `PUT /admin/resource-pools/:id`.
pub struct UpdatePoolRequest {
    pub display_name: Option<String>,
    pub region: Option<String>,
    pub description: Option<String>,
    pub is_active: Option<bool>,
}

/// A pool name: not empty, of alphanumerics (in the Unicode sense), `-`
/// and `_`.
pub open spec fn pool_name_ok(name: Seq<char>) -> bool {
    name.len() > 0 && forall|i: int| 0 <= i < name.len() ==> unicode_alphanumeric(#[trigger] name[i]) || name[i] == '-' || name[i] == '_'
}

/// Checks the name of a new pool.
pub fn check_pool_name(name: &str) -> (r: Result<(), AppError>)
    ensures
        r is Ok <==> pool_name_ok(name@),
        r matches Err(e) ==> e.as_pair() == (ErrKind::BadRequest, "name must be alphanumeric slug (a-z, 0-9, -, _)"@),
{
    let v = chars_of(name);
    if v.len() == 0 {
        return Err(bad_request("name must be alphanumeric slug (a-z, 0-9, -, _)"));
    }
    let mut i: usize = 0;
    while i < v.len()
        invariant
            v@ == name@,
            i <= v.len(),
            forall|j: int| 0 <= j < i ==> unicode_alphanumeric(#[trigger] v@[j]) || v@[j] == '-' || v@[j] == '_',
        decreases v.len() - i,
    {
        let c = v[i];
        if !(is_alphanumeric_char(c) || c == '-' || c == '_') {
            return Err(bad_request("name must be alphanumeric slug (a-z, 0-9, -, _)"));
        }
        i += 1;
    }
    Ok(())
}

/// A pool as stored.
pub struct PoolRow {
    pub display_name: String,
    pub region: Option<String>,
    pub description: Option<String>,
    pub is_active: i8,
}

/// What an update writes: each given field replaces the stored one, each
/// absent field keeps it.
pub fn pool_update(existing: &PoolRow, body: &UpdatePoolRequest) -> (r: PoolRow)
    ensures
        r.display_name@ == (match body.display_name {
            Some(d) => d@,
            None => existing.display_name@,
        }),
        opt_view(r.region) == (match body.region {
            Some(x) => Some(x@),
            None => opt_view(existing.region),
        }),
        opt_view(r.description) == (match body.description {
            Some(x) => Some(x@),
            None => opt_view(existing.description),
        }),
        r.is_active == (match body.is_active {
            Some(b) => flag(b),
            None => existing.is_active,
        }),
{
    PoolRow {
        display_name: match &body.display_name {
            Some(d) => d.clone(),
            None => existing.display_name.clone(),
        },
        region: match &body.region {
            Some(x) => Some(x.clone()),
            None => copy_opt(&existing.region),
        },
        description: match &body.description {
            Some(x) => Some(x.clone()),
            None => copy_opt(&existing.description),
        },
        is_active: match body.is_active {
            Some(b) => if b {
                1
            } else {
                0
            },
            None => existing.is_active,
        },
    }
}

/// A pool with clusters cannot be deleted (409).
pub fn check_pool_deletable(cluster_count: i64) -> (r: Result<(), AppError>)
    ensures
        r is Ok <==> cluster_count <= 0,
        r matches Err(e) ==> e.as_pair() == (ErrKind::Conflict, "pool has "@ + dec(cluster_count as nat)
            + " cluster(s); remove them first"@),
{
    if cluster_count > 0 {
        let n = decimal_string(cluster_count as u64);
        return Err(AppError::Conflict(cat3("pool has ", n.as_str(), " cluster(s); remove them first")));
    }
    Ok(())
}

} // verus!
