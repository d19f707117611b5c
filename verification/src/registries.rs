//! Image registries: the values a registry is created and updated with,
//! and the Registry v2 URLs its catalogue is read from.

use vstd::prelude::*;
use crate::columns::flag;
use crate::error::{AppError, ErrKind};
use crate::text::{cat2, cat4, chars_of, copy_opt, opt_view, string_of, views};

verus! {

/// `POST /admin/registries`.
pub struct CreateRegistryRequest {
    pub name: String,
    pub endpoint: String,
    pub username: Option<String>,
    pub password: Option<String>,
    pub is_default: Option<bool>,
    pub priority: Option<i16>,
}

/// `PUT /admin/registries/:id`.
pub struct UpdateRegistryRequest {
    pub name: Option<String>,
    pub endpoint: Option<String>,
    pub username: Option<String>,
    pub password: Option<String>,
    pub is_default: Option<bool>,
    pub priority: Option<i16>,
    pub is_active: Option<bool>,
}

/// A registry as stored (its password aside).
pub struct RegistryRow {
    pub name: String,
    pub endpoint: String,
    pub username: Option<String>,
    pub is_default: i8,
    pub priority: i16,
    pub is_active: i8,
}

/// A new registry is not the default and has priority 100 unless the
/// request says otherwise.
pub fn registry_create_defaults(body: &CreateRegistryRequest) -> (r: (i8, i16))
    ensures
        r.0 == flag(match body.is_default {
            Some(b) => b,
            None => false,
        }),
        r.1 == (match body.priority {
            Some(p) => p,
            None => 100,
        }),
{
    let d = match body.is_default {
        Some(b) => b,
        None => false,
    };
    (if d {
        1
    } else {
        0
    }, match body.priority {
        Some(p) => p,
        None => 100,
    })
}

/// What an update writes: each given field replaces the stored one; the
/// password is replaced only when one is given.
pub fn registry_update(existing: &RegistryRow, body: &UpdateRegistryRequest) -> (r: (RegistryRow, Option<String>))
    ensures
        r.0.name@ == (match body.name {
            Some(x) => x@,
            None => existing.name@,
        }),
        r.0.endpoint@ == (match body.endpoint {
            Some(x) => x@,
            None => existing.endpoint@,
        }),
        opt_view(r.0.username) == (match body.username {
            Some(x) => Some(x@),
            None => opt_view(existing.username),
        }),
        r.0.is_default == (match body.is_default {
            Some(b) => flag(b),
            None => existing.is_default,
        }),
        r.0.priority == (match body.priority {
            Some(p) => p,
            None => existing.priority,
        }),
        r.0.is_active == (match body.is_active {
            Some(b) => flag(b),
            None => existing.is_active,
        }),
        r.1 == body.password,
{
    let row = RegistryRow {
        name: match &body.name {
            Some(x) => x.clone(),
            None => existing.name.clone(),
        },
        endpoint: match &body.endpoint {
            Some(x) => x.clone(),
            None => existing.endpoint.clone(),
        },
        username: match &body.username {
            Some(x) => Some(x.clone()),
            None => copy_opt(&existing.username),
        },
        is_default: match body.is_default {
            Some(b) => if b {
                1
            } else {
                0
            },
            None => existing.is_default,
        },
        priority: match body.priority {
            Some(p) => p,
            None => existing.priority,
        },
        is_active: match body.is_active {
            Some(b) => if b {
                1
            } else {
                0
            },
            None => existing.is_active,
        },
    };
    (row, copy_opt(&body.password))
}

/// A registry id that does not exist (404).
pub fn registry_not_found(id: &str) -> (e: AppError)
    ensures
        e.as_pair() == (ErrKind::NotFound, "registry "@ + id@),
{
    AppError::NotFound(cat2("registry ", id))
}

// ── Registry v2 URLs ────────────────────────────────────────────────────────

/// The text without its trailing `/` characters (`trim_end_matches('/')`).
pub open spec fn trim_slashes(s: Seq<char>) -> Seq<char>
    decreases s.len(),
{
    if s.len() > 0 && s.last() == '/' {
        trim_slashes(s.drop_last())
    } else {
        s
    }
}

/// Drops the trailing `/` characters of a text.
pub fn trim_trailing_slashes(s: &str) -> (r: Vec<char>)
    ensures
        r@ == trim_slashes(s@),
{
    let mut v = chars_of(s);
    while v.len() > 0 && v[v.len() - 1] == '/'
        invariant
            trim_slashes(v@) == trim_slashes(s@),
        decreases v.len(),
    {
        let ghost before = v@;
        v.pop();
        assert(v@ =~= before.drop_last());
    }
    v
}

/// The catalogue URL of a registry endpoint.
pub fn catalog_url(endpoint: &str) -> (u: String)
    ensures
        u@ == trim_slashes(endpoint@) + "/v2/_catalog"@,
{
    let base = string_of(&trim_trailing_slashes(endpoint));
    cat2(base.as_str(), "/v2/_catalog")
}

/// The tag list URL of a repository.
pub fn tags_url(endpoint: &str, repo: &str) -> (u: String)
    ensures
        u@ == trim_slashes(endpoint@) + "/v2/"@ + repo@ + "/tags/list"@,
{
    let base = string_of(&trim_trailing_slashes(endpoint));
    cat4(base.as_str(), "/v2/", repo, "/tags/list")
}

/// The most catalogue entries whose tags are fetched.
pub const MAX_SCANNED_REPOS: usize = 50;

/// The repositories whose tags are listed: among the first 50 catalogue
/// entries, those that are strings, in catalogue order.
pub open spec fn scanned_repos(entries: Seq<Option<Seq<char>>>) -> Seq<Seq<char>>
    decreases entries.len(),
{
    if entries.len() == 0 {
        Seq::empty()
    } else {
        let e = entries.take(entries.len() - 1);
        let rest = scanned_repos(e);
        if entries.len() <= MAX_SCANNED_REPOS {
            match entries.last() {
                Some(name) => rest.push(name),
                None => rest,
            }
        } else {
            rest
        }
    }
}

/// Picks the repositories to scan from the catalogue's entries (`None` for
/// an entry that is not a string).
pub fn repos_to_scan(entries: &Vec<Option<String>>) -> (r: Vec<String>)
    ensures
        views(r@) == scanned_repos(entries@.map_values(|e: Option<String>| opt_view(e))),
{
    let ghost all = entries@.map_values(|e: Option<String>| opt_view(e));
    let mut r: Vec<String> = Vec::new();
    let mut i: usize = 0;
    while i < entries.len() && i < MAX_SCANNED_REPOS
        invariant
            i <= entries.len(),
            i <= MAX_SCANNED_REPOS,
            all == entries@.map_values(|e: Option<String>| opt_view(e)),
            views(r@) == scanned_repos(all.take(i as int)),
        decreases entries.len() - i,
    {
        proof {
            assert(all.take(i as int + 1).take(i as int) =~= all.take(i as int));
            assert(all.take(i as int + 1).last() == opt_view(entries@[i as int]));
        }
        match &entries[i] {
            Some(name) => {
                r.push(name.clone());
            },
            None => {},
        }
        assert(views(r@) =~= scanned_repos(all.take(i as int + 1)));
        i += 1;
    }
    proof {
        lemma_scanned_prefix(all, i as nat);
    }
    r
}

/// Entries past the 50th add nothing.
proof fn lemma_scanned_prefix(all: Seq<Option<Seq<char>>>, i: nat)
    requires
        i <= all.len(),
        i == all.len() || i == MAX_SCANNED_REPOS,
    ensures
        scanned_repos(all.take(i as int)) == scanned_repos(all),
    decreases all.len() - i,
{
    if i < all.len() {
        let n = all.len();
        lemma_scanned_prefix(all.take(n - 1), i);
        assert(all.take(n - 1).take(i as int) =~= all.take(i as int));
        assert(all.take(n as int) =~= all);
        assert(all.take(n - 1) =~= all.take(all.len() - 1));
    } else {
        assert(all.take(i as int) =~= all);
    }
}

} // verus!
