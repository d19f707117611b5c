//! Managed databases: how an instance and its user are named, its generated
//! password, who may read its credentials, and the database clusters that
//! host instances.

use vstd::prelude::*;
use crate::columns::flag;
use rand::Rng;
use crate::clusters::is_lower_hex;
use crate::error::{forbidden, AppError, ErrKind};
use crate::text::{cat2, cat3, cat4, chars_of, copy_opt, dec, decimal_string, is_ascii_alnum, opt_view, str_eq, string_of};

verus! {

/// `POST /projects/:pid/databases`.
pub struct CreateDbRequest {
    pub cluster_id: String,
    pub name: String,
}

/// The database of an instance: `p_<project>_<name>`.
pub fn db_name_for(project_name: &str, name: &str) -> (r: String)
    ensures
        r@ == "p_"@ + project_name@ + "_"@ + name@,
{
    cat4("p_", project_name, "_", name)
}

/// The text of a random (version 4) UUID in hyphenated form: 36 characters,
/// `-` at positions 8, 13, 18 and 23, lowercase hexadecimal elsewhere.
pub open spec fn hyphenated_uuid(s: Seq<char>) -> bool {
    &&& s.len() == 36
    &&& forall|i: int|
        0 <= i < 36 ==> if i == 8 || i == 13 || i == 18 || i == 23 {
            #[trigger] s[i] == '-'
        } else {
            is_lower_hex(s[i])
        }
}

/// Trusted: `uuid::Uuid::new_v4().to_string()`. The text is random; the
/// crate's `Display` writes the hyphenated lowercase form.
#[verifier::external_body]
pub(crate) fn new_uuid_text() -> (s: String)
    ensures
        hyphenated_uuid(s@),
{
    uuid::Uuid::new_v4().to_string()
}

/// The first `n` characters of a text whose first `n` characters are ASCII
/// (there, characters and bytes coincide).
fn ascii_prefix(s: &str, n: usize) -> (r: String)
    requires
        n <= s@.len(),
        forall|i: int| 0 <= i < n ==> (#[trigger] s@[i] as u32) < 128,
    ensures
        r@ == s@.take(n as int),
{
    let v = chars_of(s);
    let mut out: Vec<char> = Vec::new();
    let mut i: usize = 0;
    while i < n
        invariant
            v@ == s@,
            n <= v.len(),
            i <= n,
            out@ == v@.take(i as int),
        decreases n - i,
    {
        out.push(v[i]);
        assert(out@ =~= v@.take(i as int + 1));
        i += 1;
    }
    string_of(&out)
}

/// The database user of an instance: `u_<username>_` and the first six
/// characters of an id (which must be ASCII there).
pub fn db_user_with(username: &str, id: &str) -> (r: String)
    requires
        id@.len() >= 6,
        forall|i: int| 0 <= i < 6 ==> (#[trigger] id@[i] as u32) < 128,
    ensures
        r@ == "u_"@ + username@ + "_"@ + id@.take(6),
{
    let suffix = ascii_prefix(id, 6);
    cat4("u_", username, "_", suffix.as_str())
}

/// A fresh database user name, its suffix taken from a random UUID: six
/// lowercase hexadecimal digits.
pub fn db_user_for(username: &str) -> (r: String)
    ensures
        exists|s: Seq<char>|
            s.len() == 6 && (forall|i: int| 0 <= i < 6 ==> is_lower_hex(#[trigger] s[i])) && r@ == "u_"@
                + username@ + "_"@ + s,
{
    let id = new_uuid_text();
    proof {
        assert forall|i: int| 0 <= i < 6 implies (#[trigger] id@[i] as u32) < 128 && is_lower_hex(id@[i]) by {
            assert(is_lower_hex(id@[i]));
        }
    }
    let r = db_user_with(username, id.as_str());
    assert(forall|i: int| 0 <= i < 6 ==> is_lower_hex(#[trigger] id@.take(6)[i]));
    r
}

/// The Kubernetes secret of an instance: `db-` and the first eight
/// characters of its id (which must be ASCII there).
pub fn db_secret_name(id: &str) -> (r: String)
    requires
        id@.len() >= 8,
        forall|i: int| 0 <= i < 8 ==> (#[trigger] id@[i] as u32) < 128,
    ensures
        r@ == "db-"@ + id@.take(8),
{
    let prefix = ascii_prefix(id, 8);
    cat2("db-", prefix.as_str())
}

/// The id of a new instance (a random UUID) and the name of its secret.
pub fn new_instance_ids() -> (r: (String, String))
    ensures
        hyphenated_uuid(r.0@),
        r.1@ == "db-"@ + r.0@.take(8),
{
    let id = new_uuid_text();
    proof {
        assert forall|i: int| 0 <= i < 8 implies (#[trigger] id@[i] as u32) < 128 by {
            assert(is_lower_hex(id@[i]));
        }
    }
    let secret = db_secret_name(id.as_str());
    (id, secret)
}

// ── Generated passwords ─────────────────────────────────────────────────────

/// The characters a generated password is drawn from.
pub const PASSWORD_ALPHABET: &'static str = "abcdefghijklmnopqrstuvwxyzABCDEFGHIJKLMNOPQRSTUVWXYZ0123456789";

/// Trusted: `rand::Rng::gen_range(0..n)` on the thread-local generator,
/// which asserts a non-empty range and returns a value inside it.
#[verifier::external_body]
pub(crate) fn random_below(n: usize) -> (r: usize)
    requires
        n > 0,
    ensures
        r < n,
{
    rand::thread_rng().gen_range(0..n)
}

/// The password of the given alphabet positions.
pub fn password_from_indices(indices: &Vec<usize>) -> (p: String)
    requires
        forall|i: int| 0 <= i < indices.len() ==> #[trigger] indices@[i] < PASSWORD_ALPHABET@.len(),
    ensures
        p@.len() == indices.len(),
        forall|i: int| 0 <= i < indices.len() ==> #[trigger] p@[i] == PASSWORD_ALPHABET@[indices@[i] as int],
{
    let alphabet = chars_of(PASSWORD_ALPHABET);
    let mut out: Vec<char> = Vec::new();
    let mut i: usize = 0;
    while i < indices.len()
        invariant
            alphabet@ == PASSWORD_ALPHABET@,
            forall|j: int| 0 <= j < indices.len() ==> #[trigger] indices@[j] < PASSWORD_ALPHABET@.len(),
            i <= indices.len(),
            out.len() == i,
            forall|j: int| 0 <= j < i ==> #[trigger] out@[j] == PASSWORD_ALPHABET@[indices@[j] as int],
        decreases indices.len() - i,
    {
        out.push(alphabet[indices[i]]);
        i += 1;
    }
    string_of(&out)
}

/// A fresh database password: 24 characters drawn at random from the ASCII
/// letters and digits.
pub fn generate_password() -> (p: String)
    ensures
        p@.len() == 24,
        forall|i: int| 0 <= i < 24 ==> is_ascii_alnum(#[trigger] p@[i]),
{
    proof {
        reveal_strlit("abcdefghijklmnopqrstuvwxyzABCDEFGHIJKLMNOPQRSTUVWXYZ0123456789");
    }
    let n = chars_of(PASSWORD_ALPHABET).len();
    let mut indices: Vec<usize> = Vec::new();
    let mut i: usize = 0;
    while i < 24
        invariant
            n == PASSWORD_ALPHABET@.len(),
            n == 62,
            i <= 24,
            indices.len() == i,
            forall|j: int| 0 <= j < i ==> #[trigger] indices@[j] < n,
        decreases 24 - i,
    {
        indices.push(random_below(n));
        i += 1;
    }
    let p = password_from_indices(&indices);
    proof {
        assert forall|k: int| 0 <= k < 62 implies is_ascii_alnum(#[trigger] PASSWORD_ALPHABET@[k]) by {
            reveal_strlit("abcdefghijklmnopqrstuvwxyzABCDEFGHIJKLMNOPQRSTUVWXYZ0123456789");
        }
        assert forall|j: int| 0 <= j < 24 implies is_ascii_alnum(#[trigger] p@[j]) by {
            assert(p@[j] == PASSWORD_ALPHABET@[indices@[j] as int]);
        }
    }
    p
}

// ── Credentials ─────────────────────────────────────────────────────────────

/// Who may read a project database's credentials: global administrators,
/// the project's owner, and its members other than observers. A caller who
/// is none of these is not a member (403); an observer is refused (403).
pub fn check_credentials_visible(is_global_admin: bool, is_owner: bool, role: &Option<String>) -> (r: Result<(), AppError>)
    ensures
        r is Ok <==> (is_global_admin || is_owner || (role is Some && opt_view(*role) != Some("OBSERVER"@))),
        !is_global_admin && !is_owner && role is None ==> (r matches Err(e) && e.as_pair() == (
            ErrKind::Forbidden,
            "not a member of this project"@,
        )),
        !is_global_admin && !is_owner && opt_view(*role) == Some("OBSERVER"@) ==> (r matches Err(e) && e.as_pair()
            == (ErrKind::Forbidden, "OBSERVER cannot view credentials"@)),
{
    if is_global_admin || is_owner {
        return Ok(());
    }
    match role {
        None => Err(forbidden("not a member of this project")),
        Some(x) => if str_eq(x.as_str(), "OBSERVER") {
            Err(forbidden("OBSERVER cannot view credentials"))
        } else {
            Ok(())
        },
    }
}

// ── Database clusters ───────────────────────────────────────────────────────

/// `POST /admin/database-clusters`.
pub struct CreateClusterRequest {
    pub name: String,
    pub cluster_type: String,
    pub host: String,
    pub port: u16,
    pub admin_user: String,
    pub admin_password: String,
    pub max_databases: Option<u32>,
    pub description: Option<String>,
    pub manager_url: Option<String>,
}

/// `PUT /admin/database-clusters/:id`.
pub struct UpdateClusterRequest {
    pub host: Option<String>,
    pub port: Option<u16>,
    pub admin_user: Option<String>,
    pub admin_password: Option<String>,
    pub max_databases: Option<u32>,
    pub description: Option<String>,
    pub manager_url: Option<String>,
    pub is_active: Option<bool>,
}

/// A database cluster as stored (its password aside).
pub struct DbClusterRow {
    pub host: String,
    pub port: u16,
    pub admin_user: String,
    pub max_databases: u32,
    pub description: Option<String>,
    pub manager_url: Option<String>,
    pub is_active: i8,
}

/// What an update writes: each given field replaces the stored one; the
/// admin password is replaced only when one is given.
pub fn db_cluster_update(existing: &DbClusterRow, body: &UpdateClusterRequest) -> (r: (DbClusterRow, Option<String>))
    ensures
        r.0.host@ == (match body.host {
            Some(x) => x@,
            None => existing.host@,
        }),
        r.0.port == (match body.port {
            Some(p) => p,
            None => existing.port,
        }),
        r.0.admin_user@ == (match body.admin_user {
            Some(x) => x@,
            None => existing.admin_user@,
        }),
        r.0.max_databases == (match body.max_databases {
            Some(m) => m,
            None => existing.max_databases,
        }),
        opt_view(r.0.description) == (match body.description {
            Some(x) => Some(x@),
            None => opt_view(existing.description),
        }),
        opt_view(r.0.manager_url) == (match body.manager_url {
            Some(x) => Some(x@),
            None => opt_view(existing.manager_url),
        }),
        r.0.is_active == (match body.is_active {
            Some(b) => flag(b),
            None => existing.is_active,
        }),
        r.1 == body.admin_password,
{
    let row = DbClusterRow {
        host: match &body.host {
            Some(x) => x.clone(),
            None => existing.host.clone(),
        },
        port: match body.port {
            Some(p) => p,
            None => existing.port,
        },
        admin_user: match &body.admin_user {
            Some(x) => x.clone(),
            None => existing.admin_user.clone(),
        },
        max_databases: match body.max_databases {
            Some(m) => m,
            None => existing.max_databases,
        },
        description: match &body.description {
            Some(x) => Some(x.clone()),
            None => copy_opt(&existing.description),
        },
        manager_url: match &body.manager_url {
            Some(x) => Some(x.clone()),
            None => copy_opt(&existing.manager_url),
        },
        is_active: match body.is_active {
            Some(b) => if b {
                1
            } else {
                0
            },
            None => existing.is_active,
        },
    };
    (row, copy_opt(&body.admin_password))
}

/// A database cluster that still hosts active databases cannot be deleted
/// (409).
pub fn check_db_cluster_deletable(active_count: i64) -> (r: Result<(), AppError>)
    ensures
        r is Ok <==> active_count <= 0,
        r matches Err(e) ==> e.as_pair() == (ErrKind::Conflict, "cluster has "@ + dec(active_count as nat)
            + " active databases; drop them first"@),
{
    if active_count > 0 {
        let n = decimal_string(active_count as u64);
        return Err(AppError::Conflict(cat3("cluster has ", n.as_str(), " active databases; drop them first")));
    }
    Ok(())
}

} // verus!
