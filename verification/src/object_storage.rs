//! Object storage: S3-compatible backup targets and the backup schedules
//! attached to apps.

use vstd::prelude::*;
use crate::columns::flag;
use crate::access::AuthUser;
use crate::error::{bad_request, forbidden, AppError, ErrKind};
use crate::registries::{trim_slashes, trim_trailing_slashes};
use crate::text::{
    cat2, cat3, chars_of, chars_starts_with, copy_opt, dec, decimal_string, is_space, is_space_char, opt_view, owned,
    starts_with, str_eq, string_of,
};

verus! {

/// `POST /admin/s3-targets`.
pub struct CreateTargetRequest {
    pub name: String,
    pub endpoint: String,
    pub region: Option<String>,
    pub access_key_id: String,
    pub secret_key: String,
    pub bucket_name: String,
}

/// `PUT /admin/s3-targets/:id`.
pub struct UpdateTargetRequest {
    pub name: Option<String>,
    pub endpoint: Option<String>,
    pub region: Option<String>,
    pub access_key_id: Option<String>,
    pub secret_key: Option<String>,
    pub bucket_name: Option<String>,
    pub is_active: Option<bool>,
}

/// `POST /projects/:pid/apps/:aid/backups`.
pub struct CreateBackupRequest {
    pub s3_target_id: String,
    pub cron_expr: String,
    pub retention_days: Option<u16>,
    pub backup_type: Option<String>,
    pub db_instance_id: Option<String>,
}

/// `PUT /projects/:pid/apps/:aid/backups/:bid`.
pub struct UpdateBackupRequest {
    pub cron_expr: Option<String>,
    pub retention_days: Option<u16>,
    pub is_active: Option<bool>,
}

/// `POST /admin/s3-targets/test`.
pub struct TestTargetRequest {
    pub endpoint: String,
    pub region: Option<String>,
    pub access_key_id: String,
    pub secret_key: String,
    pub bucket_name: String,
}

/// `GET /backups?s3_target_id=`.
pub struct BackupListQuery {
    pub s3_target_id: Option<String>,
}

// ── Targets ─────────────────────────────────────────────────────────────────

/// An S3 target as stored (its secret aside).
pub struct TargetRow {
    pub name: String,
    pub endpoint: String,
    pub region: Option<String>,
    pub access_key_id: String,
    pub bucket_name: String,
    pub is_active: i8,
}

/// What a target update writes: each given field replaces the stored one;
/// the secret is replaced only when one is given.
pub fn target_update(existing: &TargetRow, body: &UpdateTargetRequest) -> (r: (TargetRow, Option<String>))
    ensures
        r.0.name@ == (match body.name {
            Some(x) => x@,
            None => existing.name@,
        }),
        r.0.endpoint@ == (match body.endpoint {
            Some(x) => x@,
            None => existing.endpoint@,
        }),
        opt_view(r.0.region) == (match body.region {
            Some(x) => Some(x@),
            None => opt_view(existing.region),
        }),
        r.0.access_key_id@ == (match body.access_key_id {
            Some(x) => x@,
            None => existing.access_key_id@,
        }),
        r.0.bucket_name@ == (match body.bucket_name {
            Some(x) => x@,
            None => existing.bucket_name@,
        }),
        r.0.is_active == (match body.is_active {
            Some(b) => flag(b),
            None => existing.is_active,
        }),
        r.1 == body.secret_key,
{
    let row = TargetRow {
        name: match &body.name {
            Some(x) => x.clone(),
            None => existing.name.clone(),
        },
        endpoint: match &body.endpoint {
            Some(x) => x.clone(),
            None => existing.endpoint.clone(),
        },
        region: match &body.region {
            Some(x) => Some(x.clone()),
            None => copy_opt(&existing.region),
        },
        access_key_id: match &body.access_key_id {
            Some(x) => x.clone(),
            None => existing.access_key_id.clone(),
        },
        bucket_name: match &body.bucket_name {
            Some(x) => x.clone(),
            None => existing.bucket_name.clone(),
        },
        is_active: match body.is_active {
            Some(b) => if b {
                1
            } else {
                0
            },
            None => existing.is_active,
        },
    };
    (row, copy_opt(&body.secret_key))
}

/// A target used by active schedules cannot be deleted (409).
pub fn check_target_deletable(active_schedules: i64) -> (r: Result<(), AppError>)
    ensures
        r is Ok <==> active_schedules <= 0,
        r matches Err(e) ==> e.as_pair() == (ErrKind::Conflict, "s3 target has "@ + dec(active_schedules as nat)
            + " active backup schedules; disable them first"@),
{
    if active_schedules > 0 {
        let n = decimal_string(active_schedules as u64);
        return Err(
            AppError::Conflict(cat3("s3 target has ", n.as_str(), " active backup schedules; disable them first")),
        );
    }
    Ok(())
}

/// A schedule must name an existing, active target (404).
pub fn require_active_target(active_count: i64, target_id: &str) -> (r: Result<(), AppError>)
    ensures
        r is Ok <==> active_count != 0,
        r matches Err(e) ==> e.as_pair() == (ErrKind::NotFound, "s3 target "@ + target_id@),
{
    if active_count == 0 {
        return Err(AppError::NotFound(cat2("s3 target ", target_id)));
    }
    Ok(())
}

// ── Schedules ───────────────────────────────────────────────────────────────

/// The number of whitespace-separated fields of a text (what
/// `split_whitespace().count()` gives): the positions where a field starts.
pub open spec fn field_count(s: Seq<char>) -> nat
    decreases s.len(),
{
    if s.len() == 0 {
        0
    } else {
        let n = s.len() - 1;
        let starts = !is_space(s[n]) && (n == 0 || is_space(s[n - 1]));
        field_count(s.drop_last()) + if starts {
            1nat
        } else {
            0nat
        }
    }
}

/// Counts the whitespace-separated fields of a text.
pub fn count_fields(s: &str) -> (n: usize)
    ensures
        n == field_count(s@),
{
    let v = chars_of(s);
    let mut n: usize = 0;
    let mut i: usize = 0;
    while i < v.len()
        invariant
            v@ == s@,
            i <= v.len(),
            n == field_count(v@.take(i as int)),
            n <= i,
        decreases v.len() - i,
    {
        assert(v@.take(i as int + 1).drop_last() =~= v@.take(i as int));
        if !is_space_char(v[i]) && (i == 0 || is_space_char(v[i - 1])) {
            n += 1;
        }
        i += 1;
    }
    assert(v@.take(v.len() as int) =~= v@);
    n
}

/// A schedule's cron expression has five fields (minute hour dom month dow).
pub fn check_cron_expr(cron_expr: &str) -> (r: Result<(), AppError>)
    ensures
        r is Ok <==> field_count(cron_expr@) == 5,
        r matches Err(e) ==> e.as_pair() == (
            ErrKind::BadRequest,
            "cron_expr must have 5 fields (minute hour dom month dow)"@,
        ),
{
    if count_fields(cron_expr) != 5 {
        return Err(bad_request("cron_expr must have 5 fields (minute hour dom month dow)"));
    }
    Ok(())
}

/// An update's cron expression, when given, has five fields too.
pub fn check_cron_update(cron_expr: &Option<String>) -> (r: Result<(), AppError>)
    ensures
        r is Ok <==> (match *cron_expr {
            Some(c) => field_count(c@) == 5,
            None => true,
        }),
        r matches Err(e) ==> e.as_pair() == (ErrKind::BadRequest, "cron_expr must have 5 fields"@),
{
    match cron_expr {
        Some(c) => if count_fields(c.as_str()) != 5 {
            return Err(bad_request("cron_expr must have 5 fields"));
        },
        None => {},
    }
    Ok(())
}

/// The kinds of backup a schedule may take.
pub open spec fn backup_type_ok(t: Seq<char>) -> bool {
    t == "FILES"@ || t == "DB_DUMP"@ || t == "BOTH"@
}

/// The backup type of a new schedule: `FILES` unless given; a given one
/// must be `FILES`, `DB_DUMP` or `BOTH`.
pub fn backup_type_of(requested: &Option<String>) -> (r: Result<String, AppError>)
    ensures
        match *requested {
            None => r matches Ok(t) && t@ == "FILES"@,
            Some(t) => if backup_type_ok(t@) {
                r matches Ok(x) && x@ == t@
            } else {
                r matches Err(e) && e.as_pair() == (ErrKind::BadRequest, "backup_type must be FILES, DB_DUMP, or BOTH"@)
            },
        },
{
    match requested {
        None => Ok(owned("FILES")),
        Some(t) => if str_eq(t.as_str(), "FILES") || str_eq(t.as_str(), "DB_DUMP") || str_eq(t.as_str(), "BOTH") {
            Ok(t.clone())
        } else {
            Err(bad_request("backup_type must be FILES, DB_DUMP, or BOTH"))
        },
    }
}

/// A schedule keeps its backups for 7 days unless told otherwise.
pub fn retention_or_default(retention_days: Option<u16>) -> (d: u16)
    ensures
        d == (match retention_days {
            Some(x) => x,
            None => 7,
        }),
{
    match retention_days {
        Some(x) => x,
        None => 7,
    }
}

// ── Connection test ─────────────────────────────────────────────────────────

/// The endpoint with a scheme: kept when it starts with `http`, else
/// reached over `https://`.
pub open spec fn endpoint_with_scheme(endpoint: Seq<char>) -> Seq<char> {
    if starts_with(endpoint, "http"@) {
        endpoint
    } else {
        "https://"@ + endpoint
    }
}

/// The URL a connection test reads: the bucket under the endpoint.
pub fn bucket_probe_url(endpoint: &str, bucket_name: &str) -> (u: String)
    ensures
        u@ == trim_slashes(endpoint_with_scheme(endpoint@)) + "/"@ + bucket_name@ + "/"@,
{
    let e = chars_of(endpoint);
    let http = chars_of("http");
    let with_scheme = if chars_starts_with(&e, &http) {
        owned(endpoint)
    } else {
        cat2("https://", endpoint)
    };
    let base = string_of(&trim_trailing_slashes(with_scheme.as_str()));
    cat3(base.as_str(), "/", cat2(bucket_name, "/").as_str())
}

/// The outcome of a connection test from the HTTP status it got: 200, 403
/// and 404 all prove the endpoint reachable.
pub fn probe_outcome(status: u16) -> (r: Result<u16, AppError>)
    ensures
        (status == 200 || status == 403 || status == 404) ==> r == Ok::<u16, AppError>(status),
        !(status == 200 || status == 403 || status == 404) ==> (r matches Err(e) && e.as_pair() == (
            ErrKind::BadRequest,
            "S3 endpoint returned unexpected status "@ + dec(status as nat),
        )),
{
    if status == 200 || status == 403 || status == 404 {
        Ok(status)
    } else {
        let n = decimal_string(status as u64);
        Err(AppError::BadRequest(cat2("S3 endpoint returned unexpected status ", n.as_str())))
    }
}

// ── Backup listing ──────────────────────────────────────────────────────────

/// A backup schedule in the aggregate listing, of an app or of one of its
/// managed volumes.
pub struct BackupEntry {
    pub id: String,
    pub s3_target_id: String,
}

/// The entries kept by the target filter.
pub open spec fn on_target(filter: Option<Seq<char>>, e: BackupEntry) -> bool {
    match filter {
        Some(f) => e.s3_target_id@ == f,
        None => true,
    }
}

/// The ids kept from a list of entries, in order.
pub open spec fn kept_ids(entries: Seq<BackupEntry>, filter: Option<Seq<char>>) -> Seq<Seq<char>>
    decreases entries.len(),
{
    if entries.len() == 0 {
        Seq::empty()
    } else {
        let prev = kept_ids(entries.drop_last(), filter);
        if on_target(filter, entries.last()) {
            prev.push(entries.last().id@)
        } else {
            prev
        }
    }
}

/// Without a target filter every schedule is listed, in order.
pub proof fn no_filter_keeps_all(entries: Seq<BackupEntry>)
    ensures
        kept_ids(entries, None) == entries.map_values(|e: BackupEntry| e.id@),
    decreases entries.len(),
{
    if entries.len() > 0 {
        no_filter_keeps_all(entries.drop_last());
        assert(entries.drop_last().map_values(|e: BackupEntry| e.id@).push(entries.last().id@)
            =~= entries.map_values(|e: BackupEntry| e.id@));
    } else {
        assert(entries.map_values(|e: BackupEntry| e.id@) =~= Seq::<Seq<char>>::empty());
    }
}

/// Appends to `out` the entries on the target (all of them without a
/// filter), in order.
fn keep_on_target(out: &mut Vec<BackupEntry>, entries: &Vec<BackupEntry>, filter: &Option<String>)
    ensures
        final(out)@.map_values(|e: BackupEntry| e.id@) == old(out)@.map_values(|e: BackupEntry| e.id@) + kept_ids(
            entries@,
            opt_view(*filter),
        ),
        forall|i: int| 0 <= i < final(out).len() - old(out).len() ==> on_target(
            opt_view(*filter),
            #[trigger] final(out)@[old(out).len() + i],
        ),
        forall|i: int| 0 <= i < old(out).len() ==> #[trigger] final(out)@[i] == old(out)@[i],
{
    let ghost start = out@;
    let mut i: usize = 0;
    while i < entries.len()
        invariant
            i <= entries.len(),
            start.len() <= out.len(),
            forall|j: int| 0 <= j < start.len() ==> #[trigger] out@[j] == start[j],
            out@.map_values(|e: BackupEntry| e.id@) == start.map_values(|e: BackupEntry| e.id@) + kept_ids(
                entries@.take(i as int),
                opt_view(*filter),
            ),
            forall|j: int| 0 <= j < out.len() - start.len() ==> on_target(opt_view(*filter), #[trigger] out@[start.len() + j]),
        decreases entries.len() - i,
    {
        let e = &entries[i];
        let keep = match filter {
            Some(f) => str_eq(e.s3_target_id.as_str(), f.as_str()),
            None => true,
        };
        assert(entries@.take(i as int + 1).drop_last() =~= entries@.take(i as int));
        assert(entries@.take(i as int + 1).last() == entries@[i as int]);
        assert(keep == on_target(opt_view(*filter), entries@[i as int]));
        let ghost prev_map = out@.map_values(|e: BackupEntry| e.id@);
        if keep {
            out.push(BackupEntry { id: e.id.clone(), s3_target_id: e.s3_target_id.clone() });
            assert(out@.map_values(|e: BackupEntry| e.id@) =~= prev_map.push(entries@[i as int].id@));
        }
        assert(out@.map_values(|e: BackupEntry| e.id@) =~= start.map_values(|e: BackupEntry| e.id@) + kept_ids(
            entries@.take(i as int + 1),
            opt_view(*filter),
        ));
        i += 1;
    }
    assert(entries@.take(entries.len() as int) =~= entries@);
}

/// `GET /backups`: the app schedules, then the volume schedules, each kept
/// when on the requested target (all of them without one).
pub fn list_backups_on_target(
    app_entries: &Vec<BackupEntry>,
    volume_entries: &Vec<BackupEntry>,
    filter: &Option<String>,
) -> (r: Vec<BackupEntry>)
    ensures
        r@.map_values(|e: BackupEntry| e.id@) == kept_ids(app_entries@, opt_view(*filter)) + kept_ids(
            volume_entries@,
            opt_view(*filter),
        ),
        forall|i: int| 0 <= i < r.len() ==> on_target(opt_view(*filter), #[trigger] r@[i]),
{
    let mut r: Vec<BackupEntry> = Vec::new();
    keep_on_target(&mut r, app_entries, filter);
    let ghost mid = r@;
    keep_on_target(&mut r, volume_entries, filter);
    proof {
        assert forall|i: int| 0 <= i < r.len() implies on_target(opt_view(*filter), #[trigger] r@[i]) by {
            if i < mid.len() {
                assert(r@[i] == mid[i]);
                assert(mid[0 + i] == mid[i]);
            } else {
                assert(r@[mid.len() + (i - mid.len())] == r@[i]);
            }
        }
    }
    assert(Seq::<BackupEntry>::empty().map_values(|e: BackupEntry| e.id@) =~= Seq::<Seq<char>>::empty());
    proof {
        assert(r@.map_values(|e: BackupEntry| e.id@) =~= kept_ids(app_entries@, opt_view(*filter)) + kept_ids(
            volume_entries@,
            opt_view(*filter),
        ));
    }
    r
}

// ── Backup files ────────────────────────────────────────────────────────────

/// `DELETE /backups/:s3_target_id/file`: reserved to administrators, and
/// not offered (files are deleted with an S3 client).
pub fn delete_backup_file(auth: &AuthUser) -> (r: Result<(), AppError>)
    ensures
        !auth.is_global_admin ==> (r matches Err(e) && e.as_pair() == (ErrKind::Forbidden, "admin only"@)),
        auth.is_global_admin ==> (r matches Err(e) && e.as_pair() == (
            ErrKind::BadRequest,
            "S3 file deletion not yet implemented. Use your S3 client directly."@,
        )),
{
    if !auth.is_global_admin {
        return Err(forbidden("admin only"));
    }
    Err(bad_request("S3 file deletion not yet implemented. Use your S3 client directly."))
}

/// `GET /backups/:s3_target_id/download`: reserved to administrators, and
/// not offered either.
pub fn download_backup_file(auth: &AuthUser) -> (r: Result<(), AppError>)
    ensures
        !auth.is_global_admin ==> (r matches Err(e) && e.as_pair() == (ErrKind::Forbidden, "admin only"@)),
        auth.is_global_admin ==> (r matches Err(e) && e.as_pair() == (
            ErrKind::BadRequest,
            "S3 file download not yet implemented. Use your S3 client directly."@,
        )),
{
    if !auth.is_global_admin {
        return Err(forbidden("admin only"));
    }
    Err(bad_request("S3 file download not yet implemented. Use your S3 client directly."))
}

} // verus!
