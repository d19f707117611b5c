//! Platform configuration: which keys an administrator may set, which are
//! secrets (stored encrypted, shown masked), and the storage root.

use vstd::prelude::*;
use crate::error::{bad_request, AppError, ErrKind};
use crate::text::{cat3, owned, str_eq};

verus! {

// ── Storage root ────────────────────────────────────────────────────────────

/// `PUT /admin/cluster/storage`.
pub struct UpdateStorageRequest {
    pub storage_root: String,
}

/// The storage root an administrator sets must be an absolute path.
pub fn check_storage_root(storage_root: &str) -> (r: Result<(), AppError>)
    ensures
        r is Ok <==> (storage_root@.len() > 0 && storage_root@[0] == '/'),
        r matches Err(e) ==> e.as_pair() == (ErrKind::BadRequest, "storage_root must be an absolute path"@),
{
    let v = crate::text::chars_of(storage_root);
    if v.len() == 0 || v[0] != '/' {
        return Err(bad_request("storage_root must be an absolute path"));
    }
    Ok(())
}

/// The storage root in effect: the configured one, else `/storage`.
pub fn storage_root_or_default(configured: Option<String>) -> (r: String)
    ensures
        r@ == (match configured {
            Some(s) => s@,
            None => "/storage"@,
        }),
{
    match configured {
        Some(s) => s,
        None => owned("/storage"),
    }
}

// ── Configuration keys ──────────────────────────────────────────────────────

/// `PUT /admin/config`.
pub struct SetConfigRequest {
    pub key: String,
    pub value: String,
}

/// The secret keys: stored encrypted, listed as `***`.
pub open spec fn sensitive_key(k: Seq<char>) -> bool {
    ||| k == "ldap_bind_password"@
    ||| k == "ssh_private_key"@
    ||| k == "jwt_secret"@
    ||| k == "registry_password"@
}

/// The keys an administrator may set through the API, seeded or not.
pub open spec fn settable_key(k: Seq<char>) -> bool {
    ||| k == "billing_enabled"@
    ||| k == "billing_overdue_enabled"@
    ||| k == "billing_overdue_daily_fee_pct"@
    ||| k == "billing_currency"@
    ||| k == "price_cpu_mcore_hour"@
    ||| k == "price_mem_mb_hour"@
    ||| k == "price_disk_gb_hour"@
    ||| k == "price_db_hour"@
    ||| k == "price_egress_gb"@
    ||| k == "nodeport_range_start"@
    ||| k == "nodeport_range_end"@
    ||| k == "nodeport_reserved"@
    ||| k == "frontend_url"@
    ||| k == "storage_root"@
    ||| k == "registry_host"@
    ||| k == "registry_url"@
    ||| k == "registry_username"@
    ||| k == "registry_insecure"@
    ||| sensitive_key(k)
}

/// Whether a key holds a secret.
pub fn is_sensitive_key(key: &str) -> (b: bool)
    ensures
        b == sensitive_key(key@),
{
    str_eq(key, "ldap_bind_password") || str_eq(key, "ssh_private_key") || str_eq(key, "jwt_secret")
        || str_eq(key, "registry_password")
}

/// Whether a key is on the allow-list.
pub fn is_settable_key(key: &str) -> (b: bool)
    ensures
        b == settable_key(key@),
{
    str_eq(key, "billing_enabled") || str_eq(key, "billing_overdue_enabled") || str_eq(
        key,
        "billing_overdue_daily_fee_pct",
    ) || str_eq(key, "billing_currency") || str_eq(key, "price_cpu_mcore_hour") || str_eq(
        key,
        "price_mem_mb_hour",
    ) || str_eq(key, "price_disk_gb_hour") || str_eq(key, "price_db_hour") || str_eq(key, "price_egress_gb")
        || str_eq(key, "nodeport_range_start") || str_eq(key, "nodeport_range_end") || str_eq(
        key,
        "nodeport_reserved",
    ) || str_eq(key, "frontend_url") || str_eq(key, "storage_root") || str_eq(key, "registry_host")
        || str_eq(key, "registry_url") || str_eq(key, "registry_username") || str_eq(key, "registry_insecure")
        || is_sensitive_key(key)
}

/// The value a configuration listing shows: `***` for a secret.
pub fn masked_config_value(key: &str, value: String) -> (r: String)
    ensures
        r@ == (if sensitive_key(key@) {
            "***"@
        } else {
            value@
        }),
{
    if is_sensitive_key(key) {
        owned("***")
    } else {
        value
    }
}

/// `PUT /admin/config`: a key off the allow-list may only be updated when
/// a migration seeded it (`existing` rows hold it); no new key is created.
pub fn check_config_key(key: &str, existing: i64) -> (r: Result<(), AppError>)
    ensures
        r is Ok <==> (settable_key(key@) || existing != 0),
        r matches Err(e) ==> e.as_pair() == (
            ErrKind::BadRequest,
            "unknown config key '"@ + key@ + "' \u{2014} cannot create arbitrary keys"@,
        ),
{
    if !is_settable_key(key) && existing == 0 {
        return Err(AppError::BadRequest(cat3("unknown config key '", key, "' \u{2014} cannot create arbitrary keys")));
    }
    Ok(())
}

/// Setting `jwt_secret` replaces the signing secret in memory at once.
pub fn reloads_jwt_secret(key: &str) -> (b: bool)
    ensures
        b == (key@ == "jwt_secret"@),
{
    str_eq(key, "jwt_secret")
}

/// Every secret key can be set through the API, and is then stored
/// encrypted and listed masked.
pub proof fn secrets_are_settable(k: Seq<char>)
    requires
        sensitive_key(k),
    ensures
        settable_key(k),
{
}

} // verus!
