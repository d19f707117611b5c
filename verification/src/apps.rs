//! Applications of a project: the rows their create and update requests
//! write, the quota charged when they (re)start, and the answers derived
//! from their settings.

use vstd::prelude::*;
use crate::error::{bad_request, forbidden, quota_exceeded, AppError, ErrKind};
use crate::text::{cat2, cat3, dec, decimal_string, opt_view, owned, str_eq, views};

verus! {

// ── Requests ────────────────────────────────────────────────────────────────

pub struct CreateAppRequest {
    pub name: String,
    pub display_name: Option<String>,
    pub pool_id: Option<String>,
    pub source_type: String,
    pub container_image: Option<String>,
    pub container_registry_user: Option<String>,
    pub container_registry_pass: Option<String>,
    pub git_url: Option<String>,
    pub git_branch: Option<String>,
    pub git_token: Option<String>,
    pub dockerfile_path: Option<String>,
    pub container_command: Option<String>,
    pub container_args: Option<Vec<String>>,
    pub working_dir: Option<String>,
    pub replicas: Option<u8>,
    pub cpu_reservation_mcores: Option<u32>,
    pub cpu_limit_mcores: Option<u32>,
    pub mem_reservation_mb: Option<u32>,
    pub mem_limit_mb: Option<u32>,
    pub run_as_user: Option<u32>,
    pub run_as_group: Option<u32>,
    pub fs_group: Option<u32>,
    pub privileged: Option<bool>,
    pub read_only_root_fs: Option<bool>,
    pub gpu_enabled: Option<bool>,
    pub gpu_count: Option<u8>,
    pub mount_ldap_files: Option<bool>,
    pub mount_etc_hosts: Option<bool>,
    pub mount_user_home: Option<bool>,
    pub mount_app_data: Option<bool>,
    pub mount_app_logs: Option<bool>,
    pub timezone: Option<String>,
    pub anti_affinity_enabled: Option<bool>,
    pub health_check_type: Option<String>,
    pub health_check_path: Option<String>,
    pub health_check_port: Option<u16>,
    pub health_check_scheme: Option<String>,
    pub health_check_period: Option<u16>,
    pub health_check_timeout: Option<u16>,
    pub health_check_failures: Option<u8>,
    pub app_type: Option<String>,
    pub use_network_policy: Option<bool>,
    pub ingress_network_policy: Option<String>,
    pub egress_network_policy: Option<String>,
}

pub struct UpdateAppRequest {
    pub display_name: Option<String>,
    pub pool_id: Option<String>,
    pub container_image: Option<String>,
    pub container_registry_user: Option<String>,
    pub container_registry_pass: Option<String>,
    pub git_url: Option<String>,
    pub git_branch: Option<String>,
    pub git_token: Option<String>,
    pub dockerfile_path: Option<String>,
    pub container_command: Option<String>,
    pub container_args: Option<Vec<String>>,
    pub working_dir: Option<String>,
    pub cpu_reservation_mcores: Option<u32>,
    pub cpu_limit_mcores: Option<u32>,
    pub mem_reservation_mb: Option<u32>,
    pub mem_limit_mb: Option<u32>,
    pub run_as_user: Option<u32>,
    pub run_as_group: Option<u32>,
    pub fs_group: Option<u32>,
    pub privileged: Option<bool>,
    pub read_only_root_fs: Option<bool>,
    pub gpu_enabled: Option<bool>,
    pub gpu_count: Option<u8>,
    pub mount_ldap_files: Option<bool>,
    pub mount_etc_hosts: Option<bool>,
    pub mount_user_home: Option<bool>,
    pub mount_app_data: Option<bool>,
    pub mount_app_logs: Option<bool>,
    pub timezone: Option<String>,
    pub anti_affinity_enabled: Option<bool>,
    pub health_check_type: Option<String>,
    pub health_check_path: Option<String>,
    pub health_check_port: Option<u16>,
    pub health_check_scheme: Option<String>,
    pub health_check_period: Option<u16>,
    pub health_check_timeout: Option<u16>,
    pub health_check_failures: Option<u8>,
    pub app_type: Option<String>,
    pub use_network_policy: Option<bool>,
    pub ingress_network_policy: Option<String>,
    pub egress_network_policy: Option<String>,
}

pub struct PauseRequest {
    pub reason: Option<String>,
}

pub struct ScaleRequest {
    pub replicas: i32,
}

pub struct SetEnvRequest {
    pub key: String,
    pub value: String,
    pub is_secret: Option<bool>,
}

pub struct AddPortRequest {
    pub container_port: u16,
    pub protocol: Option<String>,
}

pub struct MetricsHistoryQuery {
    pub metric: String,
    pub range: Option<String>,
    pub step: Option<u32>,
}

pub struct SetFileMountRequest {
    pub filename: String,
    pub mount_path: String,
    pub content: String,
}

pub struct AddExtraVolumeRequest {
    pub host_path: String,
    pub mount_path: String,
    pub read_only: Option<bool>,
}

pub struct BasicAuthRequest {
    pub username: String,
    pub password: String,
}

pub struct CreateManagedVolumeRequest {
    pub name: String,
    pub container_mount_path: String,
    pub share_with_others: Option<bool>,
    pub shared_volume_id: Option<String>,
}

pub struct UpdateManagedVolumeRequest {
    pub name: Option<String>,
    pub container_mount_path: Option<String>,
    pub share_with_others: Option<bool>,
}

pub struct CreateVolumeBackupRequest {
    pub s3_target_id: String,
    pub cron_expr: String,
    pub retention_days: Option<u16>,
    pub use_db_backup: Option<bool>,
}

pub struct UpdateVolumeBackupRequest {
    pub cron_expr: Option<String>,
    pub retention_days: Option<u16>,
    pub is_active: Option<bool>,
}

// ── Create ──────────────────────────────────────────────────────────────────

/// A project with a positive app quota accepts no app beyond it.
pub fn check_app_quota(existing: i64, quota: u32) -> (r: Result<(), AppError>)
    ensures
        r is Ok <==> !(quota > 0 && existing >= quota),
        r matches Err(e) ==> e.as_pair() == (ErrKind::QuotaExceeded, "project app quota reached"@),
{
    if quota > 0 && existing >= quota as i64 {
        return Err(quota_exceeded("project app quota reached"));
    }
    Ok(())
}

/// The values a new app row gets where the request leaves them open.
pub struct AppDefaults {
    pub dockerfile_path: String,
    pub replicas: u8,
    pub privileged: bool,
    pub read_only_root_fs: bool,
    pub gpu_enabled: bool,
    pub gpu_count: u8,
    pub timezone: String,
    /// ldap files, /etc/hosts, user home, app data, app logs.
    pub mounts: [bool; 5],
    pub anti_affinity_enabled: bool,
    pub health_check_type: String,
    pub health_check_scheme: String,
    pub health_check_period: u16,
    pub health_check_timeout: u16,
    pub health_check_failures: u8,
    pub app_type: String,
    pub use_network_policy: bool,
    pub ingress_network_policy: String,
    pub egress_network_policy: String,
}

pub open spec fn or_str(o: Option<String>, d: Seq<char>) -> Seq<char> {
    match o {
        Some(s) => s@,
        None => d,
    }
}

pub open spec fn or_bool(o: Option<bool>, d: bool) -> bool {
    match o {
        Some(b) => b,
        None => d,
    }
}

fn str_or(o: &Option<String>, d: &str) -> (r: String)
    ensures
        r@ == or_str(*o, d@),
{
    match o {
        Some(s) => s.clone(),
        None => owned(d),
    }
}

fn bool_or(o: Option<bool>, d: bool) -> (r: bool)
    ensures
        r == or_bool(o, d),
{
    match o {
        Some(b) => b,
        None => d,
    }
}

/// The defaults of `POST /projects/:pid/apps`: Dockerfile, one replica,
/// unprivileged, no GPU, Asia/Shanghai, every platform mount on,
/// anti-affinity on, no health check (HTTP scheme, 10 s period, 5 s timeout,
/// 3 failures), a plain APP, and no network policy (ALLOW_ALL both ways).
pub fn create_defaults(b: &CreateAppRequest) -> (d: AppDefaults)
    ensures
        d.dockerfile_path@ == or_str(b.dockerfile_path, "Dockerfile"@),
        d.replicas == (match b.replicas { Some(n) => n, None => 1 }),
        d.privileged == or_bool(b.privileged, false),
        d.read_only_root_fs == or_bool(b.read_only_root_fs, false),
        d.gpu_enabled == or_bool(b.gpu_enabled, false),
        d.gpu_count == (match b.gpu_count { Some(n) => n, None => 0 }),
        d.timezone@ == or_str(b.timezone, "Asia/Shanghai"@),
        d.mounts@ == seq![
            or_bool(b.mount_ldap_files, true),
            or_bool(b.mount_etc_hosts, true),
            or_bool(b.mount_user_home, true),
            or_bool(b.mount_app_data, true),
            or_bool(b.mount_app_logs, true),
        ],
        d.anti_affinity_enabled == or_bool(b.anti_affinity_enabled, true),
        d.health_check_type@ == or_str(b.health_check_type, "NONE"@),
        d.health_check_scheme@ == or_str(b.health_check_scheme, "HTTP"@),
        d.health_check_period == (match b.health_check_period { Some(n) => n, None => 10 }),
        d.health_check_timeout == (match b.health_check_timeout { Some(n) => n, None => 5 }),
        d.health_check_failures == (match b.health_check_failures { Some(n) => n, None => 3 }),
        d.app_type@ == or_str(b.app_type, "APP"@),
        d.use_network_policy == or_bool(b.use_network_policy, false),
        d.ingress_network_policy@ == or_str(b.ingress_network_policy, "ALLOW_ALL"@),
        d.egress_network_policy@ == or_str(b.egress_network_policy, "ALLOW_ALL"@),
{
    let mounts: [bool; 5] = [
        bool_or(b.mount_ldap_files, true),
        bool_or(b.mount_etc_hosts, true),
        bool_or(b.mount_user_home, true),
        bool_or(b.mount_app_data, true),
        bool_or(b.mount_app_logs, true),
    ];
    assert(mounts@ =~= seq![
        or_bool(b.mount_ldap_files, true),
        or_bool(b.mount_etc_hosts, true),
        or_bool(b.mount_user_home, true),
        or_bool(b.mount_app_data, true),
        or_bool(b.mount_app_logs, true),
    ]);
    AppDefaults {
        dockerfile_path: str_or(&b.dockerfile_path, "Dockerfile"),
        replicas: match b.replicas { Some(n) => n, None => 1 },
        privileged: bool_or(b.privileged, false),
        read_only_root_fs: bool_or(b.read_only_root_fs, false),
        gpu_enabled: bool_or(b.gpu_enabled, false),
        gpu_count: match b.gpu_count { Some(n) => n, None => 0 },
        timezone: str_or(&b.timezone, "Asia/Shanghai"),
        mounts,
        anti_affinity_enabled: bool_or(b.anti_affinity_enabled, true),
        health_check_type: str_or(&b.health_check_type, "NONE"),
        health_check_scheme: str_or(&b.health_check_scheme, "HTTP"),
        health_check_period: match b.health_check_period { Some(n) => n, None => 10 },
        health_check_timeout: match b.health_check_timeout { Some(n) => n, None => 5 },
        health_check_failures: match b.health_check_failures { Some(n) => n, None => 3 },
        app_type: str_or(&b.app_type, "APP"),
        use_network_policy: bool_or(b.use_network_policy, false),
        ingress_network_policy: str_or(&b.ingress_network_policy, "ALLOW_ALL"),
        egress_network_policy: str_or(&b.egress_network_policy, "ALLOW_ALL"),
    }
}

/// The answer when the app name is already used in the project.
pub fn duplicate_app_name(name: &str) -> (e: AppError)
    ensures
        e.as_pair() == (ErrKind::Conflict, "app name '"@ + name@ + "' already exists in project"@),
{
    AppError::Conflict(cat3("app name '", name, "' already exists in project"))
}

// ── Update ──────────────────────────────────────────────────────────────────

/// A column assignment of an UPDATE: (`column = ?`, bound value).
pub type Assign = (Seq<char>, Seq<char>);

pub open spec fn assigns_of(v: Seq<(String, String)>) -> Seq<Assign> {
    v.map_values(|p: (String, String)| (p.0@, p.1@))
}

pub open spec fn opt_assign(col: Seq<char>, v: Option<Seq<char>>) -> Seq<Assign> {
    match v {
        Some(x) => seq![(col, x)],
        None => Seq::empty(),
    }
}

pub open spec fn num_text_u32(v: Option<u32>) -> Option<Seq<char>> {
    match v {
        Some(n) => Some(dec(n as nat)),
        None => None,
    }
}

pub open spec fn num_text_u16(v: Option<u16>) -> Option<Seq<char>> {
    match v {
        Some(n) => Some(dec(n as nat)),
        None => None,
    }
}

pub open spec fn num_text_u8(v: Option<u8>) -> Option<Seq<char>> {
    match v {
        Some(n) => Some(dec(n as nat)),
        None => None,
    }
}

/// A flag is stored as `1` or `0`.
pub open spec fn flag_text(v: Option<bool>) -> Option<Seq<char>> {
    match v {
        Some(f) => Some(if f { "1"@ } else { "0"@ }),
        None => None,
    }
}

/// The assignments `PUT /projects/:pid/apps/:aid` makes, one per field the
/// request gives, in a fixed order: first the text fields, then the numbers
/// and flags. The registry password and git token are stored as given here
/// (already encrypted), and the container arguments as their JSON text.
pub open spec fn app_update_assignments(
    b: UpdateAppRequest,
    reg_pass: Option<Seq<char>>,
    git_token: Option<Seq<char>>,
    args_json: Option<Seq<char>>,
) -> Seq<Assign> {
    Seq::<Assign>::empty()
            + opt_assign("display_name = ?"@, opt_view(b.display_name))
            + opt_assign("pool_id = ?"@, opt_view(b.pool_id))
            + opt_assign("container_image = ?"@, opt_view(b.container_image))
            + opt_assign("container_registry_user = ?"@, opt_view(b.container_registry_user))
            + opt_assign("container_registry_pass = ?"@, reg_pass)
            + opt_assign("git_url = ?"@, opt_view(b.git_url))
            + opt_assign("git_branch = ?"@, opt_view(b.git_branch))
            + opt_assign("git_token = ?"@, git_token)
            + opt_assign("dockerfile_path = ?"@, opt_view(b.dockerfile_path))
            + opt_assign("container_command = ?"@, opt_view(b.container_command))
            + opt_assign("container_args = ?"@, args_json)
            + opt_assign("working_dir = ?"@, opt_view(b.working_dir))
            + opt_assign("timezone = ?"@, opt_view(b.timezone))
            + opt_assign("health_check_type = ?"@, opt_view(b.health_check_type))
            + opt_assign("health_check_path = ?"@, opt_view(b.health_check_path))
            + opt_assign("health_check_scheme = ?"@, opt_view(b.health_check_scheme))
            + opt_assign("app_type = ?"@, opt_view(b.app_type))
            + opt_assign("ingress_network_policy = ?"@, opt_view(b.ingress_network_policy))
            + opt_assign("egress_network_policy = ?"@, opt_view(b.egress_network_policy))
            + opt_assign("cpu_reservation_mcores = ?"@, num_text_u32(b.cpu_reservation_mcores))
            + opt_assign("cpu_limit_mcores = ?"@, num_text_u32(b.cpu_limit_mcores))
            + opt_assign("mem_reservation_mb = ?"@, num_text_u32(b.mem_reservation_mb))
            + opt_assign("mem_limit_mb = ?"@, num_text_u32(b.mem_limit_mb))
            + opt_assign("run_as_user = ?"@, num_text_u32(b.run_as_user))
            + opt_assign("run_as_group = ?"@, num_text_u32(b.run_as_group))
            + opt_assign("fs_group = ?"@, num_text_u32(b.fs_group))
            + opt_assign("privileged = ?"@, flag_text(b.privileged))
            + opt_assign("read_only_root_fs = ?"@, flag_text(b.read_only_root_fs))
            + opt_assign("gpu_enabled = ?"@, flag_text(b.gpu_enabled))
            + opt_assign("gpu_count = ?"@, num_text_u8(b.gpu_count))
            + opt_assign("mount_ldap_files = ?"@, flag_text(b.mount_ldap_files))
            + opt_assign("mount_etc_hosts = ?"@, flag_text(b.mount_etc_hosts))
            + opt_assign("mount_user_home = ?"@, flag_text(b.mount_user_home))
            + opt_assign("mount_app_data = ?"@, flag_text(b.mount_app_data))
            + opt_assign("mount_app_logs = ?"@, flag_text(b.mount_app_logs))
            + opt_assign("anti_affinity_enabled = ?"@, flag_text(b.anti_affinity_enabled))
            + opt_assign("health_check_port = ?"@, num_text_u16(b.health_check_port))
            + opt_assign("health_check_period = ?"@, num_text_u16(b.health_check_period))
            + opt_assign("health_check_timeout = ?"@, num_text_u16(b.health_check_timeout))
            + opt_assign("health_check_failures = ?"@, num_text_u8(b.health_check_failures))
            + opt_assign("use_network_policy = ?"@, flag_text(b.use_network_policy))
}

fn push_text(out: &mut Vec<(String, String)>, col: &str, v: &Option<String>)
    ensures
        assigns_of(final(out)@) == assigns_of(old(out)@) + opt_assign(col@, opt_view(*v)),
{
    let ghost before = assigns_of(out@);
    if let Some(x) = v {
        out.push((owned(col), x.clone()));
        assert(assigns_of(out@) =~= before + opt_assign(col@, opt_view(*v)));
    } else {
        assert(assigns_of(out@) =~= before + opt_assign(col@, opt_view(*v)));
    }
}

fn push_number(out: &mut Vec<(String, String)>, col: &str, v: Option<u64>)
    ensures
        assigns_of(final(out)@) == assigns_of(old(out)@) + opt_assign(
            col@,
            match v {
                Some(n) => Some(dec(n as nat)),
                None => None,
            },
        ),
{
    let ghost before = assigns_of(out@);
    if let Some(n) = v {
        out.push((owned(col), decimal_string(n)));
    }
    assert(assigns_of(out@) =~= before + opt_assign(
        col@,
        match v {
            Some(n) => Some(dec(n as nat)),
            None => None,
        },
    ));
}

fn push_flag(out: &mut Vec<(String, String)>, col: &str, v: Option<bool>)
    ensures
        assigns_of(final(out)@) == assigns_of(old(out)@) + opt_assign(col@, flag_text(v)),
{
    let ghost before = assigns_of(out@);
    if let Some(f) = v {
        let t = if f { owned("1") } else { owned("0") };
        out.push((owned(col), t));
    }
    assert(assigns_of(out@) =~= before + opt_assign(col@, flag_text(v)));
}

/// The column assignments of an app update (see `app_update_assignments`).
/// `reg_pass` and `git_token` are the encrypted secrets, `args_json` the
/// JSON text of the container arguments, each present when the request
/// gives the field.
#[verifier::rlimit(60)]
pub fn update_assignments(
    b: &UpdateAppRequest,
    reg_pass: &Option<String>,
    git_token: &Option<String>,
    args_json: &Option<String>,
) -> (r: Vec<(String, String)>)
    ensures
        assigns_of(r@) == app_update_assignments(*b, opt_view(*reg_pass), opt_view(*git_token), opt_view(*args_json)),
{
    let mut out: Vec<(String, String)> = Vec::new();
    assert(assigns_of(out@) =~= Seq::<Assign>::empty());
    push_text(&mut out, "display_name = ?", &b.display_name);
    push_text(&mut out, "pool_id = ?", &b.pool_id);
    push_text(&mut out, "container_image = ?", &b.container_image);
    push_text(&mut out, "container_registry_user = ?", &b.container_registry_user);
    push_text(&mut out, "container_registry_pass = ?", reg_pass);
    push_text(&mut out, "git_url = ?", &b.git_url);
    push_text(&mut out, "git_branch = ?", &b.git_branch);
    push_text(&mut out, "git_token = ?", git_token);
    push_text(&mut out, "dockerfile_path = ?", &b.dockerfile_path);
    push_text(&mut out, "container_command = ?", &b.container_command);
    push_text(&mut out, "container_args = ?", args_json);
    push_text(&mut out, "working_dir = ?", &b.working_dir);
    push_text(&mut out, "timezone = ?", &b.timezone);
    push_text(&mut out, "health_check_type = ?", &b.health_check_type);
    push_text(&mut out, "health_check_path = ?", &b.health_check_path);
    push_text(&mut out, "health_check_scheme = ?", &b.health_check_scheme);
    push_text(&mut out, "app_type = ?", &b.app_type);
    push_text(&mut out, "ingress_network_policy = ?", &b.ingress_network_policy);
    push_text(&mut out, "egress_network_policy = ?", &b.egress_network_policy);
    push_number(&mut out, "cpu_reservation_mcores = ?", match b.cpu_reservation_mcores { Some(v) => Some(v as u64), None => None });
    push_number(&mut out, "cpu_limit_mcores = ?", match b.cpu_limit_mcores { Some(v) => Some(v as u64), None => None });
    push_number(&mut out, "mem_reservation_mb = ?", match b.mem_reservation_mb { Some(v) => Some(v as u64), None => None });
    push_number(&mut out, "mem_limit_mb = ?", match b.mem_limit_mb { Some(v) => Some(v as u64), None => None });
    push_number(&mut out, "run_as_user = ?", match b.run_as_user { Some(v) => Some(v as u64), None => None });
    push_number(&mut out, "run_as_group = ?", match b.run_as_group { Some(v) => Some(v as u64), None => None });
    push_number(&mut out, "fs_group = ?", match b.fs_group { Some(v) => Some(v as u64), None => None });
    push_flag(&mut out, "privileged = ?", b.privileged);
    push_flag(&mut out, "read_only_root_fs = ?", b.read_only_root_fs);
    push_flag(&mut out, "gpu_enabled = ?", b.gpu_enabled);
    push_number(&mut out, "gpu_count = ?", match b.gpu_count { Some(v) => Some(v as u64), None => None });
    push_flag(&mut out, "mount_ldap_files = ?", b.mount_ldap_files);
    push_flag(&mut out, "mount_etc_hosts = ?", b.mount_etc_hosts);
    push_flag(&mut out, "mount_user_home = ?", b.mount_user_home);
    push_flag(&mut out, "mount_app_data = ?", b.mount_app_data);
    push_flag(&mut out, "mount_app_logs = ?", b.mount_app_logs);
    push_flag(&mut out, "anti_affinity_enabled = ?", b.anti_affinity_enabled);
    push_number(&mut out, "health_check_port = ?", match b.health_check_port { Some(v) => Some(v as u64), None => None });
    push_number(&mut out, "health_check_period = ?", match b.health_check_period { Some(v) => Some(v as u64), None => None });
    push_number(&mut out, "health_check_timeout = ?", match b.health_check_timeout { Some(v) => Some(v as u64), None => None });
    push_number(&mut out, "health_check_failures = ?", match b.health_check_failures { Some(v) => Some(v as u64), None => None });
    push_flag(&mut out, "use_network_policy = ?", b.use_network_policy);
    out
}

/// The columns of an assignment list joined by `, `.
pub open spec fn joined_columns(a: Seq<Assign>) -> Seq<char>
    decreases a.len(),
{
    if a.len() == 0 {
        Seq::empty()
    } else if a.len() == 1 {
        a[0].0
    } else {
        joined_columns(a.drop_last()) + ", "@ + a.last().0
    }
}

/// The UPDATE statement for an app's assignments; none when nothing changes.
pub fn update_sql(assigns: &Vec<(String, String)>) -> (r: Option<String>)
    ensures
        assigns@.len() == 0 ==> r is None,
        assigns@.len() > 0 ==> (r matches Some(q) && q@ == "UPDATE apps SET "@ + joined_columns(
            assigns_of(assigns@),
        ) + " WHERE id = ?"@),
{
    if assigns.len() == 0 {
        return None;
    }
    let ghost a = assigns_of(assigns@);
    let mut cols: String = assigns[0].0.clone();
    assert(a.take(1).len() == 1);
    let mut i: usize = 1;
    while i < assigns.len()
        invariant
            1 <= i <= assigns.len(),
            a == assigns_of(assigns@),
            cols@ == joined_columns(a.take(i as int)),
        decreases assigns.len() - i,
    {
        assert(a.take(i + 1).drop_last() =~= a.take(i as int));
        cols = cat3(cols.as_str(), ", ", assigns[i].0.as_str());
        i = i + 1;
    }
    assert(a.take(i as int) =~= a);
    Some(cat3("UPDATE apps SET ", cols.as_str(), " WHERE id = ?"))
}

/// The JSON text that `serde_json` gives an array of strings.
pub uninterp spec fn json_string_array(items: Seq<Seq<char>>) -> Seq<char>;

/// Serialises a list of strings as a JSON array.
///
/// Trusted: `serde_json::to_string` on a `Vec<String>`. Its documentation
/// names the only ways it fails: a `Serialize` impl that decides to fail, or
/// a map with non-string keys. A `Vec` of `String`s has neither (both impls
/// only pass on the serializer's own errors, and writing into the in-memory
/// buffer does not fail), so it succeeds, with a text that is a function of
/// the strings alone. An error would be passed on as its message.
#[verifier::external_body]
fn to_json_array(items: &Vec<String>) -> (r: Result<String, String>)
    ensures
        r is Ok,
        r matches Ok(t) ==> t@ == json_string_array(views(items@)),
{
    serde_json::to_string(items).map_err(|e| e.to_string())
}

/// The stored form of an app's container arguments: their JSON text, or
/// none when the request gives none. A list of strings always serialises.
pub fn container_args_json(args: &Option<Vec<String>>) -> (r: Result<Option<String>, AppError>)
    ensures
        args is None ==> r matches Ok(None),
        args matches Some(v) ==> (r matches Ok(Some(t)) && t@ == json_string_array(views(v@))),
{
    match args {
        None => Ok(None),
        Some(v) => match to_json_array(v) {
            Ok(t) => Ok(Some(t)),
            Err(m) => Err(AppError::BadRequest(cat2("invalid container_args: ", m.as_str()))),
        },
    }
}

// ── Deploy, resume, scale ───────────────────────────────────────────────────

/// An app in one of these states holds no cluster resources.
pub open spec fn holds_nothing(status: Seq<char>) -> bool {
    status == "STOPPED"@ || status == "SUSPENDED"@ || status == "FAILED"@
}

proof fn lemma_footprint(cpu: u32, mem: u32, replicas: u8)
    ensures
        cpu * replicas <= 4294967295 * 255,
        mem * replicas <= 4294967295 * 255,
{
    assert(cpu * replicas <= 4294967295 * 255) by (nonlinear_arith)
        requires
            cpu <= 4294967295,
            replicas <= 255,
    ;
    assert(mem * replicas <= 4294967295 * 255) by (nonlinear_arith)
        requires
            mem <= 4294967295,
            replicas <= 255,
    ;
}

/// What a deploy must fit in the project quota: the app's full footprint
/// (cpu and memory times replicas) when it currently holds nothing; nothing
/// otherwise. `cpu` and `mem` are the app's limits, or its reservations.
pub fn deploy_charge(status: &str, cpu: u32, mem: u32, replicas: u8) -> (r: Option<(i64, i64)>)
    ensures
        holds_nothing(status@) ==> r == Some(((cpu * replicas) as i64, (mem * replicas) as i64)),
        !holds_nothing(status@) ==> r is None,
        status@ == "STOPPED"@ || status@ == "SUSPENDED"@ || status@ == "FAILED"@ ==> r == Some(
            ((cpu * replicas) as i64, (mem * replicas) as i64),
        ),
        r matches Some(c) ==> c.0 == cpu * replicas && c.1 == mem * replicas,
{
    proof {
        lemma_footprint(cpu, mem, replicas);
    }
    if str_eq(status, "STOPPED") || str_eq(status, "SUSPENDED") || str_eq(status, "FAILED") {
        Some((cpu as i64 * replicas as i64, mem as i64 * replicas as i64))
    } else {
        None
    }
}

/// An app holds no cluster resources exactly when it is STOPPED,
/// SUSPENDED or FAILED; in particular every app that resuming charges (a
/// SUSPENDED one) is charged in full by a deploy too, and a running app is
/// not.
pub proof fn idle_apps_are_charged_in_full(status: Seq<char>)
    ensures
        holds_nothing(status) <==> (status == "STOPPED"@ || status == "SUSPENDED"@ || status == "FAILED"@),
        status == "SUSPENDED"@ ==> holds_nothing(status),
        status == "RUNNING"@ ==> !holds_nothing(status),
{
    reveal_strlit("RUNNING");
    reveal_strlit("STOPPED");
    reveal_strlit("SUSPENDED");
    reveal_strlit("FAILED");
    assert("RUNNING"@.len() == 7 && "STOPPED"@.len() == 7 && "SUSPENDED"@.len() == 9 && "FAILED"@.len() == 6);
    assert("RUNNING"@[0] != "STOPPED"@[0]);
}

/// Resuming a SUSPENDED app must fit its full footprint in the quota; other
/// apps resume without a check.
pub fn resume_charge(status: &str, cpu: u32, mem: u32, replicas: u8) -> (r: Option<(i64, i64)>)
    ensures
        status@ == "SUSPENDED"@ ==> r == Some(((cpu * replicas) as i64, (mem * replicas) as i64)),
        status@ != "SUSPENDED"@ ==> r is None,
{
    proof {
        lemma_footprint(cpu, mem, replicas);
    }
    if str_eq(status, "SUSPENDED") {
        Some((cpu as i64 * replicas as i64, mem as i64 * replicas as i64))
    } else {
        None
    }
}

/// Scaling to a negative count is refused; scaling up must fit the extra
/// replicas' footprint in the quota; scaling down needs no check.
pub fn scale_charge(requested: i32, current: u8, cpu: u32, mem: u32) -> (r: Result<Option<(i64, i64)>, AppError>)
    ensures
        requested < 0 ==> (r matches Err(e) && e.as_pair() == (ErrKind::BadRequest, "replicas must be >= 0"@)),
        requested >= 0 && requested > current ==> r == Ok::<Option<(i64, i64)>, AppError>(
            Some(((cpu * (requested - current)) as i64, (mem * (requested - current)) as i64)),
        ),
        requested >= 0 && requested <= current ==> r == Ok::<Option<(i64, i64)>, AppError>(None),
{
    if requested < 0 {
        return Err(bad_request("replicas must be >= 0"));
    }
    let delta: i32 = requested - current as i32;
    if delta > 0 {
        proof {
            assert(cpu * delta <= 4294967295 * 2147483647) by (nonlinear_arith)
                requires
                    cpu <= 4294967295,
                    0 < delta <= 2147483647,
            ;
            assert(mem * delta <= 4294967295 * 2147483647) by (nonlinear_arith)
                requires
                    mem <= 4294967295,
                    0 < delta <= 2147483647,
            ;
        }
        Ok(Some((cpu as i64 * delta as i64, mem as i64 * delta as i64)))
    } else {
        Ok(None)
    }
}

/// The event message of a successful scale.
pub fn scale_message(replicas: i32) -> (m: String)
    requires
        replicas >= 0,
    ensures
        m@ == "scaled to "@ + dec(replicas as nat) + " replicas"@,
{
    cat3("scaled to ", decimal_string(replicas as u64).as_str(), " replicas")
}

// ── Environment variables ───────────────────────────────────────────────────

/// How a stored variable's value is shown.
#[derive(PartialEq, Eq, Structural, Debug, Clone, Copy)]
pub enum EnvShown {
    /// Secrets are hidden from observers.
    Hidden,
    /// Other callers see secrets decrypted.
    Decrypted,
    /// Plain values are shown as stored.
    Plain,
}

/// Whether the caller reads the project as a mere observer: not a global
/// admin and holding the OBSERVER role.
pub open spec fn reads_as_observer(is_global_admin: bool, role: Option<Seq<char>>) -> bool {
    !is_global_admin && role == Some("OBSERVER"@)
}

pub fn env_value_shown(is_secret: bool, is_global_admin: bool, role: &Option<String>) -> (s: EnvShown)
    ensures
        s == (if is_secret && reads_as_observer(is_global_admin, opt_view(*role)) {
            EnvShown::Hidden
        } else if is_secret {
            EnvShown::Decrypted
        } else {
            EnvShown::Plain
        }),
{
    let observer = !is_global_admin && match role {
        Some(r) => str_eq(r.as_str(), "OBSERVER"),
        None => false,
    };
    if is_secret && observer {
        EnvShown::Hidden
    } else if is_secret {
        EnvShown::Decrypted
    } else {
        EnvShown::Plain
    }
}

/// A variable is stored plain unless marked secret.
pub fn env_is_secret(body: &SetEnvRequest) -> (b: bool)
    ensures
        b == or_bool(body.is_secret, false),
{
    bool_or(body.is_secret, false)
}

/// Ports are TCP unless the request names a protocol.
pub fn port_protocol(body: &AddPortRequest) -> (p: String)
    ensures
        p@ == or_str(body.protocol, "TCP"@),
{
    str_or(&body.protocol, "TCP")
}

// ── Metrics ─────────────────────────────────────────────────────────────────

/// The look-back of a metrics query in seconds: the named ranges 30m, 1h,
/// 6h, 24h and 7d, else the text read as a number of seconds, else one hour.
pub open spec fn range_seconds(range: Option<Seq<char>>) -> i64 {
    let r = match range {
        Some(r) => r,
        None => "1h"@,
    };
    if r == "30m"@ {
        1800
    } else if r == "1h"@ {
        3600
    } else if r == "6h"@ {
        21600
    } else if r == "24h"@ {
        86400
    } else if r == "7d"@ {
        604800
    } else {
        match crate::text::parse_i64_spec(r) {
            Some(n) => n,
            None => 3600,
        }
    }
}

pub fn metrics_range_secs(q: &MetricsHistoryQuery) -> (n: i64)
    ensures
        n == range_seconds(opt_view(q.range)),
{
    let r = str_or(&q.range, "1h");
    let rs = r.as_str();
    if str_eq(rs, "30m") {
        1800
    } else if str_eq(rs, "1h") {
        3600
    } else if str_eq(rs, "6h") {
        21600
    } else if str_eq(rs, "24h") {
        86400
    } else if str_eq(rs, "7d") {
        604800
    } else {
        let v = crate::text::chars_of(rs);
        match crate::text::parse_i64(&v) {
            Some(n) => n,
            None => 3600,
        }
    }
}

/// The step of a metrics query: 60 seconds unless given.
pub fn metrics_step(q: &MetricsHistoryQuery) -> (n: u32)
    ensures
        n == (match q.step { Some(s) => s, None => 60 }),
{
    match q.step {
        Some(s) => s,
        None => 60,
    }
}

// ── Database credentials ────────────────────────────────────────────────────

/// Port, default database, and the names of the user, password and
/// database variables of each database app type.
pub open spec fn db_profile(app_type: Seq<char>) -> Option<(u16, Seq<char>, Seq<char>, Seq<char>, Seq<char>)> {
    if app_type == "POSTGRES"@ {
        Some((5432u16, "postgres"@, "POSTGRES_USER"@, "POSTGRES_PASSWORD"@, "POSTGRES_DB"@))
    } else if app_type == "MYSQL"@ {
        Some((3306u16, "mysql"@, "MYSQL_USER"@, "MYSQL_ROOT_PASSWORD"@, "MYSQL_DATABASE"@))
    } else if app_type == "MARIADB"@ {
        Some((3306u16, "mariadb"@, "MARIADB_USER"@, "MARIADB_ROOT_PASSWORD"@, "MARIADB_DATABASE"@))
    } else if app_type == "MONGODB"@ {
        Some(
            (
                27017u16,
                "admin"@,
                "MONGO_INITDB_ROOT_USERNAME"@,
                "MONGO_INITDB_ROOT_PASSWORD"@,
                "MONGO_INITDB_DATABASE"@,
            ),
        )
    } else if app_type == "REDIS"@ {
        Some((6379u16, ""@, ""@, "REDIS_PASSWORD"@, ""@))
    } else {
        None
    }
}

/// The value of `key` among the variables; the last one wins, as when they
/// are collected into a map.
pub open spec fn env_lookup(env: Seq<(Seq<char>, Seq<char>)>, key: Seq<char>) -> Option<Seq<char>>
    decreases env.len(),
{
    if env.len() == 0 {
        None
    } else if env.last().0 == key {
        Some(env.last().1)
    } else {
        env_lookup(env.drop_last(), key)
    }
}

pub open spec fn pairs_of(v: Seq<(String, String)>) -> Seq<(Seq<char>, Seq<char>)> {
    v.map_values(|p: (String, String)| (p.0@, p.1@))
}

pub(crate) fn lookup_pairs(env: &Vec<(String, String)>, key: &str) -> (r: Option<String>)
    ensures
        opt_view(r) == env_lookup(pairs_of(env@), key@),
{
    let ghost p = pairs_of(env@);
    let mut i: usize = env.len();
    assert(p.take(i as int) =~= p);
    while i > 0
        invariant
            i <= env.len(),
            p == pairs_of(env@),
            env_lookup(p.take(i as int), key@) == env_lookup(p, key@),
        decreases i,
    {
        let ghost t = p.take(i as int);
        assert(t.drop_last() =~= p.take(i - 1));
        assert(t.last() == p[i - 1]);
        if str_eq(env[i - 1].0.as_str(), key) {
            return Some(env[i - 1].1.clone());
        }
        i = i - 1;
    }
    None
}

/// The connection facts of a database app.
pub struct DbCredentials {
    pub app_type: String,
    pub host: String,
    pub port: u16,
    pub database: String,
    pub username: String,
    pub password: String,
}

/// The credentials of a database app: its in-cluster host
/// `<app>.<project>.svc.cluster.local`, the type's port, and the database,
/// user and password read from its (decrypted) variables, with the type's
/// default database and empty user and password when they are unset.
/// Apps of other types are refused.
pub fn db_credentials(
    app_type: &str,
    app_name: &str,
    project_name: &str,
    env: &Vec<(String, String)>,
) -> (r: Result<DbCredentials, AppError>)
    ensures
        db_profile(app_type@) is None ==> (r matches Err(e) && e.as_pair() == (
            ErrKind::BadRequest,
            "app is not a database type"@,
        )),
        db_profile(app_type@) matches Some((port, default_db, user_key, pass_key, db_key)) ==> (r matches Ok(c)
            && c.app_type@ == app_type@ && c.host@ == app_name@ + "."@ + project_name@ + ".svc.cluster.local"@
            && c.port == port && c.database@ == (match env_lookup(pairs_of(env@), db_key) {
            Some(v) => v,
            None => default_db,
        }) && c.username@ == (match env_lookup(pairs_of(env@), user_key) {
            Some(v) => v,
            None => Seq::empty(),
        }) && c.password@ == (match env_lookup(pairs_of(env@), pass_key) {
            Some(v) => v,
            None => Seq::empty(),
        })),
{
    let (port, default_db, user_key, pass_key, db_key): (u16, &str, &str, &str, &str) = if str_eq(
        app_type,
        "POSTGRES",
    ) {
        (5432, "postgres", "POSTGRES_USER", "POSTGRES_PASSWORD", "POSTGRES_DB")
    } else if str_eq(app_type, "MYSQL") {
        (3306, "mysql", "MYSQL_USER", "MYSQL_ROOT_PASSWORD", "MYSQL_DATABASE")
    } else if str_eq(app_type, "MARIADB") {
        (3306, "mariadb", "MARIADB_USER", "MARIADB_ROOT_PASSWORD", "MARIADB_DATABASE")
    } else if str_eq(app_type, "MONGODB") {
        (27017, "admin", "MONGO_INITDB_ROOT_USERNAME", "MONGO_INITDB_ROOT_PASSWORD", "MONGO_INITDB_DATABASE")
    } else if str_eq(app_type, "REDIS") {
        (6379, "", "", "REDIS_PASSWORD", "")
    } else {
        return Err(bad_request("app is not a database type"));
    };
    let host = crate::text::cat4(app_name, ".", project_name, ".svc.cluster.local");
    let database = match lookup_pairs(env, db_key) {
        Some(v) => v,
        None => owned(default_db),
    };
    let username = match lookup_pairs(env, user_key) {
        Some(v) => v,
        None => String::new(),
    };
    let password = match lookup_pairs(env, pass_key) {
        Some(v) => v,
        None => String::new(),
    };
    Ok(DbCredentials { app_type: owned(app_type), host, port, database, username, password })
}

// ── Volumes ─────────────────────────────────────────────────────────────────

/// Host-path volumes are for global admins only.
pub fn check_extra_volume_allowed(is_global_admin: bool) -> (r: Result<(), AppError>)
    ensures
        r is Ok <==> is_global_admin,
        r matches Err(e) ==> e.as_pair() == (
            ErrKind::Forbidden,
            "extra host-path volumes require global admin \u{2014} use managed volumes instead"@,
        ),
{
    if !is_global_admin {
        return Err(
            forbidden("extra host-path volumes require global admin \u{2014} use managed volumes instead"),
        );
    }
    Ok(())
}

/// Host volumes are writable unless asked otherwise.
pub fn extra_volume_read_only(body: &AddExtraVolumeRequest) -> (b: bool)
    ensures
        b == or_bool(body.read_only, false),
{
    bool_or(body.read_only, false)
}

/// Where a managed volume lives on the host:
/// `<root>/projects/<project>/volumes/<volume>`.
pub fn managed_volume_path(storage_root: &str, project_id: &str, volume_id: &str) -> (p: String)
    ensures
        p@ == storage_root@ + "/projects/"@ + project_id@ + "/volumes/"@ + volume_id@,
{
    let a = cat3(storage_root, "/projects/", project_id);
    cat3(a.as_str(), "/volumes/", volume_id)
}

/// A managed volume is private unless shared.
pub fn managed_volume_shared(body: &CreateManagedVolumeRequest) -> (b: bool)
    ensures
        b == or_bool(body.share_with_others, false),
{
    bool_or(body.share_with_others, false)
}

/// Volume backups keep 7 days and copy files unless asked otherwise.
pub fn volume_backup_defaults(body: &CreateVolumeBackupRequest) -> (r: (u16, bool))
    ensures
        r.0 == (match body.retention_days { Some(d) => d, None => 7 }),
        r.1 == or_bool(body.use_db_backup, false),
{
    (match body.retention_days { Some(d) => d, None => 7 }, bool_or(body.use_db_backup, false))
}

// ── Cluster placement ───────────────────────────────────────────────────────

/// An app keeps the cluster it is bound to while that cluster is active.
pub fn reuse_bound_cluster(bound: &Option<String>, active_count: i64) -> (r: Option<String>)
    ensures
        opt_view(r) == (if active_count > 0 { opt_view(*bound) } else { None }),
{
    match bound {
        Some(c) => if active_count > 0 {
            Some(c.clone())
        } else {
            None
        },
        None => None,
    }
}

/// The pool an unbound app is placed in: its own, else the platform's
/// default active pool; with neither there is nowhere to deploy.
pub fn pool_for_app(pool_id: &Option<String>, default_pool: &Option<String>) -> (r: Result<String, AppError>)
    ensures
        pool_id matches Some(p) ==> (r matches Ok(x) && x@ == p@),
        pool_id is None ==> (default_pool matches Some(p) ==> (r matches Ok(x) && x@ == p@)),
        pool_id is None && default_pool is None ==> (r matches Err(e) && e.as_pair() == (
            ErrKind::BadRequest,
            "no active cluster available \u{2014} create or activate a cluster before deploying"@,
        )),
{
    match pool_id {
        Some(p) => Ok(p.clone()),
        None => match default_pool {
            Some(p) => Ok(p.clone()),
            None => Err(
                bad_request(
                    "no active cluster available \u{2014} create or activate a cluster before deploying",
                ),
            ),
        },
    }
}

/// The least-loaded active cluster of the pool, or a refusal naming the pool.
pub fn cluster_in_pool(found: Option<String>, pool_id: &str) -> (r: Result<String, AppError>)
    ensures
        found matches Some(c) ==> (r matches Ok(x) && x@ == c@),
        found is None ==> (r matches Err(e) && e.as_pair() == (
            ErrKind::BadRequest,
            "no active cluster found in pool "@ + pool_id@,
        )),
{
    match found {
        Some(c) => Ok(c),
        None => Err(AppError::BadRequest(cat2("no active cluster found in pool ", pool_id))),
    }
}

/// A cluster's orchestrator: K3S unless recorded.
pub fn orchestrator_of(recorded: Option<String>) -> (o: String)
    ensures
        o@ == (match recorded { Some(r) => r@, None => "K3S"@ }),
{
    match recorded {
        Some(r) => r,
        None => owned("K3S"),
    }
}

/// Whether workloads of a cluster go to the Docker agents rather than
/// Kubernetes.
pub fn uses_docker(orchestrator: &str) -> (b: bool)
    ensures
        b == (orchestrator@ == "DOCKER"@),
{
    str_eq(orchestrator, "DOCKER")
}

} // verus!
