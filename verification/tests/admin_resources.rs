use quickstack::access::AuthUser;
use quickstack::clusters::{
    check_cluster_deletable, check_pool_exists, cluster_insert, cluster_update, generate_k3s_token, hex_text,
    k3s_token_or_generated, ClusterRow, CreateClusterRequest, UpdateClusterRequest,
};
use quickstack::databases::{
    check_credentials_visible, check_db_cluster_deletable, db_cluster_update, db_name_for, db_secret_name,
    db_user_for, db_user_with, generate_password, new_instance_ids, password_from_indices, DbClusterRow,
    UpdateClusterRequest as UpdateDbClusterRequest, PASSWORD_ALPHABET,
};
use quickstack::domains::{
    domain_not_found, hostname_in_use, plan_domain_route, require_nodeport, require_ready_node, CreateDomainRequest,
};
use quickstack::error::AppError;
use quickstack::managed_usage::{check_binding_allowed, KindUsage, ManagedUsage};
use quickstack::object_storage::{
    backup_type_of, bucket_probe_url, check_cron_expr, check_cron_update, check_target_deletable, count_fields,
    delete_backup_file, download_backup_file, list_backups_on_target, probe_outcome, require_active_target,
    retention_or_default, target_update, BackupEntry, TargetRow, UpdateTargetRequest,
};
use quickstack::platform::{
    check_config_key, check_storage_root, is_sensitive_key, is_settable_key, masked_config_value, reloads_jwt_secret,
    storage_root_or_default,
};
use quickstack::pools::{check_pool_deletable, check_pool_name, pool_update, PoolRow, UpdatePoolRequest};
use quickstack::proxy_managers::{
    api_user_or_default, check_reachable, proxy_manager_not_found, reload_after_update, UpdateProxyManagerRequest,
};
use quickstack::quota::{require_app_cluster, suspend_reason, unsuspend_extra, SuspendRequest};
use quickstack::registries::{
    catalog_url, registry_create_defaults, registry_not_found, registry_update, repos_to_scan, tags_url,
    trim_trailing_slashes, CreateRegistryRequest, RegistryRow, UpdateRegistryRequest,
};
use quickstack::service_endpoints::{
    mq_values, nonempty_password, redis_values, smtp_values, unique_violation_to_conflict, MqUpsert, RedisUpsert,
    SmtpUpsert,
};

fn is_lower_hex(c: char) -> bool {
    c.is_ascii_digit() || ('a'..='f').contains(&c)
}

fn msg(e: AppError) -> String {
    e.message()
}

#[test]
fn storage_root_and_config_keys() {
    assert!(check_storage_root("/data").is_ok());
    assert!(matches!(check_storage_root("data"), Err(AppError::BadRequest(m)) if m == "storage_root must be an absolute path"));
    assert!(check_storage_root("").is_err());
    assert_eq!(storage_root_or_default(None), "/storage");
    assert_eq!(storage_root_or_default(Some("/srv".to_string())), "/srv");
    assert!(is_sensitive_key("jwt_secret"));
    assert!(!is_sensitive_key("frontend_url"));
    assert!(is_settable_key("frontend_url"));
    assert!(is_settable_key("ssh_private_key"));
    assert!(!is_settable_key("internal_flag"));
    assert_eq!(masked_config_value("registry_password", "hunter2".to_string()), "***");
    assert_eq!(masked_config_value("billing_currency", "CNY".to_string()), "CNY");
    assert!(check_config_key("storage_root", 0).is_ok());
    assert!(check_config_key("seeded_key", 1).is_ok());
    assert!(matches!(check_config_key("new_key", 0),
        Err(AppError::BadRequest(m)) if m == "unknown config key 'new_key' \u{2014} cannot create arbitrary keys"));
    assert!(reloads_jwt_secret("jwt_secret"));
    assert!(!reloads_jwt_secret("jwt"));
}

#[test]
fn every_secret_key_is_settable() {
    for k in ["ldap_bind_password", "ssh_private_key", "jwt_secret", "registry_password"] {
        assert!(is_sensitive_key(k) && is_settable_key(k));
    }
}

#[test]
fn resource_pools() {
    assert!(check_pool_name("eu-west_1").is_ok());
    assert!(check_pool_name("zürich").is_ok());
    assert!(matches!(check_pool_name("a b"), Err(AppError::BadRequest(m)) if m == "name must be alphanumeric slug (a-z, 0-9, -, _)"));
    assert!(check_pool_name("").is_err());
    let existing = PoolRow { display_name: "Old".to_string(), region: Some("eu".to_string()), description: None, is_active: 1 };
    let body = UpdatePoolRequest { display_name: None, region: None, description: Some("d".to_string()), is_active: Some(false) };
    let r = pool_update(&existing, &body);
    assert_eq!((r.display_name.as_str(), r.region.as_deref(), r.description.as_deref(), r.is_active), ("Old", Some("eu"), Some("d"), 0));
    assert!(check_pool_deletable(0).is_ok());
    assert!(matches!(check_pool_deletable(2), Err(AppError::Conflict(m)) if m == "pool has 2 cluster(s); remove them first"));
    assert_eq!(msg(unique_violation_to_conflict("pool", "eu")), "pool 'eu' already exists");
}

#[test]
fn custom_domains() {
    assert_eq!(require_nodeport(Some(Some(30080))).unwrap(), 30080);
    assert!(matches!(require_nodeport(Some(None)), Err(AppError::BadRequest(m)) if m == "port not found or not yet deployed"));
    assert!(require_nodeport(None).is_err());
    assert!(matches!(require_ready_node(None), Err(AppError::Internal(m)) if m == "no ready nodes"));
    let body = CreateDomainRequest { hostname: "app.io".to_string(), target_port: 80, ssl_enabled: None, use_lets_encrypt: Some(false) };
    let r = plan_domain_route(&body, 30080, "10.0.0.2".to_string());
    assert_eq!((r.domain.as_str(), r.scheme.as_str(), r.upstream_ip.as_str(), r.upstream_port, r.ssl_force, r.request_cert),
        ("app.io", "https", "10.0.0.2", 30080, true, false));
    let plain = CreateDomainRequest { hostname: "a".to_string(), target_port: 80, ssl_enabled: Some(false), use_lets_encrypt: None };
    let r = plan_domain_route(&plain, 1, "ip".to_string());
    assert_eq!((r.scheme.as_str(), r.ssl_force, r.request_cert), ("http", false, false));
    assert_eq!(msg(hostname_in_use("a.io")), "hostname 'a.io' already in use");
    assert_eq!(msg(domain_not_found("d1")), "domain d1");
}

#[test]
fn image_registries() {
    let body = CreateRegistryRequest { name: "r".to_string(), endpoint: "e".to_string(), username: None, password: None, is_default: None, priority: None };
    assert_eq!(registry_create_defaults(&body), (0, 100));
    let existing = RegistryRow { name: "r".to_string(), endpoint: "https://r".to_string(), username: Some("u".to_string()), is_default: 1, priority: 10, is_active: 1 };
    let upd = UpdateRegistryRequest { name: None, endpoint: Some("https://r2".to_string()), username: None, password: Some("p".to_string()), is_default: Some(false), priority: None, is_active: None };
    let (row, pass) = registry_update(&existing, &upd);
    assert_eq!((row.name.as_str(), row.endpoint.as_str(), row.username.as_deref(), row.is_default, row.priority, row.is_active),
        ("r", "https://r2", Some("u"), 0, 10, 1));
    assert_eq!(pass.as_deref(), Some("p"));
    assert_eq!(trim_trailing_slashes("https://r//").iter().collect::<String>(), "https://r");
    assert_eq!(catalog_url("https://reg.io/"), "https://reg.io/v2/_catalog");
    assert_eq!(tags_url("https://reg.io", "lib/app"), "https://reg.io/v2/lib/app/tags/list");
    assert_eq!(msg(registry_not_found("x")), "registry x");
    let mut entries: Vec<Option<String>> = vec![Some("a".to_string()), None, Some("b".to_string())];
    assert_eq!(repos_to_scan(&entries), vec!["a", "b"]);
    entries = (0..60).map(|i| Some(format!("r{}", i))).collect();
    let scanned = repos_to_scan(&entries);
    assert_eq!(scanned.len(), 50);
    assert_eq!(scanned[49], "r49");
}

#[test]
fn proxy_managers_and_quota() {
    assert_eq!(api_user_or_default(&None), "admin");
    assert_eq!(api_user_or_default(&Some("ops".to_string())), "ops");
    assert!(check_reachable(true, "http://lb:81/api").is_ok());
    assert!(matches!(check_reachable(false, "http://lb:81/api"),
        Err(AppError::BadRequest(m)) if m == "cannot reach pingora at http://lb:81/api \u{2014} check URL and credentials"));
    let upd = |pw: Option<&str>, url: Option<&str>| UpdateProxyManagerRequest {
        name: Some("n".to_string()), host: None, api_base_url: url.map(|s| s.to_string()), api_username: None,
        api_password: pw.map(|s| s.to_string()), is_active: None,
    };
    assert!(reload_after_update(&upd(Some("x"), None)));
    assert!(reload_after_update(&upd(None, Some("u"))));
    assert!(!reload_after_update(&upd(None, None)));
    assert_eq!(msg(proxy_manager_not_found("7")), "proxy manager 7");
    assert_eq!(suspend_reason(None), "admin_suspend");
    assert_eq!(suspend_reason(Some(SuspendRequest { reason: None })), "admin_suspend");
    assert_eq!(suspend_reason(Some(SuspendRequest { reason: Some("abuse".to_string()) })), "abuse");
    assert_eq!(unsuspend_extra(500, 256, 3), (1500, 768));
    assert!(matches!(require_app_cluster(None), Err(AppError::Internal(m)) if m == "no cluster for app"));
}

fn create_cluster(display: Option<&str>, iface: Option<&str>, orch: Option<&str>) -> CreateClusterRequest {
    CreateClusterRequest {
        pool_id: None,
        name: "k1".to_string(),
        display_name: display.map(|s| s.to_string()),
        description: None,
        k3s_token: None,
        ip_pool_id: None,
        node_main_iface: iface.map(|s| s.to_string()),
        orchestrator: orch.map(|s| s.to_string()),
    }
}

#[test]
fn compute_clusters() {
    assert_eq!(hex_text(&vec![0x00, 0xab, 0x7f]), "00ab7f");
    let t = generate_k3s_token();
    assert_eq!(t.len(), 64);
    assert!(t.chars().all(is_lower_hex));
    assert_eq!(k3s_token_or_generated(Some("given".to_string())), "given");
    assert_eq!(k3s_token_or_generated(None).len(), 64);
    let i = cluster_insert(&create_cluster(None, None, Some("DOCKER")));
    assert_eq!((i.display_name.as_str(), i.node_main_iface.as_str(), i.docker), ("k1", "eth0", true));
    let i = cluster_insert(&create_cluster(Some("K"), Some("ens3"), Some("K3S")));
    assert_eq!((i.display_name.as_str(), i.node_main_iface.as_str(), i.docker), ("K", "ens3", false));
    assert!(check_pool_exists("p", 1).is_ok());
    assert!(matches!(check_pool_exists("p", 0), Err(AppError::NotFound(m)) if m == "resource pool p"));
    let existing = ClusterRow { display_name: None, description: Some("d".to_string()), is_active: 1, ip_pool_id: None, node_main_iface: "eth0".to_string() };
    let body = UpdateClusterRequest { display_name: None, description: None, is_active: Some(false), ip_pool_id: Some("ip1".to_string()), node_main_iface: None };
    let u = cluster_update(&existing, &body);
    assert_eq!((u.display_name.as_str(), u.description.as_deref(), u.is_active, u.ip_pool_id.as_deref(), u.node_main_iface.as_str()),
        ("", Some("d"), 0, Some("ip1"), "eth0"));
    assert!(matches!(check_cluster_deletable(1), Err(AppError::Conflict(m)) if m == "cluster has 1 node(s); remove them first"));
    assert!(check_cluster_deletable(0).is_ok());
}

#[test]
fn managed_databases() {
    assert_eq!(db_name_for("shop", "orders"), "p_shop_orders");
    assert_eq!(db_user_with("bob", "a1b2c3d4-0000"), "u_bob_a1b2c3");
    let u = db_user_for("bob");
    assert!(u.starts_with("u_bob_"));
    assert_eq!(u.len(), "u_bob_".len() + 6);
    assert!(u["u_bob_".len()..].chars().all(is_lower_hex));
    assert_eq!(db_secret_name("0123456789abcdef"), "db-01234567");
    let (id, secret) = new_instance_ids();
    assert_eq!(id.len(), 36);
    assert_eq!(&id[8..9], "-");
    assert_eq!(secret, format!("db-{}", &id[..8]));
    assert_eq!(password_from_indices(&vec![0, 26, 61]), "aA9");
    let p = generate_password();
    assert_eq!(p.chars().count(), 24);
    assert!(p.chars().all(|c| PASSWORD_ALPHABET.contains(c)));
    assert!(check_credentials_visible(false, false, &Some("OPERATOR".to_string())).is_ok());
    assert!(check_credentials_visible(true, false, &Some("OBSERVER".to_string())).is_ok());
    assert!(check_credentials_visible(false, true, &None).is_ok());
    assert!(check_credentials_visible(true, false, &None).is_ok());
    assert!(matches!(check_credentials_visible(false, false, &Some("OBSERVER".to_string())),
        Err(AppError::Forbidden(m)) if m == "OBSERVER cannot view credentials"));
    assert!(matches!(check_credentials_visible(false, false, &None),
        Err(AppError::Forbidden(m)) if m == "not a member of this project"));
    let existing = DbClusterRow { host: "h".to_string(), port: 5432, admin_user: "root".to_string(), max_databases: 10, description: None, manager_url: None, is_active: 1 };
    let body = UpdateDbClusterRequest { host: None, port: Some(5433), admin_user: None, admin_password: None, max_databases: None, description: None, manager_url: Some("https://pga".to_string()), is_active: None };
    let (row, pw) = db_cluster_update(&existing, &body);
    assert_eq!((row.host.as_str(), row.port, row.admin_user.as_str(), row.max_databases, row.manager_url.as_deref(), row.is_active),
        ("h", 5433, "root", 10, Some("https://pga"), 1));
    assert!(pw.is_none());
    assert!(matches!(check_db_cluster_deletable(3), Err(AppError::Conflict(m)) if m == "cluster has 3 active databases; drop them first"));
}

#[test]
fn service_endpoint_values() {
    let mq = mq_values(&MqUpsert {
        name: "mq".to_string(), host: "h".to_string(), port: None, vhost: None, username: "u".to_string(),
        password: None, tls_enabled: None, description: None, is_active: None,
    });
    assert_eq!((mq.port, mq.vhost.as_str(), mq.tls_enabled, mq.is_active), (5672, "/", false, true));
    let smtp = smtp_values(&SmtpUpsert {
        name: "s".to_string(), host: "h".to_string(), port: None, username: None, password: None,
        from_address: Some("a@b".to_string()), tls_enabled: None, description: None, is_active: Some(false),
    });
    assert_eq!((smtp.port, smtp.tls_enabled, smtp.is_active, smtp.from_address.as_deref()), (587, true, false, Some("a@b")));
    let redis = redis_values(&RedisUpsert {
        name: "r".to_string(), host: "h".to_string(), port: Some(6380), password: None, db_index: None,
        tls_enabled: None, description: None, is_active: None,
    });
    assert_eq!((redis.port, redis.db_index, redis.tls_enabled, redis.is_active), (6380, 0, false, true));
    assert_eq!(nonempty_password(&Some("".to_string())), None);
    assert_eq!(nonempty_password(&None), None);
    assert_eq!(nonempty_password(&Some("pw".to_string())), Some("pw".to_string()));
    assert_eq!(msg(unique_violation_to_conflict("smtp endpoint", "mail")), "smtp endpoint 'mail' already exists");
}

#[test]
fn backup_targets_and_schedules() {
    assert_eq!(count_fields("0 3 * * *"), 5);
    assert_eq!(count_fields("  0\t3 *  * *  "), 5);
    assert_eq!(count_fields(""), 0);
    assert_eq!(count_fields("0\u{3000}3"), 2);
    assert!(check_cron_expr("*/5 * * * *").is_ok());
    assert!(matches!(check_cron_expr("* * * *"),
        Err(AppError::BadRequest(m)) if m == "cron_expr must have 5 fields (minute hour dom month dow)"));
    assert!(check_cron_update(&None).is_ok());
    assert!(matches!(check_cron_update(&Some("1 2 3 4 5 6".to_string())),
        Err(AppError::BadRequest(m)) if m == "cron_expr must have 5 fields"));
    assert_eq!(backup_type_of(&None).unwrap(), "FILES");
    assert_eq!(backup_type_of(&Some("BOTH".to_string())).unwrap(), "BOTH");
    assert!(matches!(backup_type_of(&Some("ALL".to_string())),
        Err(AppError::BadRequest(m)) if m == "backup_type must be FILES, DB_DUMP, or BOTH"));
    assert_eq!(retention_or_default(None), 7);
    assert!(require_active_target(1, "t").is_ok());
    assert!(matches!(require_active_target(0, "t9"), Err(AppError::NotFound(m)) if m == "s3 target t9"));
    assert!(matches!(check_target_deletable(2),
        Err(AppError::Conflict(m)) if m == "s3 target has 2 active backup schedules; disable them first"));
    let existing = TargetRow { name: "t".to_string(), endpoint: "e".to_string(), region: None, access_key_id: "ak".to_string(), bucket_name: "b".to_string(), is_active: 1 };
    let body = UpdateTargetRequest { name: None, endpoint: None, region: Some("us".to_string()), access_key_id: None, secret_key: Some("sk".to_string()), bucket_name: Some("b2".to_string()), is_active: None };
    let (row, secret) = target_update(&existing, &body);
    assert_eq!((row.name.as_str(), row.region.as_deref(), row.bucket_name.as_str(), row.is_active), ("t", Some("us"), "b2", 1));
    assert_eq!(secret.as_deref(), Some("sk"));
}

#[test]
fn connection_test_and_listing() {
    assert_eq!(bucket_probe_url("minio:9000/", "backups"), "https://minio:9000/backups/");
    assert_eq!(bucket_probe_url("http://minio:9000", "b"), "http://minio:9000/b/");
    assert_eq!(probe_outcome(403).unwrap(), 403);
    assert!(matches!(probe_outcome(500), Err(AppError::BadRequest(m)) if m == "S3 endpoint returned unexpected status 500"));
    let e = |id: &str, t: &str| BackupEntry { id: id.to_string(), s3_target_id: t.to_string() };
    let apps = vec![e("a1", "t1"), e("a2", "t2")];
    let vols = vec![e("v1", "t2"), e("v2", "t1")];
    let ids = |v: Vec<BackupEntry>| v.into_iter().map(|x| x.id).collect::<Vec<_>>();
    assert_eq!(ids(list_backups_on_target(&apps, &vols, &None)), vec!["a1", "a2", "v1", "v2"]);
    assert_eq!(ids(list_backups_on_target(&apps, &vols, &Some("t2".to_string()))), vec!["a2", "v1"]);
    let admin = AuthUser { user_id: "a".to_string(), username: "a".to_string(), is_global_admin: true };
    let user = AuthUser { user_id: "u".to_string(), username: "u".to_string(), is_global_admin: false };
    assert!(matches!(delete_backup_file(&user), Err(AppError::Forbidden(m)) if m == "admin only"));
    assert!(matches!(delete_backup_file(&admin),
        Err(AppError::BadRequest(m)) if m == "S3 file deletion not yet implemented. Use your S3 client directly."));
    assert!(matches!(download_backup_file(&admin),
        Err(AppError::BadRequest(m)) if m == "S3 file download not yet implemented. Use your S3 client directly."));
}

#[test]
fn managed_binding_quota() {
    let k = |used, limit| KindUsage { used, limit };
    let u = ManagedUsage { db_instances: k(2, 3), mq_bindings: k(0, 0), smtp_bindings: k(1, 1), redis_bindings: k(0, 2), s3_bindings: k(5, 0) };
    assert!(check_binding_allowed(&u, &vec![("database_instance".to_string(), 1), ("s3_target".to_string(), 10)]).is_ok());
    match check_binding_allowed(&u, &vec![("mq_endpoint".to_string(), 4), ("database_instance".to_string(), 2), ("smtp_endpoint".to_string(), 1)]) {
        Err(AppError::QuotaExceeded(m)) => assert_eq!(m, "database_instance quota would be exceeded: used=2 + new=2 > limit=3"),
        _ => panic!(),
    }
    assert!(check_binding_allowed(&u, &vec![("unknown".to_string(), 100)]).is_ok());
}
