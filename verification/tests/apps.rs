use quickstack::apps::{
    check_app_quota, check_extra_volume_allowed, cluster_in_pool, container_args_json, create_defaults, db_credentials,
    deploy_charge, duplicate_app_name, env_is_secret, env_value_shown, extra_volume_read_only, managed_volume_path,
    managed_volume_shared, metrics_range_secs, metrics_step, orchestrator_of, pool_for_app, port_protocol,
    resume_charge, reuse_bound_cluster, scale_charge, scale_message, update_assignments, update_sql, uses_docker,
    volume_backup_defaults, AddExtraVolumeRequest, AddPortRequest, CreateAppRequest, CreateManagedVolumeRequest,
    CreateVolumeBackupRequest, EnvShown, MetricsHistoryQuery, SetEnvRequest, UpdateAppRequest,
};
use quickstack::error::AppError;

fn create_request() -> CreateAppRequest {
    CreateAppRequest {
        name: "web".to_string(),
        display_name: None,
        pool_id: None,
        source_type: "IMAGE".to_string(),
        container_image: Some("nginx".to_string()),
        container_registry_user: None,
        container_registry_pass: None,
        git_url: None,
        git_branch: None,
        git_token: None,
        dockerfile_path: None,
        container_command: None,
        container_args: None,
        working_dir: None,
        replicas: None,
        cpu_reservation_mcores: None,
        cpu_limit_mcores: None,
        mem_reservation_mb: None,
        mem_limit_mb: None,
        run_as_user: None,
        run_as_group: None,
        fs_group: None,
        privileged: None,
        read_only_root_fs: None,
        gpu_enabled: None,
        gpu_count: None,
        mount_ldap_files: None,
        mount_etc_hosts: Some(false),
        mount_user_home: None,
        mount_app_data: None,
        mount_app_logs: None,
        timezone: None,
        anti_affinity_enabled: None,
        health_check_type: None,
        health_check_path: None,
        health_check_port: None,
        health_check_scheme: None,
        health_check_period: None,
        health_check_timeout: None,
        health_check_failures: None,
        app_type: None,
        use_network_policy: None,
        ingress_network_policy: None,
        egress_network_policy: Some("DENY_ALL".to_string()),
    }
}

fn update_request() -> UpdateAppRequest {
    UpdateAppRequest {
        display_name: None,
        pool_id: None,
        container_image: None,
        container_registry_user: None,
        container_registry_pass: None,
        git_url: None,
        git_branch: None,
        git_token: None,
        dockerfile_path: None,
        container_command: None,
        container_args: None,
        working_dir: None,
        cpu_reservation_mcores: None,
        cpu_limit_mcores: None,
        mem_reservation_mb: None,
        mem_limit_mb: None,
        run_as_user: None,
        run_as_group: None,
        fs_group: None,
        privileged: None,
        read_only_root_fs: None,
        gpu_enabled: None,
        gpu_count: None,
        mount_ldap_files: None,
        mount_etc_hosts: None,
        mount_user_home: None,
        mount_app_data: None,
        mount_app_logs: None,
        timezone: None,
        anti_affinity_enabled: None,
        health_check_type: None,
        health_check_path: None,
        health_check_port: None,
        health_check_scheme: None,
        health_check_period: None,
        health_check_timeout: None,
        health_check_failures: None,
        app_type: None,
        use_network_policy: None,
        ingress_network_policy: None,
        egress_network_policy: None,
    }
}

#[test]
fn app_quota() {
    assert!(check_app_quota(10, 0).is_ok());
    assert!(check_app_quota(2, 3).is_ok());
    match check_app_quota(3, 3) {
        Err(AppError::QuotaExceeded(m)) => assert_eq!(m, "project app quota reached"),
        _ => panic!(),
    }
}

#[test]
fn defaults_of_a_new_app() {
    let d = create_defaults(&create_request());
    assert_eq!(d.dockerfile_path, "Dockerfile");
    assert_eq!(d.replicas, 1);
    assert!(!d.privileged && !d.read_only_root_fs && !d.gpu_enabled);
    assert_eq!(d.gpu_count, 0);
    assert_eq!(d.timezone, "Asia/Shanghai");
    assert_eq!(d.mounts, [true, false, true, true, true]);
    assert!(d.anti_affinity_enabled);
    assert_eq!(d.health_check_type, "NONE");
    assert_eq!(d.health_check_scheme, "HTTP");
    assert_eq!((d.health_check_period, d.health_check_timeout, d.health_check_failures), (10, 5, 3));
    assert_eq!(d.app_type, "APP");
    assert!(!d.use_network_policy);
    assert_eq!(d.ingress_network_policy, "ALLOW_ALL");
    assert_eq!(d.egress_network_policy, "DENY_ALL");
    match duplicate_app_name("web") {
        AppError::Conflict(m) => assert_eq!(m, "app name 'web' already exists in project"),
        _ => panic!(),
    }
}

#[test]
fn update_assignments_in_fixed_order() {
    let mut b = update_request();
    b.display_name = Some("Web".to_string());
    b.cpu_limit_mcores = Some(500);
    b.privileged = Some(false);
    b.health_check_port = Some(8080);
    let a = update_assignments(&b, &Some("enc".to_string()), &None, &Some("[\"-v\"]".to_string()));
    let cols: Vec<(&str, &str)> = a.iter().map(|(c, v)| (c.as_str(), v.as_str())).collect();
    assert_eq!(
        cols,
        vec![
            ("display_name = ?", "Web"),
            ("container_registry_pass = ?", "enc"),
            ("container_args = ?", "[\"-v\"]"),
            ("cpu_limit_mcores = ?", "500"),
            ("privileged = ?", "0"),
            ("health_check_port = ?", "8080"),
        ]
    );
    assert_eq!(
        update_sql(&a).unwrap(),
        "UPDATE apps SET display_name = ?, container_registry_pass = ?, container_args = ?, cpu_limit_mcores = ?, privileged = ?, health_check_port = ? WHERE id = ?"
    );
    assert!(update_assignments(&update_request(), &None, &None, &None).is_empty());
    assert_eq!(update_sql(&vec![]), None);
}

#[test]
fn container_args_as_json() {
    assert_eq!(container_args_json(&None).unwrap(), None);
    assert_eq!(
        container_args_json(&Some(vec!["--port".to_string(), "80".to_string()])).unwrap(),
        Some("[\"--port\",\"80\"]".to_string())
    );
    assert_eq!(container_args_json(&Some(vec![])).unwrap(), Some("[]".to_string()));
}

#[test]
fn quota_charges_of_deploy_resume_and_scale() {
    assert_eq!(deploy_charge("STOPPED", 500, 256, 2), Some((1000, 512)));
    assert_eq!(deploy_charge("FAILED", 1, 1, 3), Some((3, 3)));
    assert_eq!(deploy_charge("RUNNING", 500, 256, 2), None);
    assert_eq!(resume_charge("SUSPENDED", 100, 64, 3), Some((300, 192)));
    assert_eq!(resume_charge("PAUSED", 100, 64, 3), None);
    assert_eq!(scale_charge(5, 2, 100, 10).unwrap(), Some((300, 30)));
    assert_eq!(scale_charge(1, 2, 100, 10).unwrap(), None);
    match scale_charge(-1, 2, 100, 10) {
        Err(AppError::BadRequest(m)) => assert_eq!(m, "replicas must be >= 0"),
        _ => panic!(),
    }
    assert_eq!(scale_message(4), "scaled to 4 replicas");
}

#[test]
fn environment_variables() {
    let observer = Some("OBSERVER".to_string());
    assert_eq!(env_value_shown(true, false, &observer), EnvShown::Hidden);
    assert_eq!(env_value_shown(true, true, &observer), EnvShown::Decrypted);
    assert_eq!(env_value_shown(true, false, &Some("OPERATOR".to_string())), EnvShown::Decrypted);
    assert_eq!(env_value_shown(false, false, &observer), EnvShown::Plain);
    let plain = SetEnvRequest { key: "A".to_string(), value: "1".to_string(), is_secret: None };
    assert!(!env_is_secret(&plain));
    let secret = SetEnvRequest { key: "A".to_string(), value: "1".to_string(), is_secret: Some(true) };
    assert!(env_is_secret(&secret));
    assert_eq!(port_protocol(&AddPortRequest { container_port: 53, protocol: None }), "TCP");
    assert_eq!(port_protocol(&AddPortRequest { container_port: 53, protocol: Some("UDP".to_string()) }), "UDP");
}

#[test]
fn metrics_ranges() {
    let q = |r: Option<&str>, s: Option<u32>| MetricsHistoryQuery {
        metric: "cpu".to_string(),
        range: r.map(|x| x.to_string()),
        step: s,
    };
    assert_eq!(metrics_range_secs(&q(None, None)), 3600);
    assert_eq!(metrics_range_secs(&q(Some("30m"), None)), 1800);
    assert_eq!(metrics_range_secs(&q(Some("7d"), None)), 604800);
    assert_eq!(metrics_range_secs(&q(Some("900"), None)), 900);
    assert_eq!(metrics_range_secs(&q(Some("soon"), None)), 3600);
    assert_eq!(metrics_step(&q(None, None)), 60);
    assert_eq!(metrics_step(&q(None, Some(15))), 15);
}

#[test]
fn database_credentials() {
    let env = vec![
        ("POSTGRES_USER".to_string(), "app".to_string()),
        ("POSTGRES_PASSWORD".to_string(), "old".to_string()),
        ("POSTGRES_PASSWORD".to_string(), "s3cret".to_string()),
    ];
    let c = db_credentials("POSTGRES", "pg", "shop", &env).unwrap();
    assert_eq!(c.host, "pg.shop.svc.cluster.local");
    assert_eq!(c.port, 5432);
    assert_eq!(c.database, "postgres");
    assert_eq!(c.username, "app");
    assert_eq!(c.password, "s3cret");
    let r = db_credentials("REDIS", "cache", "shop", &vec![]).unwrap();
    assert_eq!((r.port, r.database.as_str(), r.username.as_str(), r.password.as_str()), (6379, "", "", ""));
    match db_credentials("APP", "web", "shop", &env) {
        Err(AppError::BadRequest(m)) => assert_eq!(m, "app is not a database type"),
        _ => panic!(),
    }
}

#[test]
fn volumes() {
    assert!(check_extra_volume_allowed(true).is_ok());
    match check_extra_volume_allowed(false) {
        Err(AppError::Forbidden(m)) => {
            assert_eq!(m, "extra host-path volumes require global admin \u{2014} use managed volumes instead")
        },
        _ => panic!(),
    }
    let v = AddExtraVolumeRequest { host_path: "/data".to_string(), mount_path: "/d".to_string(), read_only: None };
    assert!(!extra_volume_read_only(&v));
    assert_eq!(managed_volume_path("/storage", "p1", "v9"), "/storage/projects/p1/volumes/v9");
    let m = CreateManagedVolumeRequest {
        name: "data".to_string(),
        container_mount_path: "/data".to_string(),
        share_with_others: None,
        shared_volume_id: None,
    };
    assert!(!managed_volume_shared(&m));
    let b = CreateVolumeBackupRequest {
        s3_target_id: "t".to_string(),
        cron_expr: "0 3 * * *".to_string(),
        retention_days: None,
        use_db_backup: None,
    };
    assert_eq!(volume_backup_defaults(&b), (7, false));
}

#[test]
fn cluster_placement() {
    assert_eq!(reuse_bound_cluster(&Some("c1".to_string()), 1), Some("c1".to_string()));
    assert_eq!(reuse_bound_cluster(&Some("c1".to_string()), 0), None);
    assert_eq!(pool_for_app(&Some("p".to_string()), &Some("d".to_string())).unwrap(), "p");
    assert_eq!(pool_for_app(&None, &Some("d".to_string())).unwrap(), "d");
    match pool_for_app(&None, &None) {
        Err(AppError::BadRequest(m)) => {
            assert_eq!(m, "no active cluster available \u{2014} create or activate a cluster before deploying")
        },
        _ => panic!(),
    }
    match cluster_in_pool(None, "p7") {
        Err(AppError::BadRequest(m)) => assert_eq!(m, "no active cluster found in pool p7"),
        _ => panic!(),
    }
    assert_eq!(cluster_in_pool(Some("c2".to_string()), "p7").unwrap(), "c2");
    assert_eq!(orchestrator_of(None), "K3S");
    assert!(uses_docker("DOCKER"));
    assert!(!uses_docker("K3S"));
}
