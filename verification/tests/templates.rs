use quickstack::error::AppError;
use quickstack::templates::{
    check_template_owner, check_template_visible, render_image_ref, template_defaults, validate_new_template,
    validate_template_update,
};
use quickstack::templates_deploy::{
    binding_config_files, binding_env_vars, binding_kind, binding_quota_delta, check_app_name, counts_as_new, db_attrs, deploy_env,
    deploy_image, drops_on_app_delete, find_binding, mq_attrs, parse_env_block, provision_names, redis_attrs,
    resolve_step, s3_attrs, smtp_attrs, split_path, template_app_row, template_ports, validate_bindings, AppModel,
    BindingRequest, ConfigFileSpec, Requirement, ResolveStep, TemplateInput,
};

fn pairs(v: &[(String, String)]) -> Vec<(&str, &str)> {
    v.iter().map(|(a, b)| (a.as_str(), b.as_str())).collect()
}

#[test]
fn image_references() {
    assert_eq!(render_image_ref(&Some("reg.io".to_string()), "app", "v1", &None), "reg.io/app:v1");
    assert_eq!(render_image_ref(&Some("docker.io".to_string()), "nginx", "", &None), "nginx");
    assert_eq!(render_image_ref(&None, "nginx", "1.25", &Some("sha256:ab".to_string())), "nginx:1.25@sha256:ab");
    assert_eq!(render_image_ref(&Some("".to_string()), "x", "t", &Some("".to_string())), "x:t");
}

#[test]
fn template_visibility_and_ownership() {
    let me = Some("u1".to_string());
    assert!(check_template_visible("PUBLIC", &None, &None, false, "u2", false).is_ok());
    assert!(check_template_visible("PRIVATE", &me, &None, false, "u1", false).is_ok());
    assert!(matches!(check_template_visible("PRIVATE", &me, &None, false, "u2", false),
        Err(AppError::Forbidden(m)) if m == "template not visible to you"));
    assert!(check_template_visible("PRIVATE", &me, &None, false, "u2", true).is_ok());
    assert!(check_template_visible("ORG", &None, &Some("p".to_string()), true, "u2", false).is_ok());
    assert!(check_template_visible("ORG", &None, &Some("p".to_string()), false, "u2", false).is_err());
    assert!(check_template_owner(&Some("p1".to_string()), "p1", "t1").is_ok());
    assert!(matches!(check_template_owner(&None, "p1", "t1"), Err(AppError::NotFound(m)) if m == "template t1"));
}

#[test]
fn template_validation() {
    assert!(validate_new_template("my_app-1", "My app", "repo/app").is_ok());
    assert!(matches!(validate_new_template("", "x", "r"), Err(AppError::BadRequest(m)) if m == "slug and name are required"));
    assert!(matches!(validate_new_template("a b", "x", "r"),
        Err(AppError::BadRequest(m)) if m == "slug may contain only alphanumerics, '-' or '_'"));
    assert!(matches!(validate_new_template("ab", "x", ""), Err(AppError::BadRequest(m)) if m == "image_repository is required"));
    assert!(validate_template_update("r").is_ok());
    assert!(validate_template_update("").is_err());
    assert_eq!(template_defaults(&None, &None), ("app".to_string(), "latest".to_string()));
}

fn binding(key: &str, mode: &str, managed: Option<&str>, cluster: Option<&str>, hint: Option<&str>) -> BindingRequest {
    BindingRequest {
        requirement_key: key.to_string(),
        mode: mode.to_string(),
        managed_ref_id: managed.map(|s| s.to_string()),
        provision_cluster_id: cluster.map(|s| s.to_string()),
        provision_name_hint: hint.map(|s| s.to_string()),
    }
}

fn requirement(key: &str, kind: &str) -> Requirement {
    Requirement {
        key: key.to_string(),
        kind: kind.to_string(),
        engine: "postgres".to_string(),
        label: None,
        env_mapping: vec![],
        config_files: vec![],
    }
}

#[test]
fn bindings_cover_every_requirement() {
    let reqs = vec![requirement("db", "database"), requirement("cache", "cache")];
    let ok = vec![binding("db", "managed", Some("d1"), None, None), binding("cache", "managed", Some("r1"), None, None)];
    assert!(validate_bindings(&reqs, &ok).is_ok());
    assert_eq!(find_binding(&ok, "cache"), Some(1));
    assert_eq!(find_binding(&ok, "mail"), None);
    let missing = vec![binding("db", "managed", Some("d1"), None, None)];
    assert!(matches!(validate_bindings(&reqs, &missing),
        Err(AppError::BadRequest(m)) if m == "binding required for declared requirement 'cache'"));
    let skipped = vec![binding("db", "skip", None, None, None), binding("cache", "managed", Some("r"), None, None)];
    assert!(matches!(validate_bindings(&reqs, &skipped),
        Err(AppError::BadRequest(m)) if m == "declared requirement 'db' cannot be skipped"));
    assert!(check_app_name("x").is_ok());
    assert!(matches!(check_app_name(""), Err(AppError::BadRequest(m)) if m == "app_name is required"));
}

#[test]
fn binding_resolution() {
    let db = requirement("db", "database");
    assert!(matches!(resolve_step(&db, &binding("db", "managed", Some("d1"), None, None)),
        Ok(ResolveStep::ExistingDatabase(x)) if x == "d1"));
    assert!(matches!(resolve_step(&db, &binding("db", "provision", None, Some("c1"), None)),
        Ok(ResolveStep::ProvisionDatabase { cluster_id, name_hint }) if cluster_id == "c1" && name_hint == "db"));
    assert!(matches!(resolve_step(&db, &binding("db", "provision", None, None, None)),
        Err(AppError::BadRequest(m)) if m == "provision_cluster_id required"));
    assert!(matches!(resolve_step(&db, &binding("db", "managed", None, None, None)),
        Err(AppError::BadRequest(m)) if m == "managed_ref_id required"));
    assert!(matches!(resolve_step(&requirement("s", "objstore"), &binding("s", "provision", None, None, None)),
        Err(AppError::BadRequest(m)) if m == "S3 provisioning is not supported \u{2014} pick an existing target"));
    assert!(matches!(resolve_step(&requirement("q", "queue"), &binding("q", "managed", Some("x"), None, None)),
        Err(AppError::BadRequest(m)) if m == "unsupported binding: kind=queue mode=managed"));
    assert!(matches!(resolve_step(&requirement("m", "smtp"), &binding("m", "managed", Some("s9"), None, None)),
        Ok(ResolveStep::ExistingSmtp(x)) if x == "s9"));
    assert_eq!(binding_kind("cache"), Some("redis_endpoint".to_string()));
    assert_eq!(binding_kind("gpu"), None);
    assert!(counts_as_new(&binding("db", "provision", None, Some("c"), None), 5));
    assert!(counts_as_new(&binding("db", "managed", Some("d"), None, None), 0));
    assert!(!counts_as_new(&binding("db", "managed", Some("d"), None, None), 1));
    assert!(drops_on_app_delete("database_instance", 1));
    assert!(!drops_on_app_delete("database_instance", 0));
    assert!(!drops_on_app_delete("redis_endpoint", 1));
}

#[test]
fn attribute_maps() {
    let a = db_attrs("db", 5432, "p_x_db", "u_x", "pw");
    assert_eq!(pairs(&a), vec![("database", "p_x_db"), ("host", "db"), ("name", "p_x_db"), ("password", "pw"),
        ("port", "5432"), ("user", "u_x"), ("username", "u_x")]);
    let s = s3_attrs("https://s3", &None, "b", "ak", "sk");
    assert_eq!(pairs(&s), vec![("access_key", "ak"), ("bucket", "b"), ("endpoint", "https://s3"), ("region", ""), ("secret_key", "sk")]);
    let m = mq_attrs("mq", 5672, "//prod", "u", "p", true);
    assert_eq!(m[4].1, "amqps://u:p@mq:5672/prod");
    let m2 = mq_attrs("mq", 5672, "/", "u", "p", false);
    assert_eq!(m2[4].1, "amqp://u:p@mq:5672");
    let r = redis_attrs("cache", 6379, "", -1, false);
    assert_eq!(pairs(&r), vec![("db", "-1"), ("host", "cache"), ("password", ""), ("port", "6379"), ("tls", "false"),
        ("url", "redis://cache:6379/-1")]);
    assert_eq!(redis_attrs("c", 1, "pw", 2, true)[5].1, "rediss://:pw@c:1/2");
    let sm = smtp_attrs("smtp", 587, &None, "pw", &Some("a@b".to_string()), true);
    assert_eq!(pairs(&sm), vec![("from", "a@b"), ("from_address", "a@b"), ("host", "smtp"), ("password", "pw"),
        ("port", "587"), ("tls", "true"), ("user", ""), ("username", "")]);
}

#[test]
fn injected_variables_and_files() {
    let attrs = db_attrs("db", 5432, "n", "u", "p");
    let mapping = vec![
        ("host".to_string(), Some("DB_HOST".to_string())),
        ("nope".to_string(), Some("X".to_string())),
        ("port".to_string(), None),
        ("password".to_string(), Some("DB_PASS".to_string())),
    ];
    let env = binding_env_vars(&mapping, &attrs);
    let got: Vec<(&str, &str, bool)> = env.iter().map(|(a, b, c)| (a.as_str(), b.as_str(), *c)).collect();
    assert_eq!(got, vec![("DB_HOST", "db", true), ("DB_PASS", "p", true)]);
    let mut req = requirement("db", "database");
    req.config_files = vec![ConfigFileSpec { path: "/etc/app/db.conf".to_string(), template: "{{ host }}:{{ port }}".to_string() }];
    let files = binding_config_files(&req, &attrs).unwrap();
    assert_eq!(pairs(&files), vec![("/etc/app/db.conf", "db:5432")]);
    req.config_files = vec![ConfigFileSpec { path: "/x".to_string(), template: "{{ host ".to_string() }];
    match binding_config_files(&req, &attrs) {
        Err(AppError::BadRequest(m)) => assert!(m.starts_with("config file render failed for requirement 'db': ")),
        _ => panic!(),
    }
    assert_eq!(split_path("/etc/app/db.yml"), ("/etc/app".to_string(), "db.yml".to_string()));
    assert_eq!(split_path("/db.yml"), ("/".to_string(), "db.yml".to_string()));
    assert_eq!(split_path("db.yml"), (".".to_string(), "db.yml".to_string()));
}

#[test]
fn env_blocks_like_str_lines() {
    let r = parse_env_block("A=1\r\n# comment\n\n B = two words \nNOEQ\nC==x");
    assert_eq!(pairs(&r), vec![("A", "1"), ("B", "two words"), ("C", "=x")]);
    assert!(parse_env_block("").is_empty());
}

#[test]
fn provisioned_names() {
    let n = provision_names("my-db!", "shop", "bob.smith", "abcdef123", "0123456789").unwrap();
    assert_eq!(n.db_name, "p_shop_mydb");
    assert_eq!(n.db_user, "u_bob_smith_abcdef");
    assert_eq!(n.secret_name, "db-01234567");
    assert!(matches!(provision_names("--", "shop", "bob", "abcdef", "01234567"),
        Err(AppError::BadRequest(m)) if m == "provision_name_hint produced empty identifier"));
}

fn model() -> AppModel {
    AppModel {
        app_type: None,
        source_type: None,
        ingress_network_policy: None,
        egress_network_policy: Some("DENY_ALL".to_string()),
        use_network_policy: None,
        replicas: Some(3),
        health_check_period: None,
        health_check_timeout: None,
        health_check_failures: None,
        env_vars: Some("TZ=UTC\nMODE=prod".to_string()),
    }
}

#[test]
fn template_app_rows() {
    let r = template_app_row("web", &None, &model());
    assert_eq!(r.display_name, "web");
    assert_eq!((r.app_type.as_str(), r.source_type.as_str()), ("APP", "CONTAINER"));
    assert_eq!((r.ingress_network_policy.as_str(), r.egress_network_policy.as_str()), ("ALLOW_ALL", "DENY_ALL"));
    assert!(r.use_network_policy);
    assert_eq!((r.replicas, r.health_check_period, r.health_check_timeout, r.health_check_failures), (3, 15, 10, 3));
    assert_eq!(template_ports(&vec![Some(80), None, Some(0), Some(65536 + 443)]), vec![80, 443]);
}

#[test]
fn deploy_image_and_environment() {
    let overrides = vec![
        ("containerImageSource".to_string(), Some("custom:1".to_string())),
        ("PORT".to_string(), Some("9000".to_string())),
    ];
    assert_eq!(deploy_image(&overrides, "rendered:1".to_string()), "custom:1");
    assert_eq!(deploy_image(&vec![], "rendered:1".to_string()), "rendered:1");
    let inputs = vec![
        TemplateInput { is_env_var: Some(true), key: Some("PORT".to_string()), value: Some("8080".to_string()) },
        TemplateInput { is_env_var: Some(true), key: Some("LOG".to_string()), value: None },
        TemplateInput { is_env_var: None, key: Some("IGNORED".to_string()), value: Some("x".to_string()) },
    ];
    let env = deploy_env(&model(), &inputs, &overrides, vec![("DB_HOST".to_string(), "db".to_string(), true)]);
    let got: Vec<(&str, &str, bool)> = env.iter().map(|(a, b, c)| (a.as_str(), b.as_str(), *c)).collect();
    assert_eq!(got, vec![
        ("TZ", "UTC", false),
        ("MODE", "prod", false),
        ("PORT", "9000", false),
        ("LOG", "", false),
        ("DB_HOST", "db", true),
    ]);
}

#[test]
fn quota_delta_counts_new_resources_per_kind() {
    let reqs = vec![
        requirement("db", "database"),
        requirement("db2", "database"),
        requirement("cache", "cache"),
        requirement("mail", "smtp"),
        requirement("other", "unknown"),
    ];
    let bs = vec![
        binding("db", "provision", None, Some("c1"), Some("main")),
        binding("db2", "managed", Some("inst-1"), None, None),
        binding("cache", "managed", Some("r-1"), None, None),
        binding("mail", "managed", Some("s-1"), None, None),
        binding("other", "provision", None, None, None),
    ];
    // db2's instance is new to the project; the cache is already bound there.
    let existing = vec![0, 0, 2, 0, 0];
    let mut d = binding_quota_delta(&reqs, &bs, &existing);
    d.sort();
    assert_eq!(d, vec![("database_instance".to_string(), 2), ("smtp_endpoint".to_string(), 1)]);
    let none = binding_quota_delta(&reqs, &Vec::new(), &existing);
    assert!(none.is_empty());
}

#[test]
fn rebinding_already_bound_resources_costs_nothing() {
    let reqs = vec![requirement("db", "database"), requirement("mq", "mq")];
    let bs = vec![
        binding("db", "managed", Some("inst-1"), None, None),
        binding("mq", "managed", Some("mq-1"), None, None),
    ];
    assert!(binding_quota_delta(&reqs, &bs, &vec![1, 3]).is_empty());
}

#[test]
fn project_templates_are_for_owners_and_bindings_are_recorded() {
    assert!(quickstack::templates::check_template_manager(false, true, &Some("VIEWER".to_string())).is_ok());
    assert!(quickstack::templates::check_template_manager(true, false, &None).is_ok());
    assert!(matches!(quickstack::templates::check_template_manager(false, false, &Some("ADMIN".to_string())),
        Err(AppError::Forbidden(m)) if m == "OWNER role required"));
    assert!(matches!(quickstack::templates::check_template_manager(false, false, &None),
        Err(AppError::Forbidden(m)) if m == "not a member of this project"));
    let r = quickstack::templates_deploy::binding_record("db", &ResolveStep::ProvisionDatabase { cluster_id: "c1".to_string(), name_hint: "main".to_string() }, "inst-9");
    assert_eq!((r.requirement_key.as_str(), r.binding_kind.as_str(), r.binding_ref_id.as_str(), r.provisioned), ("db", "database_instance", "inst-9", true));
    let r = quickstack::templates_deploy::binding_record("mq", &ResolveStep::ExistingMq("mq-1".to_string()), "unused");
    assert_eq!((r.binding_kind.as_str(), r.binding_ref_id.as_str(), r.provisioned), ("mq_endpoint", "mq-1", false));
}
