use quickstack::agent::auth::require_token;
use quickstack::agent::containers::{container_info, default_tail, log_event_data};
use quickstack::agent::docker_ops::{
    command_line, env_strings, file_mount_plan, gpu_plan, health_plan, memory_bytes, nano_cpus, port_plan,
    restart_kind, run_container_plan, volume_binds, RestartKind,
};
use quickstack::agent::networks::{created_response, ensure_step, EnsureStep, InspectOutcome};
use quickstack::agent::status::health;
use quickstack::agent::types::{
    default_interval, default_protocol, default_restart_policy, default_retries, default_timeout,
    EnsureNetworkRequest, FileMount, HealthCheck, PortBinding, RunContainerRequest, VolumeMount,
};

fn strs(v: &[&str]) -> Vec<String> {
    v.iter().map(|s| s.to_string()).collect()
}

#[test]
fn bearer_token() {
    assert!(require_token("Bearer s3cret", "s3cret"));
    assert!(!require_token("Bearer s3cret2", "s3cret"));
    assert!(!require_token("bearer s3cret", "s3cret"));
    assert!(!require_token("", "s3cret"));
    assert!(require_token("Bearer ", ""));
}

#[test]
fn request_defaults() {
    assert_eq!(default_restart_policy(), "unless-stopped");
    assert_eq!(default_protocol(), "tcp");
    assert_eq!((default_interval(), default_timeout(), default_retries()), (30, 5, 3));
    assert_eq!(default_tail(), "100");
}

#[test]
fn environment_binds_and_ports() {
    assert_eq!(env_strings(&vec![("A".to_string(), "1".to_string()), ("B".to_string(), "x=y".to_string())]), strs(&["A=1", "B=x=y"]));
    let vs = vec![
        VolumeMount { host_path: "/h".to_string(), container_path: "/c".to_string(), read_only: false },
        VolumeMount { host_path: "/r".to_string(), container_path: "/ro".to_string(), read_only: true },
    ];
    assert_eq!(volume_binds(&vs), strs(&["/h:/c", "/r:/ro:ro"]));
    let ports = port_plan(&vec![PortBinding { container_port: 80, host_port: 30080, protocol: "tcp".to_string() }]);
    assert_eq!((ports[0].key.as_str(), ports[0].host_ip.as_str(), ports[0].host_port.as_str()), ("80/tcp", "0.0.0.0", "30080"));
    let fm = vec![FileMount { filename: "app.conf".to_string(), mount_path: "/etc/app.conf".to_string(), content: "x=1".to_string() }];
    let p = file_mount_plan("/var/lib/qs/files", "web", &fm);
    assert_eq!(p.dir.as_deref(), Some("/var/lib/qs/files/web"));
    assert_eq!(p.writes[0].path, "/var/lib/qs/files/web/app.conf");
    assert_eq!(p.writes[0].content, "x=1");
    assert_eq!(p.binds, strs(&["/var/lib/qs/files/web/app.conf:/etc/app.conf:ro"]));
    assert!(file_mount_plan("/d", "web", &vec![]).dir.is_none());
}

#[test]
fn limits_gpus_and_restart() {
    assert_eq!(nano_cpus(Some(500)), Some(500_000_000));
    assert_eq!(nano_cpus(None), None);
    assert_eq!(memory_bytes(Some(256)), Some(268_435_456));
    let g = gpu_plan(2).unwrap();
    assert_eq!((g.driver.as_str(), g.count), ("nvidia", 2));
    assert_eq!(g.capabilities, vec![strs(&["gpu"])]);
    assert!(gpu_plan(0).is_none());
    assert_eq!(restart_kind("always"), RestartKind::Always);
    assert_eq!(restart_kind("on-failure"), RestartKind::OnFailure);
    assert_eq!(restart_kind("no"), RestartKind::No);
    assert_eq!(restart_kind("whatever"), RestartKind::UnlessStopped);
    assert_eq!(command_line(&None, &Some(vec![])), None);
    assert_eq!(command_line(&Some(strs(&["sh"])), &Some(strs(&["-c", "x"]))), Some(strs(&["sh", "-c", "x"])));
}

fn probe(kind: &str, port: Option<u16>, path: Option<&str>, cmd: Option<&str>) -> HealthCheck {
    HealthCheck {
        check_type: kind.to_string(),
        port,
        path: path.map(|s| s.to_string()),
        cmd: cmd.map(|s| s.to_string()),
        interval_secs: 30,
        timeout_secs: 5,
        retries: 3,
    }
}

#[test]
fn health_probes() {
    let h = health_plan(&probe("HTTP", Some(8080), Some("/healthz"), None));
    assert_eq!(h.test, strs(&["CMD", "curl", "-sf", "http://localhost:8080/healthz"]));
    assert_eq!((h.interval_ns, h.timeout_ns, h.retries), (30_000_000_000, 5_000_000_000, 3));
    assert_eq!(health_plan(&probe("HTTP", None, None, None)).test[3], "http://localhost:80/");
    assert_eq!(health_plan(&probe("TCP", Some(5432), None, None)).test,
        strs(&["CMD", "sh", "-c", "cat < /dev/null > /dev/tcp/localhost/5432"]));
    assert_eq!(health_plan(&probe("CMD", None, None, Some("pg_isready"))).test, strs(&["CMD-SHELL", "pg_isready"]));
    assert_eq!(health_plan(&probe("CMD", None, None, None)).test, strs(&["CMD-SHELL", "true"]));
}

#[test]
fn whole_container_plan() {
    let req = RunContainerRequest {
        container_name: "web".to_string(),
        image: "nginx:1".to_string(),
        command: None,
        args: Some(strs(&["-g", "daemon off;"])),
        working_dir: Some("/srv".to_string()),
        env: vec![("A".to_string(), "1".to_string())],
        cpu_limit_mcores: Some(250),
        mem_limit_mb: None,
        gpu_count: 0,
        network_name: Some("qs-vpc".to_string()),
        ip_address: Some("10.0.0.5".to_string()),
        extra_networks: vec![],
        port_bindings: vec![],
        volumes: vec![VolumeMount { host_path: "/h".to_string(), container_path: "/c".to_string(), read_only: false }],
        file_mounts: vec![FileMount { filename: "f".to_string(), mount_path: "/f".to_string(), content: "".to_string() }],
        health_check: None,
        restart_policy: "always".to_string(),
        user: None,
        privileged: false,
        read_only_rootfs: true,
        registry_auth: None,
    };
    let p = run_container_plan(&req, "/files");
    assert_eq!(p.name, "web");
    assert_eq!(p.cmd, Some(strs(&["-g", "daemon off;"])));
    assert_eq!(p.env, strs(&["A=1"]));
    assert_eq!(p.binds, strs(&["/h:/c", "/files/web/f:/f:ro"]));
    assert_eq!(p.nano_cpus, Some(250_000_000));
    assert_eq!(p.memory, None);
    assert!(p.gpu.is_none() && p.healthcheck.is_none());
    assert_eq!(p.restart, RestartKind::Always);
    assert!(p.readonly_rootfs && !p.privileged);
    assert_eq!(p.network, Some(("qs-vpc".to_string(), Some("10.0.0.5".to_string()))));
}

#[test]
fn container_listing_and_logs() {
    let c = container_info(Some("abc".to_string()), Some(strs(&["//web", "alias"])), None, Some("running".to_string()), None, Some(7));
    assert_eq!((c.id.as_str(), c.name.as_str(), c.image.as_str(), c.state.as_str(), c.status.as_str(), c.created),
        ("abc", "web", "", "running", "", 7));
    assert_eq!(container_info(None, Some(vec![]), None, None, None, None).name, "");
    assert_eq!(log_event_data("line one \r\n"), "line one");
}

#[test]
fn network_ensure() {
    let req = EnsureNetworkRequest {
        name: "qs-vpc".to_string(),
        subnet: "10.0.0.0/24".to_string(),
        gateway: Some("10.0.0.1".to_string()),
        bridge_name: Some("br-vpc".to_string()),
    };
    match ensure_step(&req, InspectOutcome::Found(Some("n1".to_string()))) {
        EnsureStep::Existing(r) => assert!(r.network_id == "n1" && !r.created),
        _ => panic!(),
    }
    match ensure_step(&req, InspectOutcome::Missing) {
        EnsureStep::Create(p) => {
            assert_eq!((p.name.as_str(), p.driver.as_str(), p.subnet.as_str()), ("qs-vpc", "bridge", "10.0.0.0/24"));
            assert_eq!(p.options, vec![("com.docker.network.bridge.name".to_string(), "br-vpc".to_string())]);
        },
        _ => panic!(),
    }
    match ensure_step(&req, InspectOutcome::Failed("boom".to_string())) {
        EnsureStep::Fail(m) => assert_eq!(m, "boom"),
        _ => panic!(),
    }
    let r = created_response(None);
    assert!(r.network_id.is_empty() && r.created);
}

#[test]
fn status_report() {
    let s = health(&"node-1".to_string(), None, Some(3), Some(8), Some(2 * 1024 * 1024 * 1024));
    assert!(s.ok);
    assert_eq!((s.node_id.as_str(), s.docker_version.as_str(), s.containers_running, s.cpu_count, s.mem_total_mb),
        ("node-1", "unknown", 3, 8, 2048));
    let z = health(&"n".to_string(), Some("27.0".to_string()), None, None, None);
    assert_eq!((z.docker_version.as_str(), z.containers_running, z.cpu_count, z.mem_total_mb), ("27.0", 0, 0, 0));
}
