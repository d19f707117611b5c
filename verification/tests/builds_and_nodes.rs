use quickstack::builds::{
    agent_log_url, build_branch, build_cluster, build_container_request, build_job_name, build_log_source,
    build_registry_config_json, check_buildable, check_cancellable, docker_watch_step, k8s_watch_step, kaniko_args,
    sse_data_lines, ContainerPoll, LogSource, WatchStep,
};
use quickstack::error::AppError;
use quickstack::nodes::{
    node_cluster, node_update, plan_node_add, plan_reprovision, provision_stream_step, AddNodeRequest, NodeSettings, ReprovisionRequest, UpdateNodeRequest,
};

#[test]
fn when_a_build_may_start() {
    let url = Some("https://git/x.git".to_string());
    assert!(check_buildable("GIT", &url, 0).is_ok());
    assert!(matches!(check_buildable("IMAGE", &url, 0), Err(AppError::BadRequest(m)) if m == "only GIT-source apps can be built"));
    assert!(matches!(check_buildable("GIT", &None, 0), Err(AppError::BadRequest(m)) if m == "app has no git_url configured"));
    assert!(matches!(check_buildable("GIT", &url, 1), Err(AppError::Conflict(m)) if m == "a build is already in progress for this app"));
    assert_eq!(build_branch(&None, &None), "main");
    assert_eq!(build_branch(&None, &Some("dev".to_string())), "dev");
    assert_eq!(build_branch(&Some("feat".to_string()), &Some("dev".to_string())), "feat");
    assert_eq!(build_job_name("0123456789abcdef"), "qs-build-01234567");
}

#[test]
fn a_build_is_cancelled_once() {
    assert!(check_cancellable("PENDING").is_ok());
    assert!(check_cancellable("RUNNING").is_ok());
    assert!(matches!(check_cancellable("CANCELLED"), Err(AppError::Conflict(m)) if m == "build is already CANCELLED"));
    assert!(matches!(check_cancellable("SUCCEEDED"), Err(AppError::Conflict(m)) if m == "build is already SUCCEEDED"));
}

#[test]
fn kaniko_invocation() {
    let a = kaniko_args("github.com/x/y.git", "main", "reg:5000", "web", "abcdef0123", true);
    assert_eq!(a, vec![
        "--context=git://github.com/x/y.git#refs/heads/main",
        "--destination=reg:5000/web:latest",
        "--destination=reg:5000/web:build-abcdef01",
        "--cache=true",
        "--cache-ttl=24h",
        "--insecure",
        "--skip-tls-verify",
    ]);
    assert_eq!(kaniko_args("g", "b", "r", "a", "12345678", false).len(), 5);
}

#[test]
fn push_credentials() {
    assert_eq!(build_registry_config_json("reg.io", "u", "p"), Some("{\"auths\":{\"reg.io\":{\"auth\":\"dTpw\"}}}".to_string()));
    assert_eq!(build_registry_config_json("reg.io", "", "p"), None);
    let r = build_container_request("0123456789", vec!["--x".to_string()], Some("{}".to_string()), &Some("tok".to_string()));
    assert_eq!(r.container_name, "qs-build-01234567");
    assert_eq!(r.image, "gcr.io/kaniko-project/executor:latest");
    assert_eq!((r.cpu_limit_mcores, r.mem_limit_mb), (Some(2000), Some(4096)));
    assert_eq!(r.restart_policy, "no");
    assert_eq!(r.file_mounts.len(), 1);
    assert_eq!(r.file_mounts[0].mount_path, "/kaniko/.docker/config.json");
    let env: Vec<(&str, &str)> = r.env.iter().map(|(a, b)| (a.as_str(), b.as_str())).collect();
    assert_eq!(env, vec![("GIT_USERNAME", "oauth2"), ("GIT_PASSWORD", "tok")]);
    let bare = build_container_request("0123456789", vec![], None, &Some("".to_string()));
    assert!(bare.file_mounts.is_empty() && bare.env.is_empty());
}

#[test]
fn watching_a_build() {
    assert_eq!(docker_watch_step(1, &ContainerPoll::Exited(0)), WatchStep::Finish(true));
    assert_eq!(docker_watch_step(1, &ContainerPoll::Exited(2)), WatchStep::Finish(false));
    assert_eq!(docker_watch_step(10, &ContainerPoll::StillRunning), WatchStep::Wait);
    assert_eq!(docker_watch_step(240, &ContainerPoll::InspectFailed), WatchStep::Finish(false));
    let c = |t: &str, s: &str| (t.to_string(), s.to_string());
    assert_eq!(k8s_watch_step(1, &Some(vec![c("Complete", "True")])), WatchStep::Finish(true));
    assert_eq!(k8s_watch_step(1, &Some(vec![c("Complete", "False"), c("Failed", "True")])), WatchStep::Finish(false));
    assert_eq!(k8s_watch_step(5, &Some(vec![])), WatchStep::Wait);
    assert_eq!(k8s_watch_step(120, &Some(vec![])), WatchStep::Finish(false));
    assert_eq!(k8s_watch_step(1, &None), WatchStep::Finish(false));
}

#[test]
fn build_logs() {
    let s = |x: &str| Some(x.to_string());
    assert!(matches!(build_log_source(true, "RUNNING", &None, &s("n1"), &s("c1")),
        Ok(LogSource::Agent { node_id, container_id }) if node_id == "n1" && container_id == "c1"));
    assert!(matches!(build_log_source(true, "RUNNING", &None, &s("n1"), &None),
        Err(AppError::NotFound(m)) if m == "build container not started yet"));
    assert!(matches!(build_log_source(true, "RUNNING", &None, &None, &s("c1")),
        Err(AppError::BadRequest(m)) if m == "build has no node assigned"));
    assert!(matches!(build_log_source(false, "RUNNING", &s("job"), &None, &None),
        Ok(LogSource::Pod { job_name, follow: true }) if job_name == "job"));
    assert!(matches!(build_log_source(false, "FAILED", &s("job"), &None, &None), Ok(LogSource::Pod { follow: false, .. })));
    assert!(matches!(build_log_source(false, "RUNNING", &None, &None, &None),
        Err(AppError::BadRequest(m)) if m == "build has no K8s job name"));
    assert_eq!(agent_log_url("10.0.0.2", 9800, "abc"), "http://10.0.0.2:9800/containers/abc/logs?tail=500&follow=true");
    assert_eq!(sse_data_lines("data: one\r\nevent: x\ndata:two\n\ndata:"), vec!["one", "two", ""]);
    assert!(matches!(build_cluster(None, "p1"), Err(AppError::BadRequest(m)) if m == "no active cluster in pool p1"));
    assert_eq!(build_cluster(Some("c".to_string()), "p1").unwrap(), "c");
}

fn add(role: Option<&str>) -> AddNodeRequest {
    AddNodeRequest {
        cluster_id: "c1".to_string(),
        hostname: "n1".to_string(),
        ip_address: "10.0.0.9".to_string(),
        node_role: role.map(|s| s.to_string()),
        ssh_password: None,
        ssh_port: None,
        storage_path: None,
        agent_port: None,
    }
}

#[test]
fn admitting_nodes() {
    let p = plan_node_add(&add(Some("MASTER")), Some(1), &None, 0).unwrap();
    assert_eq!((p.role.as_str(), p.storage_path.as_str(), p.ssh_port, p.agent_port, p.ssh_password.as_str(), p.docker),
        ("MASTER", "/storage", 22, 9800, "", false));
    assert!(matches!(plan_node_add(&add(None), Some(1), &None, 0), Err(AppError::BadRequest(m))
        if m == "Cannot add a WORKER node: no MASTER node exists in this cluster yet. Add a MASTER node first."));
    assert!(plan_node_add(&add(None), Some(1), &None, 1).is_ok());
    let d = plan_node_add(&add(None), Some(1), &Some("DOCKER".to_string()), 0).unwrap();
    assert!(d.docker);
    assert!(matches!(plan_node_add(&add(None), None, &None, 1), Err(AppError::NotFound(m)) if m == "cluster c1"));
    assert!(matches!(plan_node_add(&add(None), Some(0), &None, 1), Err(AppError::BadRequest(m)) if m == "cluster is inactive"));
}

#[test]
fn reprovisioning_nodes() {
    let body = ReprovisionRequest { ssh_password: Some("pw".to_string()) };
    let p = plan_reprovision("READY", &Some("c".to_string()), "WORKER", &None, Some(2222), &None, &body).unwrap();
    assert_eq!((p.role.as_str(), p.storage_path.as_str(), p.ssh_port, p.agent_port, p.ssh_password.as_str()),
        ("WORKER", "/storage", 2222, 9800, "pw"));
    assert!(matches!(plan_reprovision("PROVISIONING", &Some("c".to_string()), "W", &None, None, &None, &body),
        Err(AppError::BadRequest(m)) if m == "Node is already being provisioned."));
    assert!(matches!(plan_reprovision("READY", &None, "W", &None, None, &None, &body),
        Err(AppError::Internal(m)) if m == "node has no cluster_id"));
    assert_eq!(node_cluster(Some("c".to_string())).unwrap(), "c");
}

#[test]
fn provisioning_stream_rounds() {
    let r = provision_stream_step(5, &vec![7, 6], "running", false, 0);
    assert_eq!(r.last_seen_id, 7);
    assert!(r.activity && r.end.is_none());
    let r = provision_stream_step(5, &vec![], "done", false, 0);
    let e = r.end.unwrap();
    assert_eq!((e.event.as_str(), e.data.as_str()), ("finish", "done"));
    assert_eq!(r.last_seen_id, 5);
    let e = provision_stream_step(5, &vec![], "running", true, 0).end.unwrap();
    assert_eq!((e.event.as_str(), e.data.as_str()), ("error", "stream timeout (30 min)"));
    let e = provision_stream_step(5, &vec![], "running", false, 301).end.unwrap();
    assert_eq!(e.data, "provision appears stalled (no output for 5 min)");
    assert!(provision_stream_step(5, &vec![], "running", false, 300).end.is_none());
    assert!(provision_stream_step(5, &vec![1], "running", false, 900).end.is_none());
}

#[test]
fn node_updates_replace_given_settings() {
    let node = NodeSettings {
        hostname: "n1".to_string(),
        ip_address: "10.0.0.5".to_string(),
        node_role: "WORKER".to_string(),
        storage_path: Some("/storage".to_string()),
        ssh_port: 22,
    };
    let body = UpdateNodeRequest {
        hostname: None,
        ip_address: Some("10.0.0.6".to_string()),
        node_role: None,
        storage_path: None,
        ssh_port: Some(2222),
    };
    let r = node_update(&node, &body);
    assert_eq!(r.hostname, "n1");
    assert_eq!(r.ip_address, "10.0.0.6");
    assert_eq!(r.node_role, "WORKER");
    assert_eq!(r.storage_path.as_deref(), Some("/storage"));
    assert_eq!(r.ssh_port, 2222);
}
