//! Build jobs of GIT-sourced apps: when a build may start, the kaniko
//! invocation it runs, how its completion is read, and which log lines are
//! streamed.

use vstd::prelude::*;
use base64::Engine;
use crate::agent::types::{FileMount, RunContainerRequest};
use crate::error::{bad_request, conflict, not_found, AppError, ErrKind};
use crate::text::{
    cat2, cat3, cat4, chars_of, chars_starts_with, dec, decimal_string, opt_view, owned, slice_chars,
    split_chars, split_seq, starts_with, str_eq, string_of, trim, trim_chars, views,
};

verus! {

pub struct TriggerBuildRequest {
    /// Git branch to build (overrides the app's default).
    pub branch: Option<String>,
}

/// Only GIT-sourced apps with a repository URL can be built, and only one
/// build runs per app at a time.
pub fn check_buildable(source_type: &str, git_url: &Option<String>, running: i64) -> (r: Result<(), AppError>)
    ensures
        source_type@ != "GIT"@ ==> (r matches Err(e) && e.as_pair() == (ErrKind::BadRequest, "only GIT-source apps can be built"@)),
        source_type@ == "GIT"@ && git_url is None ==> (r matches Err(e) && e.as_pair() == (
            ErrKind::BadRequest,
            "app has no git_url configured"@,
        )),
        source_type@ == "GIT"@ && git_url is Some && running > 0 ==> (r matches Err(e) && e.as_pair() == (
            ErrKind::Conflict,
            "a build is already in progress for this app"@,
        )),
        source_type@ == "GIT"@ && git_url is Some && running <= 0 ==> r is Ok,
{
    if !str_eq(source_type, "GIT") {
        return Err(bad_request("only GIT-source apps can be built"));
    }
    if git_url.is_none() {
        return Err(bad_request("app has no git_url configured"));
    }
    if running > 0 {
        return Err(conflict("a build is already in progress for this app"));
    }
    Ok(())
}

/// The branch built: the requested one, else the app's, else `main`.
pub fn build_branch(requested: &Option<String>, app_branch: &Option<String>) -> (b: String)
    ensures
        b@ == (match opt_view(*requested) {
            Some(x) => x,
            None => match opt_view(*app_branch) {
                Some(y) => y,
                None => "main"@,
            },
        }),
{
    match requested {
        Some(x) => x.clone(),
        None => match app_branch {
            Some(y) => y.clone(),
            None => owned("main"),
        },
    }
}

fn first_chars(s: &str, n: usize) -> (r: String)
    requires
        s@.len() >= n,
    ensures
        r@ == s@.take(n as int),
{
    let v = chars_of(s);
    let p = slice_chars(&v, 0, n);
    assert(p@ =~= s@.take(n as int));
    string_of(&p)
}

/// The name of a build's job and container: `qs-build-` and the first 8
/// characters of the build id.
pub fn build_job_name(build_id: &str) -> (n: String)
    requires
        build_id@.len() >= 8,
    ensures
        n@ == "qs-build-"@ + build_id@.take(8),
{
    cat2("qs-build-", first_chars(build_id, 8).as_str())
}

pub open spec fn is_active_build(status: Seq<char>) -> bool {
    status == "PENDING"@ || status == "RUNNING"@
}

/// Only a PENDING or RUNNING build can be cancelled.
pub fn check_cancellable(status: &str) -> (r: Result<(), AppError>)
    ensures
        r is Ok <==> is_active_build(status@),
        r matches Err(e) ==> e.as_pair() == (ErrKind::Conflict, "build is already "@ + status@),
{
    if !(str_eq(status, "PENDING") || str_eq(status, "RUNNING")) {
        return Err(AppError::Conflict(cat2("build is already ", status)));
    }
    Ok(())
}

/// A build ends once: cancelling moves an active build to CANCELLED, which
/// no later cancellation accepts.
pub proof fn build_cancelled_once()
    ensures
        !is_active_build("CANCELLED"@),
{
    assert(!is_active_build("CANCELLED"@)) by {
        reveal_strlit("CANCELLED");
        reveal_strlit("PENDING");
        reveal_strlit("RUNNING");
        assert("CANCELLED"@[0] != "PENDING"@[0]);
        assert("CANCELLED"@[0] != "RUNNING"@[0]);
    }
}

// ── The kaniko build ────────────────────────────────────────────────────────

/// Where a build pushes: `<registry>/<app>:latest`, the reference deploys
/// pull, and `<registry>/<app>:build-<8 chars of the build id>`.
pub open spec fn latest_ref(registry: Seq<char>, app: Seq<char>) -> Seq<char> {
    registry + "/"@ + app + ":latest"@
}

pub open spec fn build_ref(registry: Seq<char>, app: Seq<char>, build_id: Seq<char>) -> Seq<char> {
    registry + "/"@ + app + ":build-"@ + build_id.take(8)
}

/// The kaniko arguments: the git context of the branch, both destinations,
/// a 24 h layer cache, and `--insecure --skip-tls-verify` for an insecure
/// registry.
pub open spec fn kaniko_args_spec(
    git_url: Seq<char>,
    branch: Seq<char>,
    registry: Seq<char>,
    app: Seq<char>,
    build_id: Seq<char>,
    insecure: bool,
) -> Seq<Seq<char>> {
    let base = seq![
        "--context=git://"@ + git_url + "#refs/heads/"@ + branch,
        "--destination="@ + latest_ref(registry, app),
        "--destination="@ + build_ref(registry, app, build_id),
        "--cache=true"@,
        "--cache-ttl=24h"@,
    ];
    if insecure {
        base + seq!["--insecure"@, "--skip-tls-verify"@]
    } else {
        base
    }
}

pub fn kaniko_args(git_url: &str, branch: &str, registry: &str, app_name: &str, build_id: &str, insecure: bool) -> (r: Vec<
    String,
>)
    requires
        build_id@.len() >= 8,
    ensures
        views(r@) == kaniko_args_spec(git_url@, branch@, registry@, app_name@, build_id@, insecure),
{
    let latest = cat4(registry, "/", app_name, ":latest");
    let tagged = cat4(registry, "/", app_name, ":build-");
    let tagged = cat2(tagged.as_str(), first_chars(build_id, 8).as_str());
    let mut r: Vec<String> = Vec::new();
    r.push(cat4("--context=git://", git_url, "#refs/heads/", branch));
    r.push(cat2("--destination=", latest.as_str()));
    r.push(cat2("--destination=", tagged.as_str()));
    r.push(owned("--cache=true"));
    r.push(owned("--cache-ttl=24h"));
    if insecure {
        r.push(owned("--insecure"));
        r.push(owned("--skip-tls-verify"));
    }
    assert(views(r@) =~= kaniko_args_spec(git_url@, branch@, registry@, app_name@, build_id@, insecure));
    r
}

/// The standard base64 text (with padding) of a byte string.
pub uninterp spec fn base64_padded(bytes: Seq<u8>) -> Seq<char>;

/// Trusted: `base64::engine::general_purpose::STANDARD.encode` of the UTF-8
/// bytes of the text.
#[verifier::external_body]
fn b64_encode_text(text: &str) -> (s: String)
    ensures
        s@ == base64_padded(vstd::utf8::encode_utf8(text@)),
{
    base64::engine::general_purpose::STANDARD.encode(text)
}

/// The JSON string literal of a text as `serde_json` writes it: in double
/// quotes, with its escapes.
pub uninterp spec fn json_quoted(text: Seq<char>) -> Seq<char>;

/// Trusted: `serde_json::to_string` on a `&str`, which writes the quoted,
/// escaped string literal. Its documentation names the only ways it fails
/// (a `Serialize` impl that decides to fail, a map with non-string keys);
/// a string has neither, so the error arm is never taken. The text is a
/// function of the string alone.
#[verifier::external_body]
fn json_quote(text: &str) -> (s: String)
    ensures
        s@ == json_quoted(text@),
{
    match serde_json::to_string(text) {
        Ok(s) => s,
        Err(_) => String::new(),
    }
}

/// The compact JSON text `{"auths":{<registry>:{"auth":<auth>}}}`: the
/// docker credentials file naming one registry and its basic-auth token.
pub open spec fn docker_auths_json(registry: Seq<char>, auth: Seq<char>) -> Seq<char> {
    "{\"auths\":{"@ + json_quoted(registry) + ":{\"auth\":"@ + json_quoted(auth) + "}}}"@
}

fn auths_json(registry: &str, auth: &str) -> (s: String)
    ensures
        s@ == docker_auths_json(registry@, auth@),
{
    let r = json_quote(registry);
    let a = json_quote(auth);
    let head = cat3("{\"auths\":{", r.as_str(), ":{\"auth\":");
    cat3(head.as_str(), a.as_str(), "}}}")
}

/// The docker `config.json` that lets kaniko push: none when the registry,
/// user or password is unset; else basic auth `user:password` for the
/// registry.
pub fn build_registry_config_json(registry: &str, user: &str, password: &str) -> (r: Option<String>)
    ensures
        registry@.len() == 0 || user@.len() == 0 || password@.len() == 0 ==> r is None,
        registry@.len() > 0 && user@.len() > 0 && password@.len() > 0 ==> (r matches Some(j) && j@
            == docker_auths_json(registry@, base64_padded(vstd::utf8::encode_utf8(user@ + ":"@ + password@)))),
{
    if registry.is_empty() || user.is_empty() || password.is_empty() {
        return None;
    }
    let basic = cat3(user, ":", password);
    let auth = b64_encode_text(basic.as_str());
    Some(auths_json(registry, auth.as_str()))
}

/// The kaniko container a Docker-cluster build runs: one node, capped at 2
/// cores and 4 GiB, never restarted, with the push credentials mounted
/// where kaniko reads them and the git token (if any) as
/// GIT_USERNAME=oauth2 / GIT_PASSWORD.
pub fn build_container_request(
    build_id: &str,
    args: Vec<String>,
    registry_config: Option<String>,
    git_token: &Option<String>,
) -> (r: RunContainerRequest)
    requires
        build_id@.len() >= 8,
    ensures
        r.container_name@ == "qs-build-"@ + build_id@.take(8),
        r.image@ == "gcr.io/kaniko-project/executor:latest"@,
        r.command is None,
        r.args == Some(args),
        r.cpu_limit_mcores == Some(2000u32),
        r.mem_limit_mb == Some(4096u32),
        r.gpu_count == 0,
        r.network_name is None && r.ip_address is None && r.working_dir is None && r.user is None,
        r.extra_networks@.len() == 0 && r.port_bindings@.len() == 0 && r.volumes@.len() == 0,
        r.health_check is None && r.registry_auth is None,
        r.restart_policy@ == "no"@,
        !r.privileged && !r.read_only_rootfs,
        match registry_config {
            Some(c) => r.file_mounts@.len() == 1 && r.file_mounts@[0].filename@ == "config.json"@
                && r.file_mounts@[0].mount_path@ == "/kaniko/.docker/config.json"@ && r.file_mounts@[0].content@ == c@,
            None => r.file_mounts@.len() == 0,
        },
        match opt_view(*git_token) {
            Some(t) => if t.len() > 0 {
                r.env@.len() == 2 && r.env@[0].0@ == "GIT_USERNAME"@ && r.env@[0].1@ == "oauth2"@
                    && r.env@[1].0@ == "GIT_PASSWORD"@ && r.env@[1].1@ == t
            } else {
                r.env@.len() == 0
            },
            None => r.env@.len() == 0,
        },
{
    let mut file_mounts: Vec<FileMount> = Vec::new();
    if let Some(content) = registry_config {
        file_mounts.push(
            FileMount {
                filename: owned("config.json"),
                mount_path: owned("/kaniko/.docker/config.json"),
                content,
            },
        );
    }
    let mut env: Vec<(String, String)> = Vec::new();
    if let Some(t) = git_token {
        if !t.as_str().is_empty() {
            env.push((owned("GIT_USERNAME"), owned("oauth2")));
            env.push((owned("GIT_PASSWORD"), t.clone()));
        }
    }
    RunContainerRequest {
        container_name: build_job_name(build_id),
        image: owned("gcr.io/kaniko-project/executor:latest"),
        command: None,
        args: Some(args),
        working_dir: None,
        env,
        cpu_limit_mcores: Some(2000),
        mem_limit_mb: Some(4096),
        gpu_count: 0,
        network_name: None,
        ip_address: None,
        extra_networks: Vec::new(),
        port_bindings: Vec::new(),
        volumes: Vec::new(),
        file_mounts,
        health_check: None,
        restart_policy: owned("no"),
        user: None,
        privileged: false,
        read_only_rootfs: false,
        registry_auth: None,
    }
}

// ── Completion ──────────────────────────────────────────────────────────────

/// What one poll of a Docker build container showed.
pub enum ContainerPoll {
    Exited(i64),
    StillRunning,
    InspectFailed,
}

/// What the watcher does after a poll.
#[derive(PartialEq, Eq, Structural, Debug, Clone, Copy)]
pub enum WatchStep {
    /// Poll again (after 15 s; 240 polls in all).
    Wait,
    /// Record the final status: SUCCEEDED or FAILED.
    Finish(bool),
}

/// An exited container decides the build (exit code 0 succeeds); anything
/// else waits, until the 240th poll, after which the build has failed.
pub fn docker_watch_step(poll_number: u32, poll: &ContainerPoll) -> (s: WatchStep)
    ensures
        poll matches ContainerPoll::Exited(code) ==> s == WatchStep::Finish(code == 0),
        !(poll is Exited) && poll_number >= 240 ==> s == WatchStep::Finish(false),
        !(poll is Exited) && poll_number < 240 ==> s == WatchStep::Wait,
{
    match poll {
        ContainerPoll::Exited(code) => WatchStep::Finish(*code == 0),
        _ => if poll_number >= 240 {
            WatchStep::Finish(false)
        } else {
            WatchStep::Wait
        },
    }
}

/// What one poll of a Kubernetes build job showed: its (type, status)
/// conditions, or none when the job could not be read.
pub open spec fn has_condition(conds: Seq<(String, String)>, t: Seq<char>) -> bool {
    exists|i: int| 0 <= i < conds.len() && (#[trigger] conds[i]).0@ == t && conds[i].1@ == "True"@
}

fn condition_true(conds: &Vec<(String, String)>, t: &str) -> (b: bool)
    ensures
        b == has_condition(conds@, t@),
{
    let mut i: usize = 0;
    while i < conds.len()
        invariant
            i <= conds.len(),
            forall|j: int| 0 <= j < i ==> !((#[trigger] conds@[j]).0@ == t@ && conds@[j].1@ == "True"@),
        decreases conds.len() - i,
    {
        if str_eq(conds[i].0.as_str(), t) && str_eq(conds[i].1.as_str(), "True") {
            return true;
        }
        i = i + 1;
    }
    false
}

/// A readable job with a true Complete condition succeeded, one with a true
/// Failed condition failed; an unreadable job or the 120th poll ends the
/// watch as failed; otherwise the watcher waits (30 s).
pub fn k8s_watch_step(poll_number: u32, conditions: &Option<Vec<(String, String)>>) -> (s: WatchStep)
    ensures
        match conditions {
            None => s == WatchStep::Finish(false),
            Some(c) => if has_condition(c@, "Complete"@) {
                s == WatchStep::Finish(true)
            } else if has_condition(c@, "Failed"@) {
                s == WatchStep::Finish(false)
            } else if poll_number >= 120 {
                s == WatchStep::Finish(false)
            } else {
                s == WatchStep::Wait
            },
        },
{
    match conditions {
        None => WatchStep::Finish(false),
        Some(c) => if condition_true(c, "Complete") {
            WatchStep::Finish(true)
        } else if condition_true(c, "Failed") {
            WatchStep::Finish(false)
        } else if poll_number >= 120 {
            WatchStep::Finish(false)
        } else {
            WatchStep::Wait
        },
    }
}

// ── Logs ────────────────────────────────────────────────────────────────────

/// Where a build's logs come from.
pub enum LogSource {
    /// The agent of the build's node streams the container's logs.
    Agent { node_id: String, container_id: String },
    /// The build pod of the job, followed while the build runs.
    Pod { job_name: String, follow: bool },
}

/// Chooses the log source: a Docker cluster needs the build's container
/// (else 404 `build container not started yet`) and node (else 400); a
/// Kubernetes cluster needs the job name (else 400).
pub fn build_log_source(
    docker: bool,
    status: &str,
    k8s_job_name: &Option<String>,
    node_id: &Option<String>,
    container_id: &Option<String>,
) -> (r: Result<LogSource, AppError>)
    ensures
        docker && container_id is None ==> (r matches Err(e) && e.as_pair() == (
            ErrKind::NotFound,
            "build container not started yet"@,
        )),
        docker && container_id is Some && node_id is None ==> (r matches Err(e) && e.as_pair() == (
            ErrKind::BadRequest,
            "build has no node assigned"@,
        )),
        docker && container_id is Some && node_id is Some ==> (r matches Ok(LogSource::Agent { node_id: n, container_id: c })
            && n@ == node_id.unwrap()@ && c@ == container_id.unwrap()@),
        !docker && k8s_job_name is None ==> (r matches Err(e) && e.as_pair() == (
            ErrKind::BadRequest,
            "build has no K8s job name"@,
        )),
        !docker && k8s_job_name is Some ==> (r matches Ok(LogSource::Pod { job_name, follow }) && job_name@
            == k8s_job_name.unwrap()@ && follow == (status@ == "RUNNING"@)),
{
    if docker {
        let c = match container_id {
            None => return Err(not_found("build container not started yet")),
            Some(c) => c.clone(),
        };
        let n = match node_id {
            None => return Err(bad_request("build has no node assigned")),
            Some(n) => n.clone(),
        };
        return Ok(LogSource::Agent { node_id: n, container_id: c });
    }
    match k8s_job_name {
        None => Err(bad_request("build has no K8s job name")),
        Some(j) => Ok(LogSource::Pod { job_name: j.clone(), follow: str_eq(status, "RUNNING") }),
    }
}

/// The agent URL of a build container's log stream (last 500 lines, then
/// follow).
pub fn agent_log_url(ip: &str, port: u16, container_id: &str) -> (u: String)
    ensures
        u@ == "http://"@ + ip@ + ":"@ + dec(port as nat) + "/containers/"@ + container_id@
            + "/logs?tail=500&follow=true"@,
{
    let a = cat4("http://", ip, ":", decimal_string(port as u64).as_str());
    cat4(a.as_str(), "/containers/", container_id, "/logs?tail=500&follow=true")
}

/// The event data relayed from a chunk of the agent's server-sent events:
/// for each line that starts with `data:`, the rest of it trimmed.
pub open spec fn sse_data(lines: Seq<Seq<char>>) -> Seq<Seq<char>>
    decreases lines.len(),
{
    if lines.len() == 0 {
        Seq::empty()
    } else {
        let prev = sse_data(lines.drop_last());
        let l = lines.last();
        if starts_with(l, "data:"@) {
            prev.push(trim(l.skip(5)))
        } else {
            prev
        }
    }
}

/// Extracts the event data of a chunk (its lines split at line feeds; a
/// carriage return ending a line is trimmed with the data).
pub fn sse_data_lines(chunk: &str) -> (r: Vec<String>)
    ensures
        views(r@) == sse_data(split_seq(chunk@, '\n')),
{
    let v = chars_of(chunk);
    let lines = split_chars(&v, '\n');
    let ghost ls = split_seq(chunk@, '\n');
    let prefix = chars_of("data:");
    proof {
        reveal_strlit("data:");
    }
    let mut out: Vec<String> = Vec::new();
    let mut i: usize = 0;
    assert(views(out@) =~= sse_data(ls.take(0)));
    while i < lines.len()
        invariant
            i <= lines@.len(),
            ls == split_seq(chunk@, '\n'),
            lines@.len() == ls.len(),
            forall|k: int| 0 <= k < lines@.len() ==> #[trigger] lines@[k]@ == ls[k],
            prefix@ == "data:"@,
            prefix@.len() == 5,
            views(out@) == sse_data(ls.take(i as int)),
        decreases lines.len() - i,
    {
        let ghost t = ls.take(i + 1);
        assert(t.drop_last() =~= ls.take(i as int));
        assert(t.last() == ls[i as int]);
        assert(lines@[i as int]@ == ls[i as int]);
        let ghost before = views(out@);
        let line = &lines[i];
        if chars_starts_with(line, &prefix) {
            let rest = slice_chars(line, 5, line.len());
            assert(rest@ =~= line@.skip(5));
            let d = trim_chars(&rest);
            out.push(string_of(&d));
            assert(views(out@) =~= before.push(d@));
        }
        i = i + 1;
    }
    assert(ls.take(i as int) =~= ls);
    out
}

/// A pool's build cluster: its oldest active cluster, or a refusal naming
/// the pool.
pub fn build_cluster(found: Option<String>, pool_id: &str) -> (r: Result<String, AppError>)
    ensures
        found matches Some(c) ==> (r matches Ok(x) && x@ == c@),
        found is None ==> (r matches Err(e) && e.as_pair() == (ErrKind::BadRequest, "no active cluster in pool "@ + pool_id@)),
{
    match found {
        Some(c) => Ok(c),
        None => Err(AppError::BadRequest(cat2("no active cluster in pool ", pool_id))),
    }
}

} // verus!
