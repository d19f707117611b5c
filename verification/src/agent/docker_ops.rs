//! Turns an agent run request into the container the Docker daemon is
//! asked to create: every name, bind, port key, limit and health probe is
//! computed here; the daemon calls themselves are made by the caller.

use vstd::prelude::*;
use crate::agent::types::{
    FileMount, HealthCheck, PortBinding, RunContainerRequest, VolumeMount,
};
use crate::text::{cat2, cat3, cat4, dec, decimal_string, owned, str_eq, views};

verus! {

// ── Environment ─────────────────────────────────────────────────────────────

/// `KEY=value`.
pub open spec fn env_entry(k: Seq<char>, v: Seq<char>) -> Seq<char> {
    k + "="@ + v
}

pub open spec fn env_spec(env: Seq<(String, String)>) -> Seq<Seq<char>> {
    Seq::new(env.len(), |i: int| env_entry(env[i].0@, env[i].1@))
}

/// The container environment: one `KEY=value` entry per pair, in order.
pub fn env_strings(env: &Vec<(String, String)>) -> (r: Vec<String>)
    ensures
        views(r@) == env_spec(env@),
{
    let mut r: Vec<String> = Vec::new();
    let mut i: usize = 0;
    while i < env.len()
        invariant
            i <= env.len(),
            r@.len() == i,
            forall|j: int| 0 <= j < i ==> #[trigger] r@[j]@ == env_entry(env@[j].0@, env@[j].1@),
        decreases env.len() - i,
    {
        let (k, v) = &env[i];
        r.push(cat3(k.as_str(), "=", v.as_str()));
        i = i + 1;
    }
    assert(views(r@) =~= env_spec(env@));
    r
}

// ── Binds ───────────────────────────────────────────────────────────────────

/// `host:container`, with `:ro` appended for read-only volumes.
pub open spec fn volume_bind(v: VolumeMount) -> Seq<char> {
    if v.read_only {
        v.host_path@ + ":"@ + v.container_path@ + ":ro"@
    } else {
        v.host_path@ + ":"@ + v.container_path@
    }
}

pub open spec fn volume_binds_spec(vs: Seq<VolumeMount>) -> Seq<Seq<char>> {
    Seq::new(vs.len(), |i: int| volume_bind(vs[i]))
}

/// The binds of the request's volumes, in order.
pub fn volume_binds(vs: &Vec<VolumeMount>) -> (r: Vec<String>)
    ensures
        views(r@) == volume_binds_spec(vs@),
{
    let mut r: Vec<String> = Vec::new();
    let mut i: usize = 0;
    while i < vs.len()
        invariant
            i <= vs.len(),
            r@.len() == i,
            forall|j: int| 0 <= j < i ==> #[trigger] r@[j]@ == volume_bind(vs@[j]),
        decreases vs.len() - i,
    {
        let v = &vs[i];
        if v.read_only {
            r.push(cat4(v.host_path.as_str(), ":", v.container_path.as_str(), ":ro"));
        } else {
            r.push(cat3(v.host_path.as_str(), ":", v.container_path.as_str()));
        }
        i = i + 1;
    }
    assert(views(r@) =~= volume_binds_spec(vs@));
    r
}

/// A file that must be written on the host before the container starts.
pub struct FileWrite {
    pub path: String,
    pub content: String,
}

/// Where inline files of a container live: `files_dir/container_name`.
pub open spec fn mount_dir(files_dir: Seq<char>, name: Seq<char>) -> Seq<char> {
    files_dir + "/"@ + name
}

/// The host path of one inline file.
pub open spec fn mount_file(files_dir: Seq<char>, name: Seq<char>, f: FileMount) -> Seq<char> {
    mount_dir(files_dir, name) + "/"@ + f.filename@
}

/// The read-only bind of one inline file.
pub open spec fn mount_file_bind(files_dir: Seq<char>, name: Seq<char>, f: FileMount) -> Seq<char> {
    mount_file(files_dir, name, f) + ":"@ + f.mount_path@ + ":ro"@
}

/// The inline files of a request: the directory to create (none when there
/// are no files), the files to write there and the binds that mount them.
pub struct FileMountPlan {
    pub dir: Option<String>,
    pub writes: Vec<FileWrite>,
    pub binds: Vec<String>,
}

pub fn file_mount_plan(files_dir: &str, container_name: &str, fms: &Vec<FileMount>) -> (p:
    FileMountPlan)
    ensures
        fms@.len() == 0 ==> p.dir is None,
        fms@.len() > 0 ==> (p.dir matches Some(d) && d@ == mount_dir(files_dir@, container_name@)),
        p.writes@.len() == fms@.len(),
        p.binds@.len() == fms@.len(),
        forall|j: int|
            0 <= j < fms@.len() ==> {
                &&& (#[trigger] p.writes@[j]).path@ == mount_file(files_dir@, container_name@, fms@[j])
                &&& p.writes@[j].content@ == fms@[j].content@
                &&& p.binds@[j]@ == mount_file_bind(files_dir@, container_name@, fms@[j])
            },
{
    let mut writes: Vec<FileWrite> = Vec::new();
    let mut binds: Vec<String> = Vec::new();
    if fms.len() == 0 {
        return FileMountPlan { dir: None, writes, binds };
    }
    let dir = cat3(files_dir, "/", container_name);
    let mut i: usize = 0;
    while i < fms.len()
        invariant
            i <= fms.len(),
            dir@ == mount_dir(files_dir@, container_name@),
            writes@.len() == i,
            binds@.len() == i,
            forall|j: int|
                0 <= j < i ==> {
                    &&& (#[trigger] writes@[j]).path@ == mount_file(files_dir@, container_name@, fms@[j])
                    &&& writes@[j].content@ == fms@[j].content@
                    &&& binds@[j]@ == mount_file_bind(files_dir@, container_name@, fms@[j])
                },
        decreases fms.len() - i,
    {
        let f = &fms[i];
        let host_file = cat3(dir.as_str(), "/", f.filename.as_str());
        binds.push(cat4(host_file.as_str(), ":", f.mount_path.as_str(), ":ro"));
        let content = f.content.clone();
        writes.push(FileWrite { path: host_file, content });
        i = i + 1;
    }
    FileMountPlan { dir: Some(dir), writes, binds }
}

// ── Ports ───────────────────────────────────────────────────────────────────

/// One published port: the container-side key `port/protocol` and the host
/// side it is bound to.
pub struct PortPlan {
    pub key: String,
    pub host_ip: String,
    pub host_port: String,
}

pub open spec fn port_key(p: PortBinding) -> Seq<char> {
    dec(p.container_port as nat) + "/"@ + p.protocol@
}

/// The published ports, in request order; a later binding of the same key
/// replaces an earlier one when the daemon's port map is filled in order.
pub fn port_plan(pbs: &Vec<PortBinding>) -> (r: Vec<PortPlan>)
    ensures
        r@.len() == pbs@.len(),
        forall|j: int|
            0 <= j < pbs@.len() ==> {
                &&& (#[trigger] r@[j]).key@ == port_key(pbs@[j])
                &&& r@[j].host_ip@ == "0.0.0.0"@
                &&& r@[j].host_port@ == dec(pbs@[j].host_port as nat)
            },
{
    let mut r: Vec<PortPlan> = Vec::new();
    let mut i: usize = 0;
    while i < pbs.len()
        invariant
            i <= pbs.len(),
            r@.len() == i,
            forall|j: int|
                0 <= j < i ==> {
                    &&& (#[trigger] r@[j]).key@ == port_key(pbs@[j])
                    &&& r@[j].host_ip@ == "0.0.0.0"@
                    &&& r@[j].host_port@ == dec(pbs@[j].host_port as nat)
                },
        decreases pbs.len() - i,
    {
        let pb = &pbs[i];
        let port = decimal_string(pb.container_port as u64);
        let key = cat3(port.as_str(), "/", pb.protocol.as_str());
        let host_port = decimal_string(pb.host_port as u64);
        r.push(PortPlan { key, host_ip: owned("0.0.0.0"), host_port });
        i = i + 1;
    }
    r
}

// ── Resources ───────────────────────────────────────────────────────────────

/// CPU limit in nano-CPUs: one milli-core is 10^6 nano-CPUs.
pub fn nano_cpus(mcores: Option<u32>) -> (r: Option<i64>)
    ensures
        match mcores {
            Some(m) => r == Some((m * 1_000_000) as i64),
            None => r is None,
        },
{
    match mcores {
        Some(m) => Some(m as i64 * 1_000_000),
        None => None,
    }
}

/// Memory limit in bytes.
pub fn memory_bytes(mb: Option<u32>) -> (r: Option<i64>)
    ensures
        match mb {
            Some(m) => r == Some((m * 1048576) as i64),
            None => r is None,
        },
{
    match mb {
        Some(m) => Some(m as i64 * 1024 * 1024),
        None => None,
    }
}

/// A request for GPU devices.
pub struct GpuPlan {
    pub driver: String,
    pub count: i64,
    pub capabilities: Vec<Vec<String>>,
}

/// GPUs are requested from the `nvidia` driver with the `gpu` capability,
/// and only when at least one is wanted.
pub fn gpu_plan(count: u8) -> (r: Option<GpuPlan>)
    ensures
        count == 0 ==> r is None,
        count > 0 ==> (r matches Some(g) && g.driver@ == "nvidia"@ && g.count == count as i64
            && g.capabilities@.len() == 1 && views(g.capabilities@[0]@) == seq!["gpu"@]),
{
    if count > 0 {
        let mut caps: Vec<String> = Vec::new();
        caps.push(owned("gpu"));
        assert(views(caps@) =~= seq!["gpu"@]);
        let mut all: Vec<Vec<String>> = Vec::new();
        all.push(caps);
        Some(GpuPlan { driver: owned("nvidia"), count: count as i64, capabilities: all })
    } else {
        None
    }
}

// ── Health check ────────────────────────────────────────────────────────────

/// What the daemon runs to probe a container.
pub struct HealthPlan {
    pub test: Vec<String>,
    pub interval_ns: i64,
    pub timeout_ns: i64,
    pub retries: i64,
}

pub open spec fn probe_port(hc: HealthCheck) -> nat {
    match hc.port {
        Some(p) => p as nat,
        None => 80,
    }
}

/// The probe command: an HTTP `curl`, a TCP connect, or the raw shell command
/// (`true` when none is given).
pub open spec fn health_test(hc: HealthCheck) -> Seq<Seq<char>> {
    if hc.check_type@ == "HTTP"@ {
        let path = match hc.path {
            Some(p) => p@,
            None => "/"@,
        };
        seq!["CMD"@, "curl"@, "-sf"@, "http://localhost:"@ + dec(probe_port(hc)) + path]
    } else if hc.check_type@ == "TCP"@ {
        seq!["CMD"@, "sh"@, "-c"@, "cat < /dev/null > /dev/tcp/localhost/"@ + dec(probe_port(hc))]
    } else {
        let cmd = match hc.cmd {
            Some(c) => c@,
            None => "true"@,
        };
        seq!["CMD-SHELL"@, cmd]
    }
}

fn strings4(a: &str, b: &str, c: &str, d: String) -> (r: Vec<String>)
    ensures
        views(r@) == seq![a@, b@, c@, d@],
{
    let mut r: Vec<String> = Vec::new();
    r.push(owned(a));
    r.push(owned(b));
    r.push(owned(c));
    r.push(d);
    assert(views(r@) =~= seq![a@, b@, c@, d@]);
    r
}

/// The health configuration: the probe, and its timings in nanoseconds.
pub fn health_plan(hc: &HealthCheck) -> (r: HealthPlan)
    ensures
        views(r.test@) == health_test(*hc),
        r.interval_ns == hc.interval_secs * 1_000_000_000,
        r.timeout_ns == hc.timeout_secs * 1_000_000_000,
        r.retries == hc.retries,
{
    let port: u16 = match hc.port {
        Some(p) => p,
        None => 80,
    };
    let test = if str_eq(hc.check_type.as_str(), "HTTP") {
        let url = match &hc.path {
            Some(p) => cat3("http://localhost:", decimal_string(port as u64).as_str(), p.as_str()),
            None => cat3("http://localhost:", decimal_string(port as u64).as_str(), "/"),
        };
        strings4("CMD", "curl", "-sf", url)
    } else if str_eq(hc.check_type.as_str(), "TCP") {
        let target = cat2("cat < /dev/null > /dev/tcp/localhost/", decimal_string(port as u64).as_str());
        strings4("CMD", "sh", "-c", target)
    } else {
        let cmd = match &hc.cmd {
            Some(c) => c.clone(),
            None => owned("true"),
        };
        let mut t: Vec<String> = Vec::new();
        t.push(owned("CMD-SHELL"));
        t.push(cmd);
        assert(views(t@) =~= health_test(*hc));
        t
    };
    HealthPlan {
        test,
        interval_ns: hc.interval_secs as i64 * 1_000_000_000,
        timeout_ns: hc.timeout_secs as i64 * 1_000_000_000,
        retries: hc.retries as i64,
    }
}

// ── Restart policy ──────────────────────────────────────────────────────────

/// The Docker restart policies the agent uses.
#[derive(PartialEq, Eq, Structural, Debug, Clone, Copy)]
pub enum RestartKind {
    Always,
    OnFailure,
    No,
    UnlessStopped,
}

pub open spec fn restart_spec(policy: Seq<char>) -> RestartKind {
    if policy == "always"@ {
        RestartKind::Always
    } else if policy == "on-failure"@ {
        RestartKind::OnFailure
    } else if policy == "no"@ {
        RestartKind::No
    } else {
        RestartKind::UnlessStopped
    }
}

/// `always`, `on-failure` and `no` are taken as they are; anything else
/// means `unless-stopped`.
pub fn restart_kind(policy: &str) -> (r: RestartKind)
    ensures
        r == restart_spec(policy@),
{
    if str_eq(policy, "always") {
        RestartKind::Always
    } else if str_eq(policy, "on-failure") {
        RestartKind::OnFailure
    } else if str_eq(policy, "no") {
        RestartKind::No
    } else {
        RestartKind::UnlessStopped
    }
}

// ── Command line ────────────────────────────────────────────────────────────

pub open spec fn opt_strings(o: Option<Vec<String>>) -> Seq<Seq<char>> {
    match o {
        Some(v) => views(v@),
        None => Seq::empty(),
    }
}

/// The command line: `command` followed by `args`; none at all when both are
/// absent or empty, so that the image's own entrypoint runs.
pub open spec fn command_spec(command: Option<Vec<String>>, args: Option<Vec<String>>) -> Option<
    Seq<Seq<char>>,
> {
    let all = opt_strings(command) + opt_strings(args);
    if all.len() == 0 {
        None
    } else {
        Some(all)
    }
}

/// The container command keeps what the request gives: the command's
/// words first, in order, then the arguments' words; an absent list counts
/// as empty, and there is no command line only when both give nothing.
pub proof fn command_keeps_command_then_args(command: Option<Vec<String>>, args: Option<Vec<String>>)
    ensures
        ({
            let nc: int = match command {
                Some(v) => v@.len() as int,
                None => 0,
            };
            let na: int = match args {
                Some(v) => v@.len() as int,
                None => 0,
            };
            &&& command_spec(command, args) is None <==> nc + na == 0
            &&& command_spec(command, args) matches Some(s) ==> {
                &&& s.len() == nc + na
                &&& forall|i: int| 0 <= i < nc ==> #[trigger] s[i] == command.unwrap()@[i]@
                &&& forall|j: int| 0 <= j < na ==> #[trigger] s[nc + j] == args.unwrap()@[j]@
            }
        }),
{
    let c = opt_strings(command);
    let a = opt_strings(args);
    let all = c + a;
    if all.len() > 0 {
        assert forall|i: int| 0 <= i < c.len() implies #[trigger] all[i] == command.unwrap()@[i]@ by {}
        assert forall|j: int| 0 <= j < a.len() implies #[trigger] all[c.len() + j] == args.unwrap()@[j]@ by {}
    }
}

fn extend_strings(out: &mut Vec<String>, src: &Vec<String>)
    ensures
        views(final(out)@) == views(old(out)@) + views(src@),
{
    let ghost start = views(out@);
    let mut i: usize = 0;
    while i < src.len()
        invariant
            i <= src.len(),
            views(out@) == start + views(src@).take(i as int),
        decreases src.len() - i,
    {
        let ghost prev = out@;
        let x = src[i].clone();
        out.push(x);
        proof {
            assert(views(out@) =~= views(prev).push(src@[i as int]@));
            assert(views(src@).take(i + 1) =~= views(src@).take(i as int).push(src@[i as int]@));
        }
        i = i + 1;
    }
    assert(views(src@).take(src.len() as int) =~= views(src@));
}

pub fn command_line(command: &Option<Vec<String>>, args: &Option<Vec<String>>) -> (r: Option<
    Vec<String>,
>)
    ensures
        match r {
            Some(v) => command_spec(*command, *args) == Some(views(v@)),
            None => command_spec(*command, *args) is None,
        },
        match *command {
            Some(c) => c@.len() > 0 ==> (r matches Some(v) && v@.len() >= c@.len() && forall|i: int|
                0 <= i < c@.len() ==> #[trigger] v@[i]@ == c@[i]@),
            None => true,
        },
        match *args {
            Some(a) => a@.len() > 0 ==> r is Some,
            None => true,
        },
        r is None ==> (command is None || command.unwrap()@.len() == 0) && (args is None || args.unwrap()@.len() == 0),
{
    let mut cmd: Vec<String> = Vec::new();
    assert(views(cmd@) =~= Seq::<Seq<char>>::empty());
    if let Some(c) = command {
        extend_strings(&mut cmd, c);
    }
    if let Some(a) = args {
        extend_strings(&mut cmd, a);
    }
    assert(views(cmd@) =~= opt_strings(*command) + opt_strings(*args));
    proof {
        if command is Some {
            let c = command.unwrap();
            assert forall|i: int| 0 <= i < c@.len() implies #[trigger] cmd@[i]@ == c@[i]@ by {
                assert(views(cmd@)[i] == cmd@[i]@);
                assert(opt_strings(*command)[i] == c@[i]@);
            }
        }
    }
    if cmd.len() == 0 {
        None
    } else {
        Some(cmd)
    }
}

// ── The whole container ─────────────────────────────────────────────────────

/// Everything the daemon is told about a new container.
pub struct ContainerPlan {
    pub name: String,
    pub image: String,
    pub cmd: Option<Vec<String>>,
    pub working_dir: Option<String>,
    pub env: Vec<String>,
    /// Volume binds followed by the binds of the inline files.
    pub binds: Vec<String>,
    /// Directory to create and files to write before the container is created.
    pub files: FileMountPlan,
    pub ports: Vec<PortPlan>,
    pub nano_cpus: Option<i64>,
    pub memory: Option<i64>,
    pub gpu: Option<GpuPlan>,
    pub healthcheck: Option<HealthPlan>,
    pub restart: RestartKind,
    pub privileged: bool,
    pub readonly_rootfs: bool,
    /// The primary network and the fixed address in it, if any.
    pub network: Option<(String, Option<String>)>,
    pub user: Option<String>,
}

pub open spec fn opt_str(o: Option<String>) -> Option<Seq<char>> {
    match o {
        Some(s) => Some(s@),
        None => None,
    }
}

/// The container that `POST /containers/run` creates for a request, with
/// inline files kept under `files_dir`.
pub fn run_container_plan(req: &RunContainerRequest, files_dir: &str) -> (p: ContainerPlan)
    ensures
        p.name@ == req.container_name@,
        p.image@ == req.image@,
        match p.cmd {
            Some(v) => command_spec(req.command, req.args) == Some(views(v@)),
            None => command_spec(req.command, req.args) is None,
        },
        opt_str(p.working_dir) == opt_str(req.working_dir),
        views(p.env@) == env_spec(req.env@),
        views(p.binds@) == volume_binds_spec(req.volumes@) + views(p.files.binds@),
        req.file_mounts@.len() == 0 ==> p.files.dir is None,
        req.file_mounts@.len() > 0 ==> (p.files.dir matches Some(d) && d@ == mount_dir(
            files_dir@,
            req.container_name@,
        )),
        p.files.writes@.len() == req.file_mounts@.len(),
        p.files.binds@.len() == req.file_mounts@.len(),
        forall|j: int|
            0 <= j < req.file_mounts@.len() ==> {
                &&& (#[trigger] p.files.writes@[j]).path@ == mount_file(
                    files_dir@,
                    req.container_name@,
                    req.file_mounts@[j],
                )
                &&& p.files.writes@[j].content@ == req.file_mounts@[j].content@
                &&& p.files.binds@[j]@ == mount_file_bind(
                    files_dir@,
                    req.container_name@,
                    req.file_mounts@[j],
                )
            },
        p.ports@.len() == req.port_bindings@.len(),
        forall|j: int|
            0 <= j < req.port_bindings@.len() ==> {
                &&& (#[trigger] p.ports@[j]).key@ == port_key(req.port_bindings@[j])
                &&& p.ports@[j].host_ip@ == "0.0.0.0"@
                &&& p.ports@[j].host_port@ == dec(req.port_bindings@[j].host_port as nat)
            },
        match req.cpu_limit_mcores {
            Some(m) => p.nano_cpus == Some((m * 1_000_000) as i64),
            None => p.nano_cpus is None,
        },
        match req.mem_limit_mb {
            Some(m) => p.memory == Some((m * 1048576) as i64),
            None => p.memory is None,
        },
        req.gpu_count == 0 ==> p.gpu is None,
        req.gpu_count > 0 ==> (p.gpu matches Some(g) && g.driver@ == "nvidia"@ && g.count
            == req.gpu_count as i64 && g.capabilities@.len() == 1 && views(g.capabilities@[0]@)
            == seq!["gpu"@]),
        match req.health_check {
            Some(hc) => (p.healthcheck matches Some(h) && views(h.test@) == health_test(hc)
                && h.interval_ns == hc.interval_secs * 1_000_000_000 && h.timeout_ns
                == hc.timeout_secs * 1_000_000_000 && h.retries == hc.retries),
            None => p.healthcheck is None,
        },
        p.restart == restart_spec(req.restart_policy@),
        p.privileged == req.privileged,
        p.readonly_rootfs == req.read_only_rootfs,
        match req.network_name {
            Some(n) => (p.network matches Some((pn, ip)) && pn@ == n@ && opt_str(ip) == opt_str(
                req.ip_address,
            )),
            None => p.network is None,
        },
        opt_str(p.user) == opt_str(req.user),
{
    let files = file_mount_plan(files_dir, req.container_name.as_str(), &req.file_mounts);
    let env = env_strings(&req.env);
    let mut binds = volume_binds(&req.volumes);
    extend_strings(&mut binds, &files.binds);
    let ports = port_plan(&req.port_bindings);
    let healthcheck = match &req.health_check {
        Some(hc) => Some(health_plan(hc)),
        None => None,
    };
    let network = match &req.network_name {
        Some(n) => {
            let ip = match &req.ip_address {
                Some(a) => Some(a.clone()),
                None => None,
            };
            Some((n.clone(), ip))
        },
        None => None,
    };
    let working_dir = match &req.working_dir {
        Some(w) => Some(w.clone()),
        None => None,
    };
    let user = match &req.user {
        Some(u) => Some(u.clone()),
        None => None,
    };
    ContainerPlan {
        name: req.container_name.clone(),
        image: req.image.clone(),
        cmd: command_line(&req.command, &req.args),
        working_dir,
        env,
        binds,
        files,
        ports,
        nano_cpus: nano_cpus(req.cpu_limit_mcores),
        memory: memory_bytes(req.mem_limit_mb),
        gpu: gpu_plan(req.gpu_count),
        healthcheck,
        restart: restart_kind(req.restart_policy.as_str()),
        privileged: req.privileged,
        readonly_rootfs: req.read_only_rootfs,
        network,
        user,
    }
}

} // verus!
