//! The job lifecycle state machine.
//!
//! The runner owns a single job slot.  Every lifecycle decision is
//! made here, as a transition of `NspawnRunner::handle_event`: the
//! surrounding application performs the returned actions (spawning,
//! signalling, mounting, publishing) and feeds their outcomes back as
//! the next event.  The transition relation `step_rel` pins each
//! step's new state and emitted actions; the laws at the end of this
//! module state the lifecycle guarantees over it.

use vstd::prelude::*;

use crate::config::{
    env_equiv, spec_env_lookup, Ipv4Address, Ipv6Address, NspawnRunnerConfig,
    NspawnRunnerEnvironmentConfig, SSHPreferredIPVersion,
};
use crate::ids::{uuid_chars, Uuid};
use crate::messages::{
    rendezvous_server_equiv, JobSessionConnectionInfo, JobStartingStage, JobState,
    RendezvousServerSpec, StartJobMessage, StopJobMessage,
};
use crate::nspawn::{
    build_run_args, control_socket_path, devices_warnings, opt_strs, resolve_requests,
    resolve_requests_for, socket_path_chars, spec_run_args,
};
use crate::zfs::{
    create_args_chars, create_args_for, dataset_chars, dataset_for, destroy_args_chars,
    destroy_args_for, mount_args_chars, mount_args_for, mountpoint_chars, mountpoint_for, strs,
};

verus! {

/// Whether a stopped job's backing volume is destroyed.  Wired off:
/// the coordinator protocol offers no way to request deletion yet.
pub const DELETE_DATA: bool = false;

/// The job installed in the runner's slot, together with the
/// resources that must be torn down when it stops.
pub struct NspawnRunnerJob {
    pub job_id: Uuid,
    pub environment_id: Uuid,
    pub environment_config: NspawnRunnerEnvironmentConfig,
    pub ssh_keys: Vec<String>,
    pub root_fs_mountpoint: Option<String>,
    pub zfs_root_fs: Option<String>,
}

/// What a start transaction carries between its steps.
pub struct StartContext {
    pub msg: StartJobMessage,
    pub environment_config: NspawnRunnerEnvironmentConfig,
    pub mountpoint: String,
    pub zfs_root_fs: String,
}

/// Where the runner stands inside a lifecycle transaction.  Start and
/// stop both run to completion before another command is admitted.
pub enum RunnerPhase {
    Idle,
    StartAllocating { ctx: StartContext },
    StartBindingSocket { ctx: StartContext },
    StartResolvingDevices { ctx: StartContext },
    StartSpawning { ctx: StartContext },
    StartProbing { ctx: StartContext },
    StopSignaled { msg: StopJobMessage, job: NspawnRunnerJob },
    StopKilling { msg: StopJobMessage, job: NspawnRunnerJob },
    StopTearingDown { msg: StopJobMessage, job: NspawnRunnerJob },
    StopUnmounting { msg: StopJobMessage, job: NspawnRunnerJob },
    StopDestroying { msg: StopJobMessage, job: NspawnRunnerJob },
}

/// The runner: its immutable configuration, the single job slot, and
/// the phase of the transaction in flight.
pub struct NspawnRunner {
    pub config: NspawnRunnerConfig,
    pub current_job: Option<NspawnRunnerJob>,
    pub phase: RunnerPhase,
}

/// The rendezvous target for SSH connections into the container.
#[allow(inconsistent_fields)]
#[derive(Clone, Copy, Debug, PartialEq, Eq, Structural)]
pub enum SocketAddress {
    V4 { address: Ipv4Address, port: u16 },
    V6 { address: Ipv6Address, port: u16 },
}

/// The outcome of inspecting the container process during shutdown.
#[derive(Debug, PartialEq, Eq)]
pub enum ChildStatusOutcome {
    Exited,
    Running,
    CheckError(String),
}

/// An outcome handed back to the state machine by the application.
pub enum SupervisorEvent {
    StartJob(StartJobMessage),
    StopJob(StopJobMessage),
    AllocateDone(Result<(), String>),
    ControlSocketDone(Result<(), String>),
    DevicesResolved(Vec<Option<String>>),
    SpawnDone(Result<(), String>),
    ProxiesProbed(Vec<Option<(String, u16)>>),
    GracefulWaitDone,
    ChildStatus(ChildStatusOutcome),
    TeardownDone,
    UnmountDone(Result<(), String>),
    DestroyDone(Result<(), String>),
}

/// An effect the application must perform.
#[derive(Debug, PartialEq, Eq)]
pub enum SupervisorAction {
    Publish { job_id: Uuid, state: JobState },
    AllocateRootFs {
        create_args: Vec<String>,
        mount_args: Vec<String>,
        mountpoint: String,
        zfs_fs: String,
    },
    BindControlSocket { job_id: Uuid, path: String },
    StartRendezvousProxies { address: SocketAddress, servers: Vec<RendezvousServerSpec> },
    ResolveDevices { nodes: Vec<Option<String>> },
    LogWarning { message: String },
    SpawnContainer { args: Vec<String> },
    StartConsoleStreamer { job_id: Uuid },
    ProbeRendezvousProxies,
    SignalAndAwaitExit { timeout_seconds: u64 },
    CheckChild,
    KillChild,
    ShutdownControlSocket,
    ShutdownConsoleStreamer,
    ShutdownRendezvousProxies,
    UnmountRootFs { mountpoint: String },
    DestroyRootFs { destroy_args: Vec<String> },
    Fatal { message: String },
}

// ---------------------------------------------------------------
// Status message texts.
// ---------------------------------------------------------------

pub open spec fn occupied_msg_chars(new_job: Uuid, board: Uuid, running: Uuid) -> Seq<char> {
    "Cannot start job "@ + uuid_chars(new_job.bits) + " on board "@ + uuid_chars(board.bits)
        + ", still executing job "@ + uuid_chars(running.bits)
}

pub open spec fn unknown_env_msg_chars(job: Uuid, board: Uuid, env: Uuid) -> Seq<char> {
    "Cannot start job "@ + uuid_chars(job.bits) + " on board "@ + uuid_chars(board.bits)
        + ", unknown environment "@ + uuid_chars(env.bits)
}

pub open spec fn no_provider_msg_chars(job: Uuid, board: Uuid) -> Seq<char> {
    "Cannot start job "@ + uuid_chars(job.bits) + " on board "@ + uuid_chars(board.bits)
        + ", no root filesystem provider found."@
}

pub open spec fn not_running_msg_chars(job: Uuid, board: Uuid) -> Seq<char> {
    "Cannot stop job "@ + uuid_chars(job.bits) + " on board "@ + uuid_chars(board.bits)
        + ", not running!"@
}

pub open spec fn spawn_failed_msg_chars(e: Seq<char>) -> Seq<char> {
    "Failed to spawn container: "@ + e
}

pub open spec fn bind_failed_msg_chars(path: Seq<char>, e: Seq<char>) -> Seq<char> {
    "Creating control socket under "@ + path + " failed: "@ + e
}

pub open spec fn kill_error_msg_chars(e: Seq<char>) -> Seq<char> {
    "Error while killing container process: "@ + e
}

pub open spec fn proxy_timeout_warning_chars() -> Seq<char> {
    "Rendezvous proxy did not provide public address before timeout."@
}

fn occupied_msg(new_job: &Uuid, board: &Uuid, running: &Uuid) -> (r: String)
    ensures
        r@ == occupied_msg_chars(*new_job, *board, *running),
{
    proof {
        reveal_strlit("Cannot start job ");
        reveal_strlit(" on board ");
        reveal_strlit(", still executing job ");
    }
    let mut s = String::from_str("Cannot start job ");
    let t0 = new_job.canonical_text();
    s.append(t0.as_str());
    s.append(" on board ");
    let t1 = board.canonical_text();
    s.append(t1.as_str());
    s.append(", still executing job ");
    let t2 = running.canonical_text();
    s.append(t2.as_str());
    proof {
        assert(s@ =~= occupied_msg_chars(*new_job, *board, *running));
    }
    s
}

fn unknown_env_msg(job: &Uuid, board: &Uuid, env: &Uuid) -> (r: String)
    ensures
        r@ == unknown_env_msg_chars(*job, *board, *env),
{
    proof {
        reveal_strlit("Cannot start job ");
        reveal_strlit(" on board ");
        reveal_strlit(", unknown environment ");
    }
    let mut s = String::from_str("Cannot start job ");
    let t0 = job.canonical_text();
    s.append(t0.as_str());
    s.append(" on board ");
    let t1 = board.canonical_text();
    s.append(t1.as_str());
    s.append(", unknown environment ");
    let t2 = env.canonical_text();
    s.append(t2.as_str());
    proof {
        assert(s@ =~= unknown_env_msg_chars(*job, *board, *env));
    }
    s
}

fn no_provider_msg(job: &Uuid, board: &Uuid) -> (r: String)
    ensures
        r@ == no_provider_msg_chars(*job, *board),
{
    proof {
        reveal_strlit("Cannot start job ");
        reveal_strlit(" on board ");
        reveal_strlit(", no root filesystem provider found.");
    }
    let mut s = String::from_str("Cannot start job ");
    let t0 = job.canonical_text();
    s.append(t0.as_str());
    s.append(" on board ");
    let t1 = board.canonical_text();
    s.append(t1.as_str());
    s.append(", no root filesystem provider found.");
    proof {
        assert(s@ =~= no_provider_msg_chars(*job, *board));
    }
    s
}

fn not_running_msg(job: &Uuid, board: &Uuid) -> (r: String)
    ensures
        r@ == not_running_msg_chars(*job, *board),
{
    proof {
        reveal_strlit("Cannot stop job ");
        reveal_strlit(" on board ");
        reveal_strlit(", not running!");
    }
    let mut s = String::from_str("Cannot stop job ");
    let t0 = job.canonical_text();
    s.append(t0.as_str());
    s.append(" on board ");
    let t1 = board.canonical_text();
    s.append(t1.as_str());
    s.append(", not running!");
    proof {
        assert(s@ =~= not_running_msg_chars(*job, *board));
    }
    s
}

fn spawn_failed_msg(e: &str) -> (r: String)
    ensures
        r@ == spawn_failed_msg_chars(e@),
{
    proof {
        reveal_strlit("Failed to spawn container: ");
    }
    let mut s = String::from_str("Failed to spawn container: ");
    s.append(e);
    s
}

fn bind_failed_msg(path: &str, e: &str) -> (r: String)
    ensures
        r@ == bind_failed_msg_chars(path@, e@),
{
    proof {
        reveal_strlit("Creating control socket under ");
        reveal_strlit(" failed: ");
    }
    let mut s = String::from_str("Creating control socket under ");
    s.append(path);
    s.append(" failed: ");
    s.append(e);
    s
}

fn kill_error_msg(e: &str) -> (r: String)
    ensures
        r@ == kill_error_msg_chars(e@),
{
    proof {
        reveal_strlit("Error while killing container process: ");
    }
    let mut s = String::from_str("Error while killing container process: ");
    s.append(e);
    s
}

// ---------------------------------------------------------------
// SSH rendezvous target selection.
// ---------------------------------------------------------------

/// The first match of the targeting table: an explicit preference is
/// honoured when its family is configured; otherwise IPv4 wins over
/// IPv6; no port means no target.
pub open spec fn spec_ssh_target(env: NspawnRunnerEnvironmentConfig) -> Option<SocketAddress> {
    match env.ssh_port {
        Option::None => Option::None,
        Option::Some(port) => {
            if env.ssh_preferred_ip_version == SSHPreferredIPVersion::V4
                && env.ipv4_network is Some {
                Option::Some(SocketAddress::V4 { address: env.ipv4_network->0.address, port })
            } else if env.ssh_preferred_ip_version == SSHPreferredIPVersion::V6
                && env.ipv6_network is Some {
                Option::Some(SocketAddress::V6 { address: env.ipv6_network->0.address, port })
            } else if env.ipv4_network is Some {
                Option::Some(SocketAddress::V4 { address: env.ipv4_network->0.address, port })
            } else if env.ipv6_network is Some {
                Option::Some(SocketAddress::V6 { address: env.ipv6_network->0.address, port })
            } else {
                Option::None
            }
        },
    }
}

/// Pick the SSH rendezvous target address for an environment.
pub fn ssh_target(env: &NspawnRunnerEnvironmentConfig) -> (r: Option<SocketAddress>)
    ensures
        r == spec_ssh_target(*env),
{
    let port = match env.ssh_port {
        Option::Some(p) => p,
        Option::None => {
            return Option::None;
        },
    };
    let prefer_v4 = matches!(env.ssh_preferred_ip_version, SSHPreferredIPVersion::V4);
    let prefer_v6 = matches!(env.ssh_preferred_ip_version, SSHPreferredIPVersion::V6);
    if prefer_v4 {
        if let Option::Some(n) = &env.ipv4_network {
            return Option::Some(SocketAddress::V4 { address: n.address, port });
        }
    }
    if prefer_v6 {
        if let Option::Some(n) = &env.ipv6_network {
            return Option::Some(SocketAddress::V6 { address: n.address, port });
        }
    }
    if let Option::Some(n) = &env.ipv4_network {
        return Option::Some(SocketAddress::V4 { address: n.address, port });
    }
    if let Option::Some(n) = &env.ipv6_network {
        return Option::Some(SocketAddress::V6 { address: n.address, port });
    }
    Option::None
}

// ---------------------------------------------------------------
// Observations over actions.
// ---------------------------------------------------------------

pub open spec fn is_publish_failed(a: SupervisorAction, jid: Uuid, msg: Seq<char>) -> bool {
    a matches SupervisorAction::Publish { job_id, state } && job_id == jid && (state matches
    JobState::Failed { status_message } && (status_message matches Option::Some(m) && m@ == msg))
}

pub open spec fn is_publish_starting(
    a: SupervisorAction,
    jid: Uuid,
    stage: JobStartingStage,
) -> bool {
    a matches SupervisorAction::Publish { job_id, state } && job_id == jid && (state matches
    JobState::Starting { stage: st, status_message } && st == stage && status_message is None)
}

pub open spec fn is_publish_stopping(a: SupervisorAction, jid: Uuid) -> bool {
    a matches SupervisorAction::Publish { job_id, state } && job_id == jid && (state matches
    JobState::Stopping { status_message } && status_message is None)
}

pub open spec fn is_publish_finished(a: SupervisorAction, jid: Uuid) -> bool {
    a matches SupervisorAction::Publish { job_id, state } && job_id == jid && (state matches
    JobState::Finished { status_message } && status_message is None)
}

/// The public endpoints of the probes that answered, in probe order.
pub open spec fn successes(probes: Seq<Option<(String, u16)>>) -> Seq<(String, u16)>
    decreases probes.len(),
{
    if probes.len() == 0 {
        Seq::<(String, u16)>::empty()
    } else {
        successes(probes.drop_last()) + (match probes.last() {
            Option::Some(hp) => seq![hp],
            Option::None => Seq::<(String, u16)>::empty(),
        })
    }
}

/// Connection info entries mirror the successful probes in order,
/// with empty host key fingerprint lists.
pub open spec fn conn_info_matches(
    ci: Seq<JobSessionConnectionInfo>,
    s: Seq<(String, u16)>,
) -> bool {
    &&& ci.len() == s.len()
    &&& forall|k: int|
        0 <= k < ci.len() ==> (#[trigger] ci[k] matches
        JobSessionConnectionInfo::RendezvousSSH { hostname, port, host_key_fingerprints }
            && hostname@ == s[k].0@ && port == s[k].1 && host_key_fingerprints@.len() == 0)
}

pub open spec fn is_publish_ready(
    a: SupervisorAction,
    jid: Uuid,
    probes: Seq<Option<(String, u16)>>,
) -> bool {
    a matches SupervisorAction::Publish { job_id, state } && job_id == jid && (state matches
    JobState::Ready { connection_info, status_message } && status_message is None
        && conn_info_matches(connection_info@, successes(probes)))
}

pub open spec fn is_log_warning(a: SupervisorAction, msg: Seq<char>) -> bool {
    a matches SupervisorAction::LogWarning { message } && message@ == msg
}

/// The job record installed after a successful start carries exactly
/// what the start transaction assembled.
pub open spec fn job_matches_start(job: NspawnRunnerJob, ctx: StartContext) -> bool {
    &&& job.job_id == ctx.msg.job_id
    &&& job.environment_id == ctx.msg.environment_id
    &&& env_equiv(job.environment_config, ctx.environment_config)
    &&& job.ssh_keys == ctx.msg.ssh_keys
    &&& job.root_fs_mountpoint matches Option::Some(mp) && mp@ == ctx.mountpoint@
    &&& job.zfs_root_fs matches Option::Some(z) && z@ == ctx.zfs_root_fs@
}

pub open spec fn servers_equiv(a: Seq<RendezvousServerSpec>, b: Seq<RendezvousServerSpec>) -> bool {
    &&& a.len() == b.len()
    &&& forall|k: int| 0 <= k < a.len() ==> #[trigger] rendezvous_server_equiv(a[k], b[k])
}

// ---------------------------------------------------------------
// Admissible events and well-formed states.
// ---------------------------------------------------------------

/// Which events the application may hand in, given the phase: each
/// outcome answers the action that requested it.
pub open spec fn admissible(pre: NspawnRunner, ev: SupervisorEvent) -> bool {
    match ev {
        SupervisorEvent::StartJob(_) => pre.phase is Idle,
        SupervisorEvent::StopJob(_) => pre.phase is Idle,
        SupervisorEvent::AllocateDone(_) => pre.phase is StartAllocating,
        SupervisorEvent::ControlSocketDone(_) => pre.phase is StartBindingSocket,
        SupervisorEvent::DevicesResolved(r) => pre.phase matches
            RunnerPhase::StartResolvingDevices { ctx }
            && r@.len() == ctx.environment_config.device@.len(),
        SupervisorEvent::SpawnDone(_) => pre.phase is StartSpawning,
        SupervisorEvent::ProxiesProbed(_) => pre.phase is StartProbing,
        SupervisorEvent::GracefulWaitDone => pre.phase is StopSignaled,
        SupervisorEvent::ChildStatus(_) => pre.phase is StopKilling,
        SupervisorEvent::TeardownDone => pre.phase is StopTearingDown,
        SupervisorEvent::UnmountDone(_) => pre.phase is StopUnmounting,
        SupervisorEvent::DestroyDone(_) => pre.phase is StopDestroying,
    }
}

/// The slot is empty while a transaction is in flight, a stop
/// transaction always concerns the job it took out of the slot, and
/// the configuration is well-formed.
pub open spec fn wf(s: NspawnRunner) -> bool {
    &&& s.config.wf()
    &&& !(s.phase is Idle) ==> s.current_job is None
    &&& s.phase matches RunnerPhase::StopSignaled { msg, job } ==> job.job_id == msg.job_id
    &&& s.phase matches RunnerPhase::StopKilling { msg, job } ==> job.job_id == msg.job_id
    &&& s.phase matches RunnerPhase::StopTearingDown { msg, job } ==> job.job_id == msg.job_id
    &&& s.phase matches RunnerPhase::StopUnmounting { msg, job } ==> job.job_id == msg.job_id
    &&& s.phase matches RunnerPhase::StopDestroying { msg, job } ==> job.job_id == msg.job_id
}

// ---------------------------------------------------------------
// The transition relation.
// ---------------------------------------------------------------

pub open spec fn start_rel(
    pre: NspawnRunner,
    m: StartJobMessage,
    post: NspawnRunner,
    acts: Seq<SupervisorAction>,
) -> bool {
    match pre.current_job {
        Option::Some(running) => {
            &&& post.current_job == pre.current_job
            &&& post.phase is Idle
            &&& acts.len() == 1
            &&& is_publish_failed(
                acts[0],
                m.job_id,
                occupied_msg_chars(m.job_id, pre.config.board_id, running.job_id),
            )
        },
        Option::None => {
            match spec_env_lookup(pre.config.environments@, m.environment_id) {
                Option::None => {
                    &&& post.current_job is None
                    &&& post.phase is Idle
                    &&& acts.len() == 1
                    &&& is_publish_failed(
                        acts[0],
                        m.job_id,
                        unknown_env_msg_chars(m.job_id, pre.config.board_id, m.environment_id),
                    )
                },
                Option::Some(env) => {
                    match env.zfsroot {
                        Option::None => {
                            &&& post.current_job is None
                            &&& post.phase is Idle
                            &&& acts.len() == 2
                            &&& is_publish_starting(
                                acts[0],
                                m.job_id,
                                JobStartingStage::Allocating,
                            )
                            &&& is_publish_failed(
                                acts[1],
                                m.job_id,
                                no_provider_msg_chars(m.job_id, pre.config.board_id),
                            )
                        },
                        Option::Some(zcfg) => {
                            &&& post.current_job is None
                            &&& acts.len() == 2
                            &&& is_publish_starting(
                                acts[0],
                                m.job_id,
                                JobStartingStage::Allocating,
                            )
                            &&& (acts[1] matches SupervisorAction::AllocateRootFs {
                                create_args,
                                mount_args,
                                mountpoint,
                                zfs_fs,
                            } && strs(create_args@) == create_args_chars(zcfg, m.job_id)
                                && strs(mount_args@) == mount_args_chars(zcfg, m.job_id)
                                && mountpoint@ == mountpoint_chars(zcfg.mount_base@, m.job_id)
                                && zfs_fs@ == dataset_chars(zcfg.parent@, m.job_id))
                            &&& (post.phase matches RunnerPhase::StartAllocating { ctx }
                                && ctx.msg == m && env_equiv(ctx.environment_config, env)
                                && ctx.mountpoint@ == mountpoint_chars(zcfg.mount_base@, m.job_id)
                                && ctx.zfs_root_fs@ == dataset_chars(zcfg.parent@, m.job_id))
                        },
                    }
                },
            }
        },
    }
}

pub open spec fn stop_rel(
    pre: NspawnRunner,
    m: StopJobMessage,
    post: NspawnRunner,
    acts: Seq<SupervisorAction>,
) -> bool {
    match pre.current_job {
        Option::Some(job) => {
            if job.job_id == m.job_id {
                &&& post.current_job is None
                &&& (post.phase matches RunnerPhase::StopSignaled { msg, job: j } && msg == m
                    && j == job)
                &&& acts.len() == 2
                &&& is_publish_stopping(acts[0], m.job_id)
                &&& (acts[1] matches SupervisorAction::SignalAndAwaitExit { timeout_seconds }
                    && timeout_seconds == job.environment_config.shutdown_timeout)
            } else {
                &&& post.current_job == pre.current_job
                &&& post.phase is Idle
                &&& acts.len() == 1
                &&& is_publish_failed(
                    acts[0],
                    m.job_id,
                    not_running_msg_chars(m.job_id, pre.config.board_id),
                )
            }
        },
        Option::None => {
            &&& post.current_job is None
            &&& post.phase is Idle
            &&& acts.len() == 1
            &&& is_publish_failed(
                acts[0],
                m.job_id,
                not_running_msg_chars(m.job_id, pre.config.board_id),
            )
        },
    }
}

pub open spec fn allocate_done_rel(
    ctx: StartContext,
    board: Uuid,
    res: Result<(), String>,
    post: NspawnRunner,
    acts: Seq<SupervisorAction>,
) -> bool {
    match res {
        Result::Err(e) => {
            &&& post.current_job is None
            &&& post.phase is Idle
            &&& acts.len() == 1
            &&& is_publish_failed(acts[0], ctx.msg.job_id, e@)
        },
        Result::Ok(()) => {
            &&& post.current_job is None
            &&& acts.len() == 1
            &&& (acts[0] matches SupervisorAction::BindControlSocket { job_id, path }
                && job_id == ctx.msg.job_id && path@ == socket_path_chars(
                ctx.mountpoint@,
                ctx.environment_config.control_socket_path@,
            ))
            &&& (post.phase matches RunnerPhase::StartBindingSocket { ctx: c } && c == ctx)
        },
    }
}

pub open spec fn socket_done_rel(
    ctx: StartContext,
    res: Result<(), String>,
    post: NspawnRunner,
    acts: Seq<SupervisorAction>,
) -> bool {
    match res {
        Result::Err(e) => {
            &&& post.current_job is None
            &&& (post.phase matches RunnerPhase::StartBindingSocket { ctx: c } && c == ctx)
            &&& acts.len() == 1
            &&& (acts[0] matches SupervisorAction::Fatal { message } && message@
                == bind_failed_msg_chars(
                socket_path_chars(ctx.mountpoint@, ctx.environment_config.control_socket_path@),
                e@,
            ))
        },
        Result::Ok(()) => {
            let target = spec_ssh_target(ctx.environment_config);
            &&& post.current_job is None
            &&& (post.phase matches RunnerPhase::StartResolvingDevices { ctx: c } && c == ctx)
            &&& (match target {
                Option::Some(sa) => {
                    &&& acts.len() == 3
                    &&& (acts[0] matches SupervisorAction::StartRendezvousProxies {
                        address,
                        servers,
                    } && address == sa && servers_equiv(
                        servers@,
                        ctx.msg.ssh_rendezvous_servers@,
                    ))
                    &&& is_publish_starting(acts[1], ctx.msg.job_id, JobStartingStage::Booting)
                    &&& (acts[2] matches SupervisorAction::ResolveDevices { nodes }
                        && opt_strs(nodes@) == resolve_requests(
                        ctx.environment_config.device@,
                    ))
                },
                Option::None => {
                    &&& acts.len() == 2
                    &&& is_publish_starting(acts[0], ctx.msg.job_id, JobStartingStage::Booting)
                    &&& (acts[1] matches SupervisorAction::ResolveDevices { nodes }
                        && opt_strs(nodes@) == resolve_requests(
                        ctx.environment_config.device@,
                    ))
                },
            })
        },
    }
}

pub open spec fn devices_resolved_rel(
    ctx: StartContext,
    resolved: Seq<Option<String>>,
    post: NspawnRunner,
    acts: Seq<SupervisorAction>,
) -> bool {
    let warnings = devices_warnings(ctx.environment_config.device@, opt_strs(resolved));
    &&& post.current_job is None
    &&& (post.phase matches RunnerPhase::StartSpawning { ctx: c } && c == ctx)
    &&& acts.len() == warnings.len() + 1
    &&& forall|k: int| 0 <= k < warnings.len() ==> is_log_warning(#[trigger] acts[k], warnings[k])
    &&& (acts[acts.len() - 1] matches SupervisorAction::SpawnContainer { args } && strs(args@)
        == spec_run_args(ctx.environment_config, opt_strs(resolved), ctx.mountpoint@))
}

pub open spec fn spawn_done_rel(
    ctx: StartContext,
    res: Result<(), String>,
    post: NspawnRunner,
    acts: Seq<SupervisorAction>,
) -> bool {
    match res {
        Result::Err(e) => {
            &&& post.current_job is None
            &&& post.phase is Idle
            &&& acts.len() == 1
            &&& is_publish_failed(acts[0], ctx.msg.job_id, spawn_failed_msg_chars(e@))
        },
        Result::Ok(()) => {
            &&& post.current_job is None
            &&& (post.phase matches RunnerPhase::StartProbing { ctx: c } && c == ctx)
            &&& acts.len() == 2
            &&& (acts[0] matches SupervisorAction::StartConsoleStreamer { job_id } && job_id
                == ctx.msg.job_id)
            &&& acts[1] is ProbeRendezvousProxies
        },
    }
}

pub open spec fn probed_rel(
    ctx: StartContext,
    probes: Seq<Option<(String, u16)>>,
    post: NspawnRunner,
    acts: Seq<SupervisorAction>,
) -> bool {
    let misses = probes.len() - successes(probes).len();
    &&& post.phase is Idle
    &&& (post.current_job matches Option::Some(job) && job_matches_start(job, ctx))
    &&& acts.len() == misses + 1
    &&& forall|k: int|
        0 <= k < misses ==> is_log_warning(#[trigger] acts[k], proxy_timeout_warning_chars())
    &&& is_publish_ready(acts[acts.len() - 1], ctx.msg.job_id, probes)
}

pub open spec fn child_status_rel(
    msg: StopJobMessage,
    job: NspawnRunnerJob,
    st: ChildStatusOutcome,
    post: NspawnRunner,
    acts: Seq<SupervisorAction>,
) -> bool {
    match st {
        ChildStatusOutcome::Exited => {
            &&& post.current_job is None
            &&& (post.phase matches RunnerPhase::StopTearingDown { msg: m, job: j } && m == msg
                && j == job)
            &&& acts.len() == 3
            &&& acts[0] is ShutdownControlSocket
            &&& acts[1] is ShutdownConsoleStreamer
            &&& acts[2] is ShutdownRendezvousProxies
        },
        ChildStatusOutcome::Running => {
            &&& post.current_job is None
            &&& (post.phase matches RunnerPhase::StopKilling { msg: m, job: j } && m == msg
                && j == job)
            &&& acts.len() == 2
            &&& acts[0] is KillChild
            &&& acts[1] is CheckChild
        },
        ChildStatusOutcome::CheckError(e) => {
            &&& post.current_job is None
            &&& (post.phase matches RunnerPhase::StopKilling { msg: m, job: j } && m == msg
                && j == job)
            &&& acts.len() == 1
            &&& (acts[0] matches SupervisorAction::Fatal { message } && message@
                == kill_error_msg_chars(e@))
        },
    }
}

/// The tail of a stop transaction once the container is gone and the
/// per-job services are down: unmount if a root was mounted, destroy
/// if the deploy policy asks for it, then finish.
pub open spec fn teardown_done_rel(
    msg: StopJobMessage,
    job: NspawnRunnerJob,
    post: NspawnRunner,
    acts: Seq<SupervisorAction>,
) -> bool {
    match job.root_fs_mountpoint {
        Option::Some(mp) => {
            &&& post.current_job is None
            &&& (post.phase matches RunnerPhase::StopUnmounting { msg: m, job: j } && m == msg
                && j == job)
            &&& acts.len() == 1
            &&& (acts[0] matches SupervisorAction::UnmountRootFs { mountpoint } && mountpoint@
                == mp@)
        },
        Option::None => finish_rel(msg, job, post, acts),
    }
}

/// After a successful unmount (or with no mountpoint at all), either
/// the backing volume is destroyed or the job finishes directly.
pub open spec fn finish_rel(
    msg: StopJobMessage,
    job: NspawnRunnerJob,
    post: NspawnRunner,
    acts: Seq<SupervisorAction>,
) -> bool {
    if DELETE_DATA && job.zfs_root_fs is Some {
        &&& post.current_job is None
        &&& (post.phase matches RunnerPhase::StopDestroying { msg: m, job: j } && m == msg
            && j == job)
        &&& acts.len() == 1
        &&& (acts[0] matches SupervisorAction::DestroyRootFs { destroy_args } && strs(
            destroy_args@,
        ) == destroy_args_chars(job.zfs_root_fs->0@))
    } else {
        &&& post.current_job is None
        &&& post.phase is Idle
        &&& acts.len() == 1
        &&& is_publish_finished(acts[0], msg.job_id)
    }
}

pub open spec fn unmount_done_rel(
    msg: StopJobMessage,
    job: NspawnRunnerJob,
    res: Result<(), String>,
    post: NspawnRunner,
    acts: Seq<SupervisorAction>,
) -> bool {
    match res {
        Result::Err(e) => {
            &&& post.current_job is None
            &&& post.phase is Idle
            &&& acts.len() == 1
            &&& is_publish_failed(acts[0], msg.job_id, e@)
        },
        Result::Ok(()) => finish_rel(msg, job, post, acts),
    }
}

pub open spec fn destroy_done_rel(
    msg: StopJobMessage,
    res: Result<(), String>,
    post: NspawnRunner,
    acts: Seq<SupervisorAction>,
) -> bool {
    match res {
        Result::Err(e) => {
            &&& post.current_job is None
            &&& post.phase is Idle
            &&& acts.len() == 1
            &&& is_publish_failed(acts[0], msg.job_id, e@)
        },
        Result::Ok(()) => {
            &&& post.current_job is None
            &&& post.phase is Idle
            &&& acts.len() == 1
            &&& is_publish_finished(acts[0], msg.job_id)
        },
    }
}

/// One step of the lifecycle machine: what the new state and the
/// emitted actions are for each admissible event.
pub open spec fn step_rel(
    pre: NspawnRunner,
    ev: SupervisorEvent,
    post: NspawnRunner,
    acts: Seq<SupervisorAction>,
) -> bool {
    &&& post.config == pre.config
    &&& match ev {
        SupervisorEvent::StartJob(m) => start_rel(pre, m, post, acts),
        SupervisorEvent::StopJob(m) => stop_rel(pre, m, post, acts),
        SupervisorEvent::AllocateDone(res) => pre.phase matches
            RunnerPhase::StartAllocating { ctx }
            && allocate_done_rel(ctx, pre.config.board_id, res, post, acts),
        SupervisorEvent::ControlSocketDone(res) => pre.phase matches
            RunnerPhase::StartBindingSocket { ctx } && socket_done_rel(ctx, res, post, acts),
        SupervisorEvent::DevicesResolved(resolved) => pre.phase matches
            RunnerPhase::StartResolvingDevices { ctx }
            && devices_resolved_rel(ctx, resolved@, post, acts),
        SupervisorEvent::SpawnDone(res) => pre.phase matches RunnerPhase::StartSpawning { ctx }
            && spawn_done_rel(ctx, res, post, acts),
        SupervisorEvent::ProxiesProbed(probes) => pre.phase matches
            RunnerPhase::StartProbing { ctx } && probed_rel(ctx, probes@, post, acts),
        SupervisorEvent::GracefulWaitDone => pre.phase matches
            RunnerPhase::StopSignaled { msg, job } && ({
            &&& post.current_job is None
            &&& (post.phase matches RunnerPhase::StopKilling { msg: m, job: j } && m == msg
                && j == job)
            &&& acts.len() == 1
            &&& acts[0] is CheckChild
        }),
        SupervisorEvent::ChildStatus(st) => pre.phase matches RunnerPhase::StopKilling {
            msg,
            job,
        } && child_status_rel(msg, job, st, post, acts),
        SupervisorEvent::TeardownDone => pre.phase matches RunnerPhase::StopTearingDown {
            msg,
            job,
        } && teardown_done_rel(msg, job, post, acts),
        SupervisorEvent::UnmountDone(res) => pre.phase matches RunnerPhase::StopUnmounting {
            msg,
            job,
        } && unmount_done_rel(msg, job, res, post, acts),
        SupervisorEvent::DestroyDone(res) => pre.phase matches RunnerPhase::StopDestroying {
            msg,
            job,
        } && destroy_done_rel(msg, res, post, acts),
    }
}

// ---------------------------------------------------------------
// The machine.
// ---------------------------------------------------------------

fn duplicate_servers(v: &Vec<RendezvousServerSpec>) -> (r: Vec<RendezvousServerSpec>)
    ensures
        servers_equiv(r@, v@),
{
    let mut r: Vec<RendezvousServerSpec> = Vec::new();
    let mut i: usize = 0;
    while i < v.len()
        invariant
            i <= v@.len(),
            r@.len() == i,
            forall|k: int| 0 <= k < i ==> #[trigger] rendezvous_server_equiv(r@[k], v@[k]),
        decreases v@.len() - i,
    {
        r.push(v[i].duplicate());
        i = i + 1;
    }
    r
}

impl NspawnRunner {
    /// A fresh runner around a configuration: empty slot, no
    /// transaction in flight.
    pub fn new(config: NspawnRunnerConfig) -> (r: Self)
        requires
            config.wf(),
        ensures
            r.config == config,
            r.current_job is None,
            r.phase is Idle,
            wf(r),
    {
        NspawnRunner { config, current_job: Option::None, phase: RunnerPhase::Idle }
    }

    /// Drive the lifecycle machine by one event.
    pub fn handle_event(&mut self, ev: SupervisorEvent) -> (acts: Vec<SupervisorAction>)
        requires
            wf(*old(self)),
            admissible(*old(self), ev),
        ensures
            step_rel(*old(self), ev, *final(self), acts@),
            wf(*final(self)),
    {
        let mut ph = RunnerPhase::Idle;
        core::mem::swap(&mut ph, &mut self.phase);
        let mut acts: Vec<SupervisorAction> = Vec::new();
        match ev {
            SupervisorEvent::StartJob(m) => {
                if let Option::Some(running) = &self.current_job {
                    let msg_text = occupied_msg(&m.job_id, &self.config.board_id, &running.job_id);
                    acts.push(SupervisorAction::Publish {
                        job_id: m.job_id,
                        state: JobState::Failed { status_message: Option::Some(msg_text) },
                    });
                    return acts;
                }
                let plan = match self.config.environment(&m.environment_id) {
                    Option::None => Option::None,
                    Option::Some(env) => match &env.zfsroot {
                        Option::None => Option::Some(Option::None),
                        Option::Some(zcfg) => Option::Some(Option::Some((
                            env.duplicate(),
                            mountpoint_for(zcfg, &m.job_id),
                            dataset_for(zcfg, &m.job_id),
                            create_args_for(zcfg, &m.job_id),
                            mount_args_for(zcfg, &m.job_id),
                        ))),
                    },
                };
                match plan {
                    Option::None => {
                        let msg_text = unknown_env_msg(
                            &m.job_id,
                            &self.config.board_id,
                            &m.environment_id,
                        );
                        acts.push(SupervisorAction::Publish {
                            job_id: m.job_id,
                            state: JobState::Failed { status_message: Option::Some(msg_text) },
                        });
                    },
                    Option::Some(Option::None) => {
                        acts.push(SupervisorAction::Publish {
                            job_id: m.job_id,
                            state: JobState::Starting {
                                stage: JobStartingStage::Allocating,
                                status_message: Option::None,
                            },
                        });
                        let msg_text = no_provider_msg(&m.job_id, &self.config.board_id);
                        acts.push(SupervisorAction::Publish {
                            job_id: m.job_id,
                            state: JobState::Failed { status_message: Option::Some(msg_text) },
                        });
                    },
                    Option::Some(Option::Some((env_copy, mp, ds, cargs, margs))) => {
                        acts.push(SupervisorAction::Publish {
                            job_id: m.job_id,
                            state: JobState::Starting {
                                stage: JobStartingStage::Allocating,
                                status_message: Option::None,
                            },
                        });
                        acts.push(SupervisorAction::AllocateRootFs {
                            create_args: cargs,
                            mount_args: margs,
                            mountpoint: mp.clone(),
                            zfs_fs: ds.clone(),
                        });
                        self.phase = RunnerPhase::StartAllocating {
                            ctx: StartContext {
                                msg: m,
                                environment_config: env_copy,
                                mountpoint: mp,
                                zfs_root_fs: ds,
                            },
                        };
                    },
                }
                acts
            },
            SupervisorEvent::StopJob(m) => {
                let matches_running = match &self.current_job {
                    Option::Some(job) => job.job_id == m.job_id,
                    Option::None => false,
                };
                if !matches_running {
                    let msg_text = not_running_msg(&m.job_id, &self.config.board_id);
                    acts.push(SupervisorAction::Publish {
                        job_id: m.job_id,
                        state: JobState::Failed { status_message: Option::Some(msg_text) },
                    });
                    return acts;
                }
                let mut slot: Option<NspawnRunnerJob> = Option::None;
                core::mem::swap(&mut slot, &mut self.current_job);
                match slot {
                    Option::Some(job) => {
                        acts.push(SupervisorAction::Publish {
                            job_id: m.job_id,
                            state: JobState::Stopping { status_message: Option::None },
                        });
                        acts.push(SupervisorAction::SignalAndAwaitExit {
                            timeout_seconds: job.environment_config.shutdown_timeout,
                        });
                        self.phase = RunnerPhase::StopSignaled { msg: m, job };
                        acts
                    },
                    Option::None => {
                        proof {
                            assert(false);
                        }
                        acts
                    },
                }
            },
            SupervisorEvent::AllocateDone(res) => {
                match ph {
                    RunnerPhase::StartAllocating { ctx } => {
                        match res {
                            Result::Err(e) => {
                                acts.push(SupervisorAction::Publish {
                                    job_id: ctx.msg.job_id,
                                    state: JobState::Failed {
                                        status_message: Option::Some(e),
                                    },
                                });
                            },
                            Result::Ok(()) => {
                                let path = control_socket_path(
                                    ctx.mountpoint.as_str(),
                                    ctx.environment_config.control_socket_path.as_str(),
                                );
                                acts.push(SupervisorAction::BindControlSocket {
                                    job_id: ctx.msg.job_id,
                                    path,
                                });
                                self.phase = RunnerPhase::StartBindingSocket { ctx };
                            },
                        }
                        acts
                    },
                    _ => {
                        proof {
                            assert(false);
                        }
                        acts
                    },
                }
            },
            SupervisorEvent::ControlSocketDone(res) => {
                match ph {
                    RunnerPhase::StartBindingSocket { ctx } => {
                        match res {
                            Result::Err(e) => {
                                let path = control_socket_path(
                                    ctx.mountpoint.as_str(),
                                    ctx.environment_config.control_socket_path.as_str(),
                                );
                                acts.push(SupervisorAction::Fatal {
                                    message: bind_failed_msg(path.as_str(), e.as_str()),
                                });
                                self.phase = RunnerPhase::StartBindingSocket { ctx };
                            },
                            Result::Ok(()) => {
                                if let Option::Some(sa) = ssh_target(&ctx.environment_config) {
                                    acts.push(SupervisorAction::StartRendezvousProxies {
                                        address: sa,
                                        servers: duplicate_servers(
                                            &ctx.msg.ssh_rendezvous_servers,
                                        ),
                                    });
                                }
                                acts.push(SupervisorAction::Publish {
                                    job_id: ctx.msg.job_id,
                                    state: JobState::Starting {
                                        stage: JobStartingStage::Booting,
                                        status_message: Option::None,
                                    },
                                });
                                acts.push(SupervisorAction::ResolveDevices {
                                    nodes: resolve_requests_for(&ctx.environment_config),
                                });
                                self.phase = RunnerPhase::StartResolvingDevices { ctx };
                            },
                        }
                        acts
                    },
                    _ => {
                        proof {
                            assert(false);
                        }
                        acts
                    },
                }
            },
            SupervisorEvent::DevicesResolved(resolved) => {
                match ph {
                    RunnerPhase::StartResolvingDevices { ctx } => {
                        let (args, warnings) = build_run_args(
                            &ctx.environment_config,
                            &resolved,
                            ctx.mountpoint.as_str(),
                        );
                        let ghost warning_views = devices_warnings(
                            ctx.environment_config.device@,
                            opt_strs(resolved@),
                        );
                        let mut wi: usize = 0;
                        while wi < warnings.len()
                            invariant
                                wi <= warnings@.len(),
                                strs(warnings@) == warning_views,
                                acts@.len() == wi,
                                forall|k: int|
                                    0 <= k < wi ==> is_log_warning(
                                        #[trigger] acts@[k],
                                        warning_views[k],
                                    ),
                            decreases warnings@.len() - wi,
                        {
                            acts.push(SupervisorAction::LogWarning {
                                message: warnings[wi].clone(),
                            });
                            wi = wi + 1;
                        }
                        acts.push(SupervisorAction::SpawnContainer { args });
                        self.phase = RunnerPhase::StartSpawning { ctx };
                        acts
                    },
                    _ => {
                        proof {
                            assert(false);
                        }
                        acts
                    },
                }
            },
            SupervisorEvent::SpawnDone(res) => {
                match ph {
                    RunnerPhase::StartSpawning { ctx } => {
                        match res {
                            Result::Err(e) => {
                                acts.push(SupervisorAction::Publish {
                                    job_id: ctx.msg.job_id,
                                    state: JobState::Failed {
                                        status_message: Option::Some(
                                            spawn_failed_msg(e.as_str()),
                                        ),
                                    },
                                });
                            },
                            Result::Ok(()) => {
                                acts.push(SupervisorAction::StartConsoleStreamer {
                                    job_id: ctx.msg.job_id,
                                });
                                acts.push(SupervisorAction::ProbeRendezvousProxies);
                                self.phase = RunnerPhase::StartProbing { ctx };
                            },
                        }
                        acts
                    },
                    _ => {
                        proof {
                            assert(false);
                        }
                        acts
                    },
                }
            },
            SupervisorEvent::ProxiesProbed(probes) => {
                match ph {
                    RunnerPhase::StartProbing { ctx } => {
                        let mut infos: Vec<JobSessionConnectionInfo> = Vec::new();
                        let mut i: usize = 0;
                        while i < probes.len()
                            invariant
                                i <= probes@.len(),
                                successes(probes@.take(i as int)).len() <= i,
                                infos@.len() == successes(probes@.take(i as int)).len(),
                                conn_info_matches(infos@, successes(probes@.take(i as int))),
                                acts@.len() == i - successes(probes@.take(i as int)).len(),
                                forall|k: int|
                                    0 <= k < acts@.len() ==> is_log_warning(
                                        #[trigger] acts@[k],
                                        proxy_timeout_warning_chars(),
                                    ),
                            decreases probes@.len() - i,
                        {
                            proof {
                                reveal_strlit(
                                    "Rendezvous proxy did not provide public address before timeout.",
                                );
                            }
                            match &probes[i] {
                                Option::Some(hp) => {
                                    infos.push(JobSessionConnectionInfo::RendezvousSSH {
                                        hostname: hp.0.clone(),
                                        port: hp.1,
                                        host_key_fingerprints: Vec::new(),
                                    });
                                },
                                Option::None => {
                                    acts.push(SupervisorAction::LogWarning {
                                        message: String::from_str(
                                            "Rendezvous proxy did not provide public address before timeout.",
                                        ),
                                    });
                                },
                            }
                            proof {
                                assert(probes@.take(i + 1).drop_last() =~= probes@.take(i as int));
                                assert(probes@.take(i + 1).last() == probes@[i as int]);
                                assert(conn_info_matches(
                                    infos@,
                                    successes(probes@.take(i + 1)),
                                ));
                            }
                            i = i + 1;
                        }
                        proof {
                            assert(probes@.take(probes@.len() as int) =~= probes@);
                        }
                        acts.push(SupervisorAction::Publish {
                            job_id: ctx.msg.job_id,
                            state: JobState::Ready {
                                connection_info: infos,
                                status_message: Option::None,
                            },
                        });
                        self.current_job = Option::Some(NspawnRunnerJob {
                            job_id: ctx.msg.job_id,
                            environment_id: ctx.msg.environment_id,
                            environment_config: ctx.environment_config,
                            ssh_keys: ctx.msg.ssh_keys,
                            root_fs_mountpoint: Option::Some(ctx.mountpoint),
                            zfs_root_fs: Option::Some(ctx.zfs_root_fs),
                        });
                        acts
                    },
                    _ => {
                        proof {
                            assert(false);
                        }
                        acts
                    },
                }
            },
            SupervisorEvent::GracefulWaitDone => {
                match ph {
                    RunnerPhase::StopSignaled { msg, job } => {
                        acts.push(SupervisorAction::CheckChild);
                        self.phase = RunnerPhase::StopKilling { msg, job };
                        acts
                    },
                    _ => {
                        proof {
                            assert(false);
                        }
                        acts
                    },
                }
            },
            SupervisorEvent::ChildStatus(st) => {
                match ph {
                    RunnerPhase::StopKilling { msg, job } => {
                        match st {
                            ChildStatusOutcome::Exited => {
                                acts.push(SupervisorAction::ShutdownControlSocket);
                                acts.push(SupervisorAction::ShutdownConsoleStreamer);
                                acts.push(SupervisorAction::ShutdownRendezvousProxies);
                                self.phase = RunnerPhase::StopTearingDown { msg, job };
                            },
                            ChildStatusOutcome::Running => {
                                acts.push(SupervisorAction::KillChild);
                                acts.push(SupervisorAction::CheckChild);
                                self.phase = RunnerPhase::StopKilling { msg, job };
                            },
                            ChildStatusOutcome::CheckError(e) => {
                                acts.push(SupervisorAction::Fatal {
                                    message: kill_error_msg(e.as_str()),
                                });
                                self.phase = RunnerPhase::StopKilling { msg, job };
                            },
                        }
                        acts
                    },
                    _ => {
                        proof {
                            assert(false);
                        }
                        acts
                    },
                }
            },
            SupervisorEvent::TeardownDone => {
                match ph {
                    RunnerPhase::StopTearingDown { msg, job } => {
                        match &job.root_fs_mountpoint {
                            Option::Some(mp) => {
                                acts.push(SupervisorAction::UnmountRootFs {
                                    mountpoint: mp.clone(),
                                });
                                self.phase = RunnerPhase::StopUnmounting { msg, job };
                            },
                            Option::None => {
                                acts.push(Self::finish_step(msg, job, &mut self.phase));
                            },
                        }
                        acts
                    },
                    _ => {
                        proof {
                            assert(false);
                        }
                        acts
                    },
                }
            },
            SupervisorEvent::UnmountDone(res) => {
                match ph {
                    RunnerPhase::StopUnmounting { msg, job } => {
                        match res {
                            Result::Err(e) => {
                                acts.push(SupervisorAction::Publish {
                                    job_id: msg.job_id,
                                    state: JobState::Failed {
                                        status_message: Option::Some(e),
                                    },
                                });
                            },
                            Result::Ok(()) => {
                                acts.push(Self::finish_step(msg, job, &mut self.phase));
                            },
                        }
                        acts
                    },
                    _ => {
                        proof {
                            assert(false);
                        }
                        acts
                    },
                }
            },
            SupervisorEvent::DestroyDone(res) => {
                match ph {
                    RunnerPhase::StopDestroying { msg, job: _job } => {
                        match res {
                            Result::Err(e) => {
                                acts.push(SupervisorAction::Publish {
                                    job_id: msg.job_id,
                                    state: JobState::Failed {
                                        status_message: Option::Some(e),
                                    },
                                });
                            },
                            Result::Ok(()) => {
                                acts.push(SupervisorAction::Publish {
                                    job_id: msg.job_id,
                                    state: JobState::Finished {
                                        status_message: Option::None,
                                    },
                                });
                            },
                        }
                        acts
                    },
                    _ => {
                        proof {
                            assert(false);
                        }
                        acts
                    },
                }
            },
        }
    }

    /// The final step of a stop: destroy the backing volume when the
    /// deploy policy asks for it, else publish that the job finished.
    fn finish_step(msg: StopJobMessage, job: NspawnRunnerJob, phase: &mut RunnerPhase) -> (a:
        SupervisorAction)
        ensures
            ({
                let acts = seq![a];
                if DELETE_DATA && job.zfs_root_fs is Some {
                    (*final(phase) matches RunnerPhase::StopDestroying { msg: m, job: j } && m == msg
                        && j == job) && acts.len() == 1 && (acts[0] matches
                    SupervisorAction::DestroyRootFs { destroy_args } && strs(destroy_args@)
                        == destroy_args_chars(job.zfs_root_fs->0@))
                } else {
                    *final(phase) is Idle && acts.len() == 1 && is_publish_finished(acts[0], msg.job_id)
                }
            }),
    {
        if DELETE_DATA {
            if let Option::Some(z) = &job.zfs_root_fs {
                let destroy_args = destroy_args_for(z.as_str());
                *phase = RunnerPhase::StopDestroying { msg, job };
                return SupervisorAction::DestroyRootFs { destroy_args };
            }
        }
        *phase = RunnerPhase::Idle;
        SupervisorAction::Publish {
            job_id: msg.job_id,
            state: JobState::Finished { status_message: Option::None },
        }
    }
}

} // verus!

// ---------------------------------------------------------------
// Lifecycle laws.
// ---------------------------------------------------------------

verus! {

/// The lifecycle states published by a list of actions, in order.
pub open spec fn publishes(acts: Seq<SupervisorAction>) -> Seq<SupervisorAction>
    decreases acts.len(),
{
    if acts.len() == 0 {
        Seq::<SupervisorAction>::empty()
    } else {
        publishes(acts.drop_last()) + (if acts.last() is Publish {
            seq![acts.last()]
        } else {
            Seq::<SupervisorAction>::empty()
        })
    }
}

pub proof fn lemma_publishes_concat(a: Seq<SupervisorAction>, b: Seq<SupervisorAction>)
    ensures
        publishes(a + b) == publishes(a) + publishes(b),
    decreases b.len(),
{
    if b.len() == 0 {
        assert(a + b =~= a);
        assert(publishes(b) =~= Seq::<SupervisorAction>::empty());
        assert(publishes(a) + publishes(b) =~= publishes(a));
    } else {
        lemma_publishes_concat(a, b.drop_last());
        assert((a + b).drop_last() =~= a + b.drop_last());
        assert((a + b).last() == b.last());
        assert(publishes(a + b) =~= publishes(a) + publishes(b));
    }
}

/// A list of actions without any publication publishes nothing.
pub proof fn lemma_publishes_none(acts: Seq<SupervisorAction>)
    requires
        forall|k: int| 0 <= k < acts.len() ==> !((#[trigger] acts[k]) is Publish),
    ensures
        publishes(acts) == Seq::<SupervisorAction>::empty(),
    decreases acts.len(),
{
    if acts.len() > 0 {
        lemma_publishes_none(acts.drop_last());
        assert(!(acts.last() is Publish));
        assert(publishes(acts) =~= Seq::<SupervisorAction>::empty());
    }
}

/// A list of actions whose only publication stands at index p
/// publishes exactly that one state.
pub proof fn lemma_publishes_single(acts: Seq<SupervisorAction>, p: int)
    requires
        0 <= p < acts.len(),
        acts[p] is Publish,
        forall|k: int| 0 <= k < acts.len() && k != p ==> !((#[trigger] acts[k]) is Publish),
    ensures
        publishes(acts) == seq![acts[p]],
    decreases acts.len(),
{
    if p == acts.len() - 1 {
        lemma_publishes_none(acts.drop_last());
        assert(publishes(acts) =~= seq![acts[p]]);
    } else {
        lemma_publishes_single(acts.drop_last(), p);
        assert(!(acts.last() is Publish));
        assert(acts.drop_last()[p] == acts[p]);
        assert(publishes(acts) =~= seq![acts[p]]);
    }
}

/// The successful probes are never more numerous than the probes.
pub proof fn lemma_successes_len(probes: Seq<Option<(String, u16)>>)
    ensures
        successes(probes).len() <= probes.len(),
    decreases probes.len(),
{
    if probes.len() > 0 {
        lemma_successes_len(probes.drop_last());
    }
}

/// At most one job is ever installed in the slot: a step either
/// leaves the slot as it was, or installs exactly the job of the
/// start transaction that just completed, under that transaction's
/// job id.
pub proof fn lemma_single_slot(
    pre: NspawnRunner,
    ev: SupervisorEvent,
    post: NspawnRunner,
    acts: Seq<SupervisorAction>,
)
    requires
        wf(pre),
        step_rel(pre, ev, post, acts),
    ensures
        post.current_job is Some ==> (post.current_job == pre.current_job || (
        pre.phase matches RunnerPhase::StartProbing { ctx } && ev is ProxiesProbed
            && post.current_job->0.job_id == ctx.msg.job_id)),
{
}

/// A `StartJob` while the slot is occupied leaves the slot unchanged
/// and publishes exactly one `Failed` against the new job's id, whose
/// message names the running job's id as well.
pub proof fn lemma_duplicate_start_rejected(
    pre: NspawnRunner,
    m: StartJobMessage,
    post: NspawnRunner,
    acts: Seq<SupervisorAction>,
)
    requires
        wf(pre),
        pre.current_job is Some,
        step_rel(pre, SupervisorEvent::StartJob(m), post, acts),
    ensures
        post.current_job == pre.current_job,
        post.phase is Idle,
        publishes(acts) == acts,
        acts.len() == 1,
        is_publish_failed(
            acts[0],
            m.job_id,
            occupied_msg_chars(m.job_id, pre.config.board_id, pre.current_job->0.job_id),
        ),
{
    lemma_publishes_single(acts, 0);
    assert(publishes(acts) =~= acts);
}

/// A `StopJob` whose id does not match the slot (or arrives while the
/// slot is empty) leaves the runner unchanged and publishes exactly
/// one `Failed` against the requested id.
pub proof fn lemma_mismatched_stop_rejected(
    pre: NspawnRunner,
    m: StopJobMessage,
    post: NspawnRunner,
    acts: Seq<SupervisorAction>,
)
    requires
        wf(pre),
        pre.current_job is Some ==> pre.current_job->0.job_id != m.job_id,
        step_rel(pre, SupervisorEvent::StopJob(m), post, acts),
    ensures
        post.current_job == pre.current_job,
        post.phase is Idle,
        post.config == pre.config,
        acts.len() == 1,
        is_publish_failed(
            acts[0],
            m.job_id,
            not_running_msg_chars(m.job_id, pre.config.board_id),
        ),
{
    if pre.current_job is None {
        assert(post.current_job is None && pre.current_job is None);
        assert(post.current_job == pre.current_job);
    }
}

/// Re-running `StopJob` after a job has finished (the slot is empty
/// again) yields `Failed` and leaves no residual state: the
/// configuration, the empty slot and the idle phase are all
/// unchanged.
pub proof fn lemma_stop_after_finished(
    pre: NspawnRunner,
    m: StopJobMessage,
    post: NspawnRunner,
    acts: Seq<SupervisorAction>,
)
    requires
        wf(pre),
        pre.current_job is None,
        pre.phase is Idle,
        step_rel(pre, SupervisorEvent::StopJob(m), post, acts),
    ensures
        post.config == pre.config,
        post.current_job is None,
        post.phase is Idle,
        acts.len() == 1,
        is_publish_failed(
            acts[0],
            m.job_id,
            not_running_msg_chars(m.job_id, pre.config.board_id),
        ),
{
}

/// A successful start publishes exactly `Allocating`, `Booting`,
/// `Ready` — in that order, with no other state in between — and
/// installs the job under the triggering message's id.
pub proof fn lemma_successful_start_states(
    s0: NspawnRunner,
    m: StartJobMessage,
    resolved: Vec<Option<String>>,
    probes: Vec<Option<(String, u16)>>,
    s1: NspawnRunner,
    s2: NspawnRunner,
    s3: NspawnRunner,
    s4: NspawnRunner,
    s5: NspawnRunner,
    s6: NspawnRunner,
    a1: Seq<SupervisorAction>,
    a2: Seq<SupervisorAction>,
    a3: Seq<SupervisorAction>,
    a4: Seq<SupervisorAction>,
    a5: Seq<SupervisorAction>,
    a6: Seq<SupervisorAction>,
)
    requires
        wf(s0),
        s0.current_job is None,
        (spec_env_lookup(s0.config.environments@, m.environment_id) matches Option::Some(env)
            && env.zfsroot is Some),
        step_rel(s0, SupervisorEvent::StartJob(m), s1, a1),
        step_rel(s1, SupervisorEvent::AllocateDone(Result::Ok(())), s2, a2),
        step_rel(s2, SupervisorEvent::ControlSocketDone(Result::Ok(())), s3, a3),
        step_rel(s3, SupervisorEvent::DevicesResolved(resolved), s4, a4),
        step_rel(s4, SupervisorEvent::SpawnDone(Result::Ok(())), s5, a5),
        step_rel(s5, SupervisorEvent::ProxiesProbed(probes), s6, a6),
    ensures
        ({
            let pubs = publishes(a1 + a2 + a3 + a4 + a5 + a6);
            &&& pubs.len() == 3
            &&& is_publish_starting(pubs[0], m.job_id, JobStartingStage::Allocating)
            &&& is_publish_starting(pubs[1], m.job_id, JobStartingStage::Booting)
            &&& is_publish_ready(pubs[2], m.job_id, probes@)
        }),
        s6.phase is Idle,
        s6.current_job is Some,
        s6.current_job->0.job_id == m.job_id,
        s6.current_job->0.ssh_keys == m.ssh_keys,
{
    lemma_publishes_single(a1, 0);
    lemma_publishes_none(a2);
    let ctx2 = s2.phase->StartBindingSocket_ctx;
    if spec_ssh_target(ctx2.environment_config) is Some {
        lemma_publishes_single(a3, 1);
    } else {
        lemma_publishes_single(a3, 0);
    }
    let ctx3 = s3.phase->StartResolvingDevices_ctx;
    let warnings = devices_warnings(ctx3.environment_config.device@, opt_strs(resolved@));
    assert forall|k: int| 0 <= k < a4.len() implies !((#[trigger] a4[k]) is Publish) by {
        if k < warnings.len() {
            assert(is_log_warning(a4[k], warnings[k]));
        }
    }
    lemma_publishes_none(a4);
    lemma_publishes_none(a5);
    lemma_successes_len(probes@);
    let misses = probes@.len() - successes(probes@).len();
    assert forall|k: int| 0 <= k < a6.len() && k != a6.len() - 1 implies !((#[trigger] a6[k])
        is Publish) by {
        assert(is_log_warning(a6[k], proxy_timeout_warning_chars()));
    }
    lemma_publishes_single(a6, a6.len() - 1);
    lemma_publishes_concat(a1, a2);
    lemma_publishes_concat(a1 + a2, a3);
    lemma_publishes_concat(a1 + a2 + a3, a4);
    lemma_publishes_concat(a1 + a2 + a3 + a4, a5);
    lemma_publishes_concat(a1 + a2 + a3 + a4 + a5, a6);
    assert(publishes(a1 + a2 + a3 + a4 + a5 + a6) =~= seq![a1[0]] + (if spec_ssh_target(
        ctx2.environment_config,
    ) is Some {
        seq![a3[1]]
    } else {
        seq![a3[0]]
    }) + seq![a6[a6.len() - 1]]);
}

/// A successful stop publishes exactly `Stopping`, `Finished` and
/// leaves the slot empty.
pub proof fn lemma_successful_stop_states(
    s0: NspawnRunner,
    m: StopJobMessage,
    s1: NspawnRunner,
    s2: NspawnRunner,
    s3: NspawnRunner,
    s4: NspawnRunner,
    s5: NspawnRunner,
    a1: Seq<SupervisorAction>,
    a2: Seq<SupervisorAction>,
    a3: Seq<SupervisorAction>,
    a4: Seq<SupervisorAction>,
    a5: Seq<SupervisorAction>,
)
    requires
        wf(s0),
        s0.current_job is Some,
        s0.current_job->0.job_id == m.job_id,
        s0.current_job->0.root_fs_mountpoint is Some,
        step_rel(s0, SupervisorEvent::StopJob(m), s1, a1),
        step_rel(s1, SupervisorEvent::GracefulWaitDone, s2, a2),
        step_rel(s2, SupervisorEvent::ChildStatus(ChildStatusOutcome::Exited), s3, a3),
        step_rel(s3, SupervisorEvent::TeardownDone, s4, a4),
        step_rel(s4, SupervisorEvent::UnmountDone(Result::Ok(())), s5, a5),
    ensures
        ({
            let pubs = publishes(a1 + a2 + a3 + a4 + a5);
            &&& pubs.len() == 2
            &&& is_publish_stopping(pubs[0], m.job_id)
            &&& is_publish_finished(pubs[1], m.job_id)
        }),
        s5.phase is Idle,
        s5.current_job is None,
{
    lemma_publishes_single(a1, 0);
    lemma_publishes_none(a2);
    lemma_publishes_none(a3);
    lemma_publishes_none(a4);
    lemma_publishes_single(a5, 0);
    lemma_publishes_concat(a1, a2);
    lemma_publishes_concat(a1 + a2, a3);
    lemma_publishes_concat(a1 + a2 + a3, a4);
    lemma_publishes_concat(a1 + a2 + a3 + a4, a5);
    assert(publishes(a1 + a2 + a3 + a4 + a5) =~= seq![a1[0]] + seq![a5[0]]);
}

/// While the shutdown timeout has elapsed and the container is still
/// alive, each inspection round force-kills it and publishes nothing;
/// the stop transaction stays in place, so `Finished` still follows
/// once the container is gone.
pub proof fn lemma_kill_round(
    pre: NspawnRunner,
    post: NspawnRunner,
    acts: Seq<SupervisorAction>,
)
    requires
        wf(pre),
        pre.phase is StopKilling,
        step_rel(pre, SupervisorEvent::ChildStatus(ChildStatusOutcome::Running), post, acts),
    ensures
        post.phase == pre.phase,
        post.current_job is None,
        publishes(acts) == Seq::<SupervisorAction>::empty(),
        acts.len() == 2,
        acts[0] is KillChild,
        acts[1] is CheckChild,
{
    lemma_publishes_none(acts);
    let msg = pre.phase->StopKilling_msg;
    let job = pre.phase->StopKilling_job;
    assert(post.phase matches RunnerPhase::StopKilling { msg: m2, job: j2 } && m2 == msg && j2
        == job);
}

} // verus!
