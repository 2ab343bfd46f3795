//! Messages exchanged with the coordinator and with the in-container
//! agent (the puppet).
//!
//! `StartJobMessage` / `StopJobMessage` arrive from the coordinator;
//! `JobState` values are published back to it.  The puppet speaks the
//! control-socket protocol: `PuppetMsg` towards the runner and
//! `RunnerMsg` back.

use vstd::prelude::*;

use crate::config::{Ipv4Address, Ipv6Address};
use crate::ids::Uuid;

verus! {

/// One SSH rendezvous server a job's endpoint is announced to.
#[derive(Debug, PartialEq, Eq)]
pub struct RendezvousServerSpec {
    pub client_id: String,
    pub server_base_url: String,
    pub auth_token: String,
}

pub open spec fn rendezvous_server_equiv(
    a: RendezvousServerSpec,
    b: RendezvousServerSpec,
) -> bool {
    &&& a.client_id@ == b.client_id@
    &&& a.server_base_url@ == b.server_base_url@
    &&& a.auth_token@ == b.auth_token@
}

impl RendezvousServerSpec {
    pub fn duplicate(&self) -> (r: Self)
        ensures
            rendezvous_server_equiv(r, *self),
    {
        RendezvousServerSpec {
            client_id: self.client_id.clone(),
            server_base_url: self.server_base_url.clone(),
            auth_token: self.auth_token.clone(),
        }
    }
}

/// The coordinator's request to start a job in a named environment.
pub struct StartJobMessage {
    pub job_id: Uuid,
    pub environment_id: Uuid,
    pub ssh_keys: Vec<String>,
    pub ssh_rendezvous_servers: Vec<RendezvousServerSpec>,
}

/// The coordinator's request to stop a running job.
pub struct StopJobMessage {
    pub job_id: Uuid,
}

/// The two stages a starting job passes through before it is ready.
#[derive(Clone, Copy, Debug, PartialEq, Eq, Structural)]
pub enum JobStartingStage {
    Allocating,
    Booting,
}

/// How a ready job can be reached from outside.
#[derive(Debug, PartialEq, Eq)]
pub enum JobSessionConnectionInfo {
    RendezvousSSH {
        hostname: String,
        port: u16,
        host_key_fingerprints: Vec<String>,
    },
}

/// A lifecycle state as published to the coordinator.
#[derive(Debug, PartialEq, Eq)]
pub enum JobState {
    Starting { stage: JobStartingStage, status_message: Option<String> },
    Ready { connection_info: Vec<JobSessionConnectionInfo>, status_message: Option<String> },
    Stopping { status_message: Option<String> },
    Finished { status_message: Option<String> },
    Failed { status_message: Option<String> },
}

/// Which console stream a chunk was read from.
#[derive(Clone, Copy, Debug, PartialEq, Eq, Structural)]
pub enum StdioFd {
    Stdout,
    Stderr,
}

/// A request from the puppet to the runner.
#[derive(Clone, Copy, Debug, PartialEq, Eq, Structural)]
pub enum PuppetReq {
    SSHKeys,
    NetworkConfig,
}

/// An event announced by the puppet.
#[derive(Clone, Copy, Debug, PartialEq, Eq, Structural)]
pub enum PuppetEvent {
    Ready,
}

/// IPv4 settings handed to the puppet.
#[derive(Debug, PartialEq, Eq)]
pub struct Ipv4NetworkConfig {
    pub address: Ipv4Address,
    pub prefix_length: u8,
    pub gateway: Option<Ipv4Address>,
    pub nameservers: Vec<Ipv4Address>,
}

/// IPv6 settings handed to the puppet.
#[derive(Debug, PartialEq, Eq)]
pub struct Ipv6NetworkConfig {
    pub address: Ipv6Address,
    pub prefix_length: u8,
    pub gateway: Option<Ipv6Address>,
    pub nameservers: Vec<Ipv6Address>,
}

/// The network identity the runner answers a puppet's
/// `NetworkConfig` request with.
#[derive(Debug, PartialEq, Eq)]
pub struct NetworkConfig {
    pub hostname: String,
    pub interface: Option<String>,
    pub ipv4: Option<Ipv4NetworkConfig>,
    pub ipv6: Option<Ipv6NetworkConfig>,
}

/// The runner's answer to a puppet request.
#[derive(Debug, PartialEq, Eq)]
pub enum RunnerResp {
    SSHKeysResp { ssh_keys: Vec<String> },
    NetworkConfig(NetworkConfig),
    JobNotFound,
}

/// A datagram from the puppet to the runner.
#[derive(Debug, PartialEq, Eq)]
pub enum PuppetMsg {
    Request { request_id: u64, request: PuppetReq },
    Event { puppet_event_id: u64, event: PuppetEvent },
}

/// A datagram from the runner to the puppet.  No runner events are
/// defined yet; the `Event` kind carries only its sequence number and
/// is reserved.
#[derive(Debug, PartialEq, Eq)]
pub enum RunnerMsg {
    Response { request_id: u64, response: RunnerResp },
    Event { runner_event_id: u64 },
    Error { message: String },
}

} // verus!
