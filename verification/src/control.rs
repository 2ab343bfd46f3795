//! The control-socket protocol logic.
//!
//! Server side: the runner answers a puppet's requests from the
//! currently installed job — SSH keys and network identity — and
//! answers emptily when the target job is not the one in the slot.
//! Client side: the puppet assigns strictly increasing request ids,
//! keeps one pending slot per id, fills it from incoming responses
//! (duplicates overwrite and are reported, unknown ids are reported)
//! and hands a response out exactly once.

use vstd::prelude::*;

use crate::config::Ipv4Address;
use crate::config::Ipv6Address;
use crate::ids::{hostname_chars, hostname_for, Uuid};
use crate::messages::{
    Ipv4NetworkConfig, Ipv6NetworkConfig, NetworkConfig, PuppetEvent, PuppetMsg, PuppetReq,
    RunnerMsg, RunnerResp,
};
use crate::supervisor::NspawnRunner;
use crate::zfs::strs;

verus! {

fn duplicate_strings(v: &Vec<String>) -> (r: Vec<String>)
    ensures
        strs(r@) == strs(v@),
{
    let mut r: Vec<String> = Vec::new();
    let mut i: usize = 0;
    while i < v.len()
        invariant
            i <= v@.len(),
            r@.len() == i,
            forall|k: int| 0 <= k < i ==> (#[trigger] r@[k])@ == v@[k]@,
        decreases v@.len() - i,
    {
        let entry = &v[i];
        r.push(entry.clone());
        i = i + 1;
    }
    proof {
        assert(strs(r@) =~= strs(v@));
    }
    r
}

fn copy_v4_addrs(v: &Vec<Ipv4Address>) -> (r: Vec<Ipv4Address>)
    ensures
        r@ =~= v@,
{
    let mut r: Vec<Ipv4Address> = Vec::new();
    let mut i: usize = 0;
    while i < v.len()
        invariant
            i <= v@.len(),
            r@ =~= v@.take(i as int),
        decreases v@.len() - i,
    {
        r.push(v[i]);
        i = i + 1;
    }
    proof {
        assert(v@.take(v@.len() as int) =~= v@);
    }
    r
}

fn copy_v6_addrs(v: &Vec<Ipv6Address>) -> (r: Vec<Ipv6Address>)
    ensures
        r@ =~= v@,
{
    let mut r: Vec<Ipv6Address> = Vec::new();
    let mut i: usize = 0;
    while i < v.len()
        invariant
            i <= v@.len(),
            r@ =~= v@.take(i as int),
        decreases v@.len() - i,
    {
        r.push(v[i]);
        i = i + 1;
    }
    proof {
        assert(v@.take(v@.len() as int) =~= v@);
    }
    r
}

/// Whether the response's carried kind answers the request's kind.
pub open spec fn kind_matches(req: PuppetReq, resp: RunnerResp) -> bool {
    match req {
        PuppetReq::SSHKeys => resp is SSHKeysResp,
        PuppetReq::NetworkConfig => resp is NetworkConfig,
    }
}

/// The puppet-side IPv4 settings mirror the environment's.
pub open spec fn puppet_v4_matches(
    got: Option<Ipv4NetworkConfig>,
    cfg: Option<crate::config::NspawnRunnerEnvironmentIpv4NetworkConfig>,
) -> bool {
    match (got, cfg) {
        (Option::Some(n), Option::Some(c)) => {
            &&& n.address == c.address
            &&& n.prefix_length == c.prefix_length
            &&& n.gateway == c.gateway
            &&& n.nameservers@ == c.nameservers@
        },
        (Option::None, Option::None) => true,
        _ => false,
    }
}

/// The puppet-side IPv6 settings mirror the environment's.
pub open spec fn puppet_v6_matches(
    got: Option<Ipv6NetworkConfig>,
    cfg: Option<crate::config::NspawnRunnerEnvironmentIpv6NetworkConfig>,
) -> bool {
    match (got, cfg) {
        (Option::Some(n), Option::Some(c)) => {
            &&& n.address == c.address
            &&& n.prefix_length == c.prefix_length
            &&& n.gateway == c.gateway
            &&& n.nameservers@ == c.nameservers@
        },
        (Option::None, Option::None) => true,
        _ => false,
    }
}

impl NspawnRunner {
    /// The authorized SSH keys for a job: those the triggering start
    /// request carried, in order — provided the slot holds that job.
    pub fn ssh_keys(&self, tgt_job_id: &Uuid) -> (r: Option<Vec<String>>)
        ensures
            (self.current_job matches Option::Some(job) && job.job_id == *tgt_job_id) ==> (r
                matches Option::Some(keys) && strs(keys@) == strs(
                self.current_job->0.ssh_keys@,
            )),
            (match self.current_job {
                Option::Some(job) => job.job_id != *tgt_job_id,
                Option::None => true,
            }) ==> r is None,
    {
        match &self.current_job {
            Option::Some(job) => {
                if job.job_id == *tgt_job_id {
                    Option::Some(duplicate_strings(&job.ssh_keys))
                } else {
                    Option::None
                }
            },
            Option::None => Option::None,
        }
    }

    /// The network identity for a job: the hostname derived from the
    /// job id, the fixed container-side interface name, and the
    /// environment's address settings — provided the slot holds that
    /// job.
    pub fn network_config(&self, tgt_job_id: &Uuid) -> (r: Option<NetworkConfig>)
        ensures
            (self.current_job matches Option::Some(job) && job.job_id == *tgt_job_id) ==> (r
                matches Option::Some(nc) && {
                &&& nc.hostname@ == hostname_chars(self.current_job->0.job_id.bits)
                &&& (nc.interface matches Option::Some(ifc) && ifc@ == "host0"@)
                &&& puppet_v4_matches(
                    nc.ipv4,
                    self.current_job->0.environment_config.ipv4_network,
                )
                &&& puppet_v6_matches(
                    nc.ipv6,
                    self.current_job->0.environment_config.ipv6_network,
                )
            }),
            (match self.current_job {
                Option::Some(job) => job.job_id != *tgt_job_id,
                Option::None => true,
            }) ==> r is None,
    {
        match &self.current_job {
            Option::Some(job) => {
                if job.job_id == *tgt_job_id {
                    proof {
                        reveal_strlit("host0");
                    }
                    let hostname = hostname_for(&job.job_id);
                    let ipv4 = match &job.environment_config.ipv4_network {
                        Option::Some(c) => Option::Some(Ipv4NetworkConfig {
                            address: c.address,
                            prefix_length: c.prefix_length,
                            gateway: c.gateway,
                            nameservers: copy_v4_addrs(&c.nameservers),
                        }),
                        Option::None => Option::None,
                    };
                    let ipv6 = match &job.environment_config.ipv6_network {
                        Option::Some(c) => Option::Some(Ipv6NetworkConfig {
                            address: c.address,
                            prefix_length: c.prefix_length,
                            gateway: c.gateway,
                            nameservers: copy_v6_addrs(&c.nameservers),
                        }),
                        Option::None => Option::None,
                    };
                    Option::Some(NetworkConfig {
                        hostname,
                        interface: Option::Some(String::from_str("host0")),
                        ipv4,
                        ipv6,
                    })
                } else {
                    Option::None
                }
            },
            Option::None => Option::None,
        }
    }

    /// Answer one puppet request from the runner's current slot.  A
    /// request completing normally — the slot holds the target job —
    /// is answered with a response of the matching kind; otherwise
    /// the answer is empty (`SSHKeysResp` with no keys) or
    /// `JobNotFound`.
    pub fn handle_request(&self, tgt_job_id: &Uuid, req: &PuppetReq) -> (resp: RunnerResp)
        ensures
            (self.current_job matches Option::Some(job) && job.job_id == *tgt_job_id)
                ==> kind_matches(*req, resp),
            (*req is SSHKeys) ==> (resp matches RunnerResp::SSHKeysResp { ssh_keys } && {
                if self.current_job matches Option::Some(job) && job.job_id == *tgt_job_id {
                    strs(ssh_keys@) == strs(self.current_job->0.ssh_keys@)
                } else {
                    ssh_keys@.len() == 0
                }
            }),
            (*req is NetworkConfig && !(self.current_job matches Option::Some(job)
                && job.job_id == *tgt_job_id)) ==> resp is JobNotFound,
            (*req is NetworkConfig && (self.current_job matches Option::Some(job) && job.job_id
                == *tgt_job_id)) ==> (resp matches RunnerResp::NetworkConfig(nc) && {
                &&& nc.hostname@ == hostname_chars(self.current_job->0.job_id.bits)
                &&& (nc.interface matches Option::Some(ifc) && ifc@ == "host0"@)
                &&& puppet_v4_matches(
                    nc.ipv4,
                    self.current_job->0.environment_config.ipv4_network,
                )
                &&& puppet_v6_matches(
                    nc.ipv6,
                    self.current_job->0.environment_config.ipv6_network,
                )
            }),
    {
        match req {
            PuppetReq::SSHKeys => {
                match self.ssh_keys(tgt_job_id) {
                    Option::Some(keys) => RunnerResp::SSHKeysResp { ssh_keys: keys },
                    Option::None => RunnerResp::SSHKeysResp { ssh_keys: Vec::new() },
                }
            },
            PuppetReq::NetworkConfig => {
                match self.network_config(tgt_job_id) {
                    Option::Some(nc) => RunnerResp::NetworkConfig(nc),
                    Option::None => RunnerResp::JobNotFound,
                }
            },
        }
    }
}

// ---------------------------------------------------------------
// Client side.
// ---------------------------------------------------------------

/// What the client noted about one incoming datagram.
#[derive(Clone, Copy, Debug, PartialEq, Eq, Structural)]
pub enum ClientNote {
    ResponseRecorded,
    DuplicateResponse,
    UnknownRequestId,
    EventIgnored,
    ErrorLogged,
}

/// The puppet's request/response bookkeeping: the next request and
/// event ids, and one pending slot per outstanding request.
pub struct RunnerSocketClient {
    pub next_request_id: u64,
    pub puppet_event_cnt: u64,
    pub pending: Vec<(u64, Option<RunnerResp>)>,
}

/// Each outstanding id appears at most once.
pub open spec fn pending_ids_unique(p: Seq<(u64, Option<RunnerResp>)>) -> bool {
    forall|i: int, j: int| 0 <= i < j < p.len() ==> p[i].0 != p[j].0
}

/// The pending slot for a request id, if the id is outstanding.
pub open spec fn spec_pending_lookup(
    p: Seq<(u64, Option<RunnerResp>)>,
    id: u64,
) -> Option<Option<RunnerResp>> {
    if exists|k: int| 0 <= k < p.len() && p[k].0 == id {
        let k = choose|k: int| 0 <= k < p.len() && p[k].0 == id;
        Option::Some(p[k].1)
    } else {
        Option::None
    }
}

/// The position of an outstanding request id.
pub open spec fn pending_index(p: Seq<(u64, Option<RunnerResp>)>, id: u64) -> int {
    choose|k: int| 0 <= k < p.len() && p[k].0 == id
}

/// With unique ids, the lookup finds exactly the entry that is there.
pub proof fn lemma_pending_lookup_at(p: Seq<(u64, Option<RunnerResp>)>, id: u64, i: int)
    requires
        pending_ids_unique(p),
        0 <= i < p.len(),
        p[i].0 == id,
    ensures
        spec_pending_lookup(p, id) == Option::Some(p[i].1),
        pending_index(p, id) == i,
{
    assert(0 <= i < p.len() && p[i].0 == id);
    let k = choose|k: int| 0 <= k < p.len() && p[k].0 == id;
    if k != i {
        if k < i {
            assert(p[k].0 != p[i].0);
        } else {
            assert(p[i].0 != p[k].0);
        }
    }
    assert(k == i);
}

impl RunnerSocketClient {
    /// Ids are unique and below the counter, so fresh ids are never
    /// in use.
    pub open spec fn wf(&self) -> bool {
        &&& pending_ids_unique(self.pending@)
        &&& forall|k: int|
            0 <= k < self.pending@.len() ==> (#[trigger] self.pending@[k]).0
                < self.next_request_id
    }

    /// A fresh client: ids from 0, nothing outstanding.
    pub fn new() -> (r: Self)
        ensures
            r.next_request_id == 0,
            r.puppet_event_cnt == 0,
            r.pending@.len() == 0,
            r.wf(),
    {
        RunnerSocketClient { next_request_id: 0, puppet_event_cnt: 0, pending: Vec::new() }
    }

    /// Allocate the next request id — strictly increasing from 0,
    /// never reused — record an empty pending slot for it, and build
    /// the datagram to send.  Overflow of the id counter is a fatal
    /// bug, so the caller keeps it out.
    pub fn begin_request(&mut self, req: PuppetReq) -> (r: (u64, PuppetMsg))
        requires
            old(self).wf(),
            old(self).next_request_id < u64::MAX,
        ensures
            final(self).wf(),
            r.0 == old(self).next_request_id,
            final(self).next_request_id == old(self).next_request_id + 1,
            final(self).puppet_event_cnt == old(self).puppet_event_cnt,
            final(self).pending@ == old(self).pending@.push((r.0, Option::None)),
            r.1 == (PuppetMsg::Request { request_id: r.0, request: req }),
            spec_pending_lookup(final(self).pending@, r.0) == Option::Some(
                Option::<RunnerResp>::None,
            ),
    {
        let id = self.next_request_id;
        self.next_request_id = id + 1;
        self.pending.push((id, Option::None));
        proof {
            let p = self.pending@;
            assert(p[p.len() - 1].0 == id);
            let k = choose|k: int| 0 <= k < p.len() && p[k].0 == id;
            assert(k == p.len() - 1);
        }
        (id, PuppetMsg::Request { request_id: id, request: req })
    }

    /// Allocate the next puppet event id and build the datagram.
    pub fn begin_event(&mut self, ev: PuppetEvent) -> (r: (u64, PuppetMsg))
        requires
            old(self).puppet_event_cnt < u64::MAX,
        ensures
            r.0 == old(self).puppet_event_cnt,
            final(self).puppet_event_cnt == old(self).puppet_event_cnt + 1,
            final(self).next_request_id == old(self).next_request_id,
            final(self).pending@ == old(self).pending@,
            r.1 == (PuppetMsg::Event { puppet_event_id: r.0, event: ev }),
    {
        let id = self.puppet_event_cnt;
        self.puppet_event_cnt = id + 1;
        (id, PuppetMsg::Event { puppet_event_id: id, event: ev })
    }

    /// The datagram announcing that the puppet is ready.
    pub fn report_ready(&mut self) -> (r: (u64, PuppetMsg))
        requires
            old(self).puppet_event_cnt < u64::MAX,
        ensures
            r.0 == old(self).puppet_event_cnt,
            final(self).puppet_event_cnt == old(self).puppet_event_cnt + 1,
            final(self).next_request_id == old(self).next_request_id,
            final(self).pending@ == old(self).pending@,
            r.1 == (PuppetMsg::Event { puppet_event_id: r.0, event: PuppetEvent::Ready }),
    {
        self.begin_event(PuppetEvent::Ready)
    }

    /// The position of an outstanding request id, if any.
    fn find_pending(&self, id: u64) -> (r: Option<usize>)
        requires
            self.wf(),
        ensures
            match r {
                Option::Some(i) => {
                    &&& i < self.pending@.len()
                    &&& self.pending@[i as int].0 == id
                    &&& pending_index(self.pending@, id) == i as int
                    &&& spec_pending_lookup(self.pending@, id) == Option::Some(
                        self.pending@[i as int].1,
                    )
                },
                Option::None => spec_pending_lookup(self.pending@, id) is None,
            },
    {
        let n = self.pending.len();
        let mut i: usize = 0;
        while i < n
            invariant
                n == self.pending@.len(),
                i <= n,
                self.wf(),
                forall|k: int| 0 <= k < i ==> self.pending@[k].0 != id,
            decreases n - i,
        {
            if self.pending[i].0 == id {
                proof {
                    lemma_pending_lookup_at(self.pending@, id, i as int);
                }
                return Option::Some(i);
            }
            i = i + 1;
        }
        Option::None
    }

    /// Digest one datagram from the runner.  A response fills its
    /// pending slot — a duplicate overwrites the earlier one and is
    /// reported, an unknown id changes nothing and is reported.
    /// Runner events and error messages are noted and ignored.
    pub fn handle_runner_msg(&mut self, msg: RunnerMsg) -> (note: ClientNote)
        requires
            old(self).wf(),
        ensures
            final(self).wf(),
            final(self).next_request_id == old(self).next_request_id,
            final(self).puppet_event_cnt == old(self).puppet_event_cnt,
            match msg {
                RunnerMsg::Response { request_id, response } => {
                    match spec_pending_lookup(old(self).pending@, request_id) {
                        Option::Some(prev) => {
                            &&& final(self).pending@ == old(self).pending@.update(
                                pending_index(old(self).pending@, request_id),
                                (request_id, Option::Some(response)),
                            )
                            &&& note == (if prev is Some {
                                ClientNote::DuplicateResponse
                            } else {
                                ClientNote::ResponseRecorded
                            })
                        },
                        Option::None => {
                            &&& final(self).pending@ == old(self).pending@
                            &&& note == ClientNote::UnknownRequestId
                        },
                    }
                },
                RunnerMsg::Event { .. } => final(self).pending@ == old(self).pending@ && note
                    == ClientNote::EventIgnored,
                RunnerMsg::Error { .. } => final(self).pending@ == old(self).pending@ && note
                    == ClientNote::ErrorLogged,
            },
    {
        match msg {
            RunnerMsg::Response { request_id, response } => {
                match self.find_pending(request_id) {
                    Option::Some(i) => {
                        let was_filled = self.pending[i].1.is_some();
                        let ghost resp_v = response;
                        self.pending.set(i, (request_id, Option::Some(response)));
                        proof {
                            let p = old(self).pending@;
                            let q = self.pending@;
                            assert(forall|x: int|
                                0 <= x < q.len() ==> (#[trigger] q[x]).0 == p[x].0);
                        }
                        if was_filled {
                            ClientNote::DuplicateResponse
                        } else {
                            ClientNote::ResponseRecorded
                        }
                    },
                    Option::None => ClientNote::UnknownRequestId,
                }
            },
            RunnerMsg::Event { runner_event_id: _ } => ClientNote::EventIgnored,
            RunnerMsg::Error { message: _ } => ClientNote::ErrorLogged,
        }
    }

    /// Take the response for an outstanding request out of its slot,
    /// if it has arrived; the slot is removed with it, so a response
    /// is handed out at most once.
    pub fn take_response(&mut self, request_id: u64) -> (r: Option<RunnerResp>)
        requires
            old(self).wf(),
            spec_pending_lookup(old(self).pending@, request_id) is Some,
        ensures
            final(self).wf(),
            final(self).next_request_id == old(self).next_request_id,
            final(self).puppet_event_cnt == old(self).puppet_event_cnt,
            match spec_pending_lookup(old(self).pending@, request_id)->0 {
                Option::Some(resp) => {
                    &&& r == Option::Some(resp)
                    &&& final(self).pending@ == old(self).pending@.remove(
                        pending_index(old(self).pending@, request_id),
                    )
                },
                Option::None => {
                    &&& r is None
                    &&& final(self).pending@ == old(self).pending@
                },
            },
    {
        let n = self.pending.len();
        let mut i: usize = 0;
        while i < n
            invariant
                n == self.pending@.len(),
                i <= n,
                self.pending@ == old(self).pending@,
                self.next_request_id == old(self).next_request_id,
                self.puppet_event_cnt == old(self).puppet_event_cnt,
                old(self).wf(),
                forall|k: int| 0 <= k < i ==> self.pending@[k].0 != request_id,
            decreases n - i,
        {
            if self.pending[i].0 == request_id {
                proof {
                    lemma_pending_lookup_at(old(self).pending@, request_id, i as int);
                }
                if self.pending[i].1.is_some() {
                    let entry = self.pending.remove(i);
                    proof {
                        let p = old(self).pending@;
                        let q = self.pending@;
                        assert(q =~= p.subrange(0, i as int) + p.subrange(
                            i + 1,
                            p.len() as int,
                        ));
                        assert(q =~= p.remove(pending_index(p, request_id)));
                        assert forall|a: int, b: int|
                            0 <= a < b < q.len() implies q[a].0 != q[b].0 by {
                            let a0: int = if a < i as int { a } else { a + 1 };
                            let b0: int = if b < i as int { b } else { b + 1 };
                            assert(q[a] == p[a0] && q[b] == p[b0]);
                        }
                        assert forall|k2: int|
                            0 <= k2 < q.len() implies (#[trigger] q[k2]).0
                            < self.next_request_id by {
                            let k0: int = if k2 < i as int { k2 } else { k2 + 1 };
                            assert(q[k2] == p[k0]);
                        }
                    }
                    return entry.1;
                } else {
                    return Option::None;
                }
            }
            i = i + 1;
        }
        proof {
            assert(false);
        }
        Option::None
    }

    /// Read an SSH-keys response; any other kind is an invalid
    /// answer to an SSH-keys request.
    pub fn get_ssh_keys(resp: RunnerResp) -> (r: Option<Vec<String>>)
        ensures
            match resp {
                RunnerResp::SSHKeysResp { ssh_keys } => r == Option::Some(ssh_keys),
                _ => r is None,
            },
    {
        match resp {
            RunnerResp::SSHKeysResp { ssh_keys } => Option::Some(ssh_keys),
            _ => Option::None,
        }
    }

    /// Read a network-config response; any other kind is an invalid
    /// answer to a network-config request.
    pub fn get_network_config(resp: RunnerResp) -> (r: Option<NetworkConfig>)
        ensures
            match resp {
                RunnerResp::NetworkConfig(nc) => r == Option::Some(nc),
                _ => r is None,
            },
    {
        match resp {
            RunnerResp::NetworkConfig(nc) => Option::Some(nc),
            _ => Option::None,
        }
    }
}

} // verus!
