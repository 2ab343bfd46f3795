//! Configuration of the runner: per-environment container templates
//! and the runner's global settings.
//!
//! The surrounding application reads these values from a declarative
//! configuration file and hands them over as plain data.  Equality of
//! configuration values is expressed by the `*_equiv` spec functions,
//! which compare field by field through views; the `duplicate`
//! methods produce copies proved equivalent under them.

use vstd::prelude::*;

use crate::ids::Uuid;

verus! {

/// Storage settings for a job's root filesystem: the dataset is
/// created (or cloned) under `parent` and mounted under `mount_base`.
pub struct NspawnRunnerEnvironmentZfsRootConfig {
    pub clone_from: Option<String>,
    pub parent: String,
    pub mount_base: String,
    pub quota: Option<String>,
}

/// One bind mount handed to the container.
pub struct NspawnRunnerEnvironmentMountConfig {
    pub src: String,
    pub dst: String,
    pub readonly: bool,
}

/// Device nodes resolve symlinks before use unless configured
/// otherwise.
pub fn default_device_config_resolve_symlink() -> (b: bool)
    ensures
        b,
{
    true
}

/// Whether a device entry also synthesizes a bind mount for its node.
#[derive(Clone, Copy, Debug, PartialEq, Eq, Structural)]
pub enum DeviceConfigAddMount {
    No,
    ReadWrite,
    ReadOnly,
}

impl Default for DeviceConfigAddMount {
    fn default() -> (r: Self)
        ensures
            r == DeviceConfigAddMount::No,
    {
        DeviceConfigAddMount::No
    }
}

/// One device made visible to the container, with its access bits.
pub struct NspawnRunnerEnvironmentDeviceConfig {
    pub device_node: String,
    pub resolve_symlink: bool,
    pub add_mount: DeviceConfigAddMount,
    pub read: bool,
    pub write: bool,
    pub create: bool,
}

/// One virtual ethernet pair between host and container.
pub struct NspawnRunnerEnvironmentVethConfig {
    pub ifname_host: String,
    pub ifname_container: String,
}

/// An IPv4 address as its four octets.
#[derive(Clone, Copy, Debug, PartialEq, Eq, Structural)]
pub struct Ipv4Address {
    pub o0: u8,
    pub o1: u8,
    pub o2: u8,
    pub o3: u8,
}

/// An IPv6 address as its eight 16-bit segments.
#[derive(Clone, Copy, Debug, PartialEq, Eq, Structural)]
pub struct Ipv6Address {
    pub s0: u16,
    pub s1: u16,
    pub s2: u16,
    pub s3: u16,
    pub s4: u16,
    pub s5: u16,
    pub s6: u16,
    pub s7: u16,
}

/// IPv4 addressing inside the container.
pub struct NspawnRunnerEnvironmentIpv4NetworkConfig {
    pub address: Ipv4Address,
    pub prefix_length: u8,
    pub gateway: Option<Ipv4Address>,
    pub nameservers: Vec<Ipv4Address>,
}

/// IPv6 addressing inside the container.
pub struct NspawnRunnerEnvironmentIpv6NetworkConfig {
    pub address: Ipv6Address,
    pub prefix_length: u8,
    pub gateway: Option<Ipv6Address>,
    pub nameservers: Vec<Ipv6Address>,
}

/// Which address family the SSH rendezvous target prefers.
#[derive(Clone, Copy, Debug, PartialEq, Eq, Structural)]
pub enum SSHPreferredIPVersion {
    Unspecified,
    V4,
    V6,
}

impl Default for SSHPreferredIPVersion {
    fn default() -> (r: Self)
        ensures
            r == SSHPreferredIPVersion::Unspecified,
    {
        SSHPreferredIPVersion::Unspecified
    }
}

/// One named container template.
pub struct NspawnRunnerEnvironmentConfig {
    pub init: Option<String>,
    pub shutdown_timeout: u64,
    pub mount: Vec<NspawnRunnerEnvironmentMountConfig>,
    pub device: Vec<NspawnRunnerEnvironmentDeviceConfig>,
    pub zfsroot: Option<NspawnRunnerEnvironmentZfsRootConfig>,
    pub control_socket_path: String,
    pub veth: Vec<NspawnRunnerEnvironmentVethConfig>,
    pub ssh_port: Option<u16>,
    pub ssh_preferred_ip_version: SSHPreferredIPVersion,
    pub ipv4_network: Option<NspawnRunnerEnvironmentIpv4NetworkConfig>,
    pub ipv6_network: Option<NspawnRunnerEnvironmentIpv6NetworkConfig>,
}

/// The runner's global settings, with the environment table keyed by
/// environment id.
pub struct NspawnRunnerConfig {
    pub coordinator_base_url: String,
    pub board_id: Uuid,
    pub keepalive_timeout: u64,
    pub reconnect_wait: u64,
    pub environments: Vec<(Uuid, NspawnRunnerEnvironmentConfig)>,
}

pub open spec fn opt_string_equiv(a: Option<String>, b: Option<String>) -> bool {
    match (a, b) {
        (Option::Some(x), Option::Some(y)) => x@ == y@,
        (Option::None, Option::None) => true,
        _ => false,
    }
}

pub open spec fn mount_equiv(
    a: NspawnRunnerEnvironmentMountConfig,
    b: NspawnRunnerEnvironmentMountConfig,
) -> bool {
    a.src@ == b.src@ && a.dst@ == b.dst@ && a.readonly == b.readonly
}

pub open spec fn device_equiv(
    a: NspawnRunnerEnvironmentDeviceConfig,
    b: NspawnRunnerEnvironmentDeviceConfig,
) -> bool {
    &&& a.device_node@ == b.device_node@
    &&& a.resolve_symlink == b.resolve_symlink
    &&& a.add_mount == b.add_mount
    &&& a.read == b.read
    &&& a.write == b.write
    &&& a.create == b.create
}

pub open spec fn veth_equiv(
    a: NspawnRunnerEnvironmentVethConfig,
    b: NspawnRunnerEnvironmentVethConfig,
) -> bool {
    a.ifname_host@ == b.ifname_host@ && a.ifname_container@ == b.ifname_container@
}

pub open spec fn zfs_equiv(
    a: NspawnRunnerEnvironmentZfsRootConfig,
    b: NspawnRunnerEnvironmentZfsRootConfig,
) -> bool {
    &&& opt_string_equiv(a.clone_from, b.clone_from)
    &&& a.parent@ == b.parent@
    &&& a.mount_base@ == b.mount_base@
    &&& opt_string_equiv(a.quota, b.quota)
}

pub open spec fn opt_zfs_equiv(
    a: Option<NspawnRunnerEnvironmentZfsRootConfig>,
    b: Option<NspawnRunnerEnvironmentZfsRootConfig>,
) -> bool {
    match (a, b) {
        (Option::Some(x), Option::Some(y)) => zfs_equiv(x, y),
        (Option::None, Option::None) => true,
        _ => false,
    }
}

pub open spec fn v4net_equiv(
    a: NspawnRunnerEnvironmentIpv4NetworkConfig,
    b: NspawnRunnerEnvironmentIpv4NetworkConfig,
) -> bool {
    &&& a.address == b.address
    &&& a.prefix_length == b.prefix_length
    &&& a.gateway == b.gateway
    &&& a.nameservers@ == b.nameservers@
}

pub open spec fn opt_v4net_equiv(
    a: Option<NspawnRunnerEnvironmentIpv4NetworkConfig>,
    b: Option<NspawnRunnerEnvironmentIpv4NetworkConfig>,
) -> bool {
    match (a, b) {
        (Option::Some(x), Option::Some(y)) => v4net_equiv(x, y),
        (Option::None, Option::None) => true,
        _ => false,
    }
}

pub open spec fn v6net_equiv(
    a: NspawnRunnerEnvironmentIpv6NetworkConfig,
    b: NspawnRunnerEnvironmentIpv6NetworkConfig,
) -> bool {
    &&& a.address == b.address
    &&& a.prefix_length == b.prefix_length
    &&& a.gateway == b.gateway
    &&& a.nameservers@ == b.nameservers@
}

pub open spec fn opt_v6net_equiv(
    a: Option<NspawnRunnerEnvironmentIpv6NetworkConfig>,
    b: Option<NspawnRunnerEnvironmentIpv6NetworkConfig>,
) -> bool {
    match (a, b) {
        (Option::Some(x), Option::Some(y)) => v6net_equiv(x, y),
        (Option::None, Option::None) => true,
        _ => false,
    }
}

/// Field-by-field equivalence of two environment templates.
pub open spec fn env_equiv(
    a: NspawnRunnerEnvironmentConfig,
    b: NspawnRunnerEnvironmentConfig,
) -> bool {
    &&& opt_string_equiv(a.init, b.init)
    &&& a.shutdown_timeout == b.shutdown_timeout
    &&& a.mount@.len() == b.mount@.len()
    &&& forall|i: int|
        0 <= i < a.mount@.len() ==> #[trigger] mount_equiv(a.mount@[i], b.mount@[i])
    &&& a.device@.len() == b.device@.len()
    &&& forall|i: int|
        0 <= i < a.device@.len() ==> #[trigger] device_equiv(a.device@[i], b.device@[i])
    &&& opt_zfs_equiv(a.zfsroot, b.zfsroot)
    &&& a.control_socket_path@ == b.control_socket_path@
    &&& a.veth@.len() == b.veth@.len()
    &&& forall|i: int|
        0 <= i < a.veth@.len() ==> #[trigger] veth_equiv(a.veth@[i], b.veth@[i])
    &&& a.ssh_port == b.ssh_port
    &&& a.ssh_preferred_ip_version == b.ssh_preferred_ip_version
    &&& opt_v4net_equiv(a.ipv4_network, b.ipv4_network)
    &&& opt_v6net_equiv(a.ipv6_network, b.ipv6_network)
}

fn duplicate_opt_string(a: &Option<String>) -> (r: Option<String>)
    ensures
        opt_string_equiv(r, *a),
{
    match a {
        Option::Some(s) => Option::Some(s.clone()),
        Option::None => Option::None,
    }
}

fn duplicate_v4_list(v: &Vec<Ipv4Address>) -> (r: Vec<Ipv4Address>)
    ensures
        r@ =~= v@,
{
    let mut r: Vec<Ipv4Address> = Vec::new();
    let mut i: usize = 0;
    while i < v.len()
        invariant
            i <= v.len(),
            r@ =~= v@.take(i as int),
        decreases v.len() - i,
    {
        r.push(v[i]);
        i = i + 1;
    }
    proof {
        assert(v@.take(v@.len() as int) =~= v@);
    }
    r
}

fn duplicate_v6_list(v: &Vec<Ipv6Address>) -> (r: Vec<Ipv6Address>)
    ensures
        r@ =~= v@,
{
    let mut r: Vec<Ipv6Address> = Vec::new();
    let mut i: usize = 0;
    while i < v.len()
        invariant
            i <= v.len(),
            r@ =~= v@.take(i as int),
        decreases v.len() - i,
    {
        r.push(v[i]);
        i = i + 1;
    }
    proof {
        assert(v@.take(v@.len() as int) =~= v@);
    }
    r
}

impl NspawnRunnerEnvironmentMountConfig {
    pub fn duplicate(&self) -> (r: Self)
        ensures
            mount_equiv(r, *self),
    {
        NspawnRunnerEnvironmentMountConfig {
            src: self.src.clone(),
            dst: self.dst.clone(),
            readonly: self.readonly,
        }
    }
}

impl NspawnRunnerEnvironmentDeviceConfig {
    pub fn duplicate(&self) -> (r: Self)
        ensures
            device_equiv(r, *self),
    {
        NspawnRunnerEnvironmentDeviceConfig {
            device_node: self.device_node.clone(),
            resolve_symlink: self.resolve_symlink,
            add_mount: self.add_mount,
            read: self.read,
            write: self.write,
            create: self.create,
        }
    }
}

impl NspawnRunnerEnvironmentVethConfig {
    pub fn duplicate(&self) -> (r: Self)
        ensures
            veth_equiv(r, *self),
    {
        NspawnRunnerEnvironmentVethConfig {
            ifname_host: self.ifname_host.clone(),
            ifname_container: self.ifname_container.clone(),
        }
    }
}

impl NspawnRunnerEnvironmentZfsRootConfig {
    pub fn duplicate(&self) -> (r: Self)
        ensures
            zfs_equiv(r, *self),
    {
        NspawnRunnerEnvironmentZfsRootConfig {
            clone_from: duplicate_opt_string(&self.clone_from),
            parent: self.parent.clone(),
            mount_base: self.mount_base.clone(),
            quota: duplicate_opt_string(&self.quota),
        }
    }
}

impl NspawnRunnerEnvironmentIpv4NetworkConfig {
    pub fn duplicate(&self) -> (r: Self)
        ensures
            v4net_equiv(r, *self),
    {
        NspawnRunnerEnvironmentIpv4NetworkConfig {
            address: self.address,
            prefix_length: self.prefix_length,
            gateway: self.gateway,
            nameservers: duplicate_v4_list(&self.nameservers),
        }
    }
}

impl NspawnRunnerEnvironmentIpv6NetworkConfig {
    pub fn duplicate(&self) -> (r: Self)
        ensures
            v6net_equiv(r, *self),
    {
        NspawnRunnerEnvironmentIpv6NetworkConfig {
            address: self.address,
            prefix_length: self.prefix_length,
            gateway: self.gateway,
            nameservers: duplicate_v6_list(&self.nameservers),
        }
    }
}

impl NspawnRunnerEnvironmentConfig {
    pub fn duplicate(&self) -> (r: Self)
        ensures
            env_equiv(r, *self),
    {
        let mut mount: Vec<NspawnRunnerEnvironmentMountConfig> = Vec::new();
        let mut i: usize = 0;
        while i < self.mount.len()
            invariant
                i <= self.mount.len(),
                mount@.len() == i,
                forall|k: int|
                    0 <= k < i ==> #[trigger] mount_equiv(mount@[k], self.mount@[k]),
            decreases self.mount.len() - i,
        {
            mount.push(self.mount[i].duplicate());
            i = i + 1;
        }
        let mut device: Vec<NspawnRunnerEnvironmentDeviceConfig> = Vec::new();
        let mut i: usize = 0;
        while i < self.device.len()
            invariant
                i <= self.device.len(),
                device@.len() == i,
                forall|k: int|
                    0 <= k < i ==> #[trigger] device_equiv(device@[k], self.device@[k]),
            decreases self.device.len() - i,
        {
            device.push(self.device[i].duplicate());
            i = i + 1;
        }
        let mut veth: Vec<NspawnRunnerEnvironmentVethConfig> = Vec::new();
        let mut i: usize = 0;
        while i < self.veth.len()
            invariant
                i <= self.veth.len(),
                veth@.len() == i,
                forall|k: int|
                    0 <= k < i ==> #[trigger] veth_equiv(veth@[k], self.veth@[k]),
            decreases self.veth.len() - i,
        {
            veth.push(self.veth[i].duplicate());
            i = i + 1;
        }
        NspawnRunnerEnvironmentConfig {
            init: duplicate_opt_string(&self.init),
            shutdown_timeout: self.shutdown_timeout,
            mount,
            device,
            zfsroot: match &self.zfsroot {
                Option::Some(z) => Option::Some(z.duplicate()),
                Option::None => Option::None,
            },
            control_socket_path: self.control_socket_path.clone(),
            veth,
            ssh_port: self.ssh_port,
            ssh_preferred_ip_version: self.ssh_preferred_ip_version,
            ipv4_network: match &self.ipv4_network {
                Option::Some(n) => Option::Some(n.duplicate()),
                Option::None => Option::None,
            },
            ipv6_network: match &self.ipv6_network {
                Option::Some(n) => Option::Some(n.duplicate()),
                Option::None => Option::None,
            },
        }
    }
}

/// The environment table maps each id to at most one template.
pub open spec fn env_keys_unique(
    envs: Seq<(Uuid, NspawnRunnerEnvironmentConfig)>,
) -> bool {
    forall|i: int, j: int| 0 <= i < j < envs.len() ==> envs[i].0 != envs[j].0
}

/// The template registered for an id, if any.
pub open spec fn spec_env_lookup(
    envs: Seq<(Uuid, NspawnRunnerEnvironmentConfig)>,
    id: Uuid,
) -> Option<NspawnRunnerEnvironmentConfig> {
    if exists|k: int| 0 <= k < envs.len() && envs[k].0 == id {
        let k = choose|k: int| 0 <= k < envs.len() && envs[k].0 == id;
        Option::Some(envs[k].1)
    } else {
        Option::None
    }
}

impl NspawnRunnerConfig {
    /// Well-formedness: environment ids are unique keys.
    pub open spec fn wf(&self) -> bool {
        env_keys_unique(self.environments@)
    }

    /// Look up the template for an environment id.
    pub fn environment(&self, id: &Uuid) -> (r: Option<
        &NspawnRunnerEnvironmentConfig,
    >)
        requires
            self.wf(),
        ensures
            match r {
                Option::Some(e) => spec_env_lookup(self.environments@, *id)
                    == Option::Some(*e),
                Option::None => spec_env_lookup(self.environments@, *id) is None,
            },
    {
        let n = self.environments.len();
        let mut i: usize = 0;
        while i < n
            invariant
                n == self.environments@.len(),
                i <= n,
                self.wf(),
                forall|k: int| 0 <= k < i ==> self.environments@[k].0 != *id,
            decreases n - i,
        {
            if self.environments[i].0 == *id {
                proof {
                    let k = choose|k: int|
                        0 <= k < self.environments@.len() && self.environments@[k].0 == *id;
                    assert(k == i);
                }
                return Option::Some(&self.environments[i].1);
            }
            i = i + 1;
        }
        Option::None
    }
}

} // verus!
