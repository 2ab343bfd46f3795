//! Assembly of the container spawn command line.
//!
//! The container is launched through the host's service manager with
//! a deterministic argument list: a scope that denies all devices by
//! default, one device-allow rule per configured device with access
//! bits, the spawner flags pinning the root directory and private
//! namespaces, the virtual ethernet pairs, the configured bind mounts
//! followed by the mounts synthesized from device entries, and the
//! init command or the spawner's auto-boot mode.

use vstd::prelude::*;

use crate::config::{
    DeviceConfigAddMount, NspawnRunnerEnvironmentConfig, NspawnRunnerEnvironmentDeviceConfig,
    NspawnRunnerEnvironmentMountConfig, NspawnRunnerEnvironmentVethConfig,
};
use crate::zfs::strs;

verus! {

/// The views of a vector of optional strings.
pub open spec fn opt_strs(v: Seq<Option<String>>) -> Seq<Option<Seq<char>>> {
    v.map_values(
        |o: Option<String>|
            match o {
                Option::Some(s) => Option::Some(s@),
                Option::None => Option::<Seq<char>>::None,
            },
    )
}

/// The views of a vector of (node, readonly) pairs.
pub open spec fn node_pairs(v: Seq<(String, bool)>) -> Seq<(Seq<char>, bool)> {
    v.map_values(|p: (String, bool)| (p.0@, p.1))
}

/// A bind mount argument: `--bind-ro=src:dst` or `--bind=src:dst`.
pub open spec fn bind_arg_chars(src: Seq<char>, dst: Seq<char>, readonly: bool) -> Seq<char> {
    (if readonly {
        "--bind-ro="@
    } else {
        "--bind="@
    }) + src + ":"@ + dst
}

/// A virtual ethernet argument: `--network-veth-extra=host:container`.
pub open spec fn veth_arg_chars(host: Seq<char>, container: Seq<char>) -> Seq<char> {
    "--network-veth-extra="@ + host + ":"@ + container
}

/// The access letters of a device rule: `r`, `w` and `m` for read,
/// write and create.
pub open spec fn device_perm_chars(read: bool, write: bool, create: bool) -> Seq<char> {
    (if read {
        "r"@
    } else {
        Seq::<char>::empty()
    }) + (if write {
        "w"@
    } else {
        Seq::<char>::empty()
    }) + (if create {
        "m"@
    } else {
        Seq::<char>::empty()
    })
}

/// A device-allow rule: `--property=DeviceAllow=<node> <letters>`.
pub open spec fn device_allow_chars(
    node: Seq<char>,
    read: bool,
    write: bool,
    create: bool,
) -> Seq<char> {
    "--property=DeviceAllow="@ + node + " "@ + device_perm_chars(read, write, create)
}

/// Whether a device entry grants any access at all.  Entries without
/// any access bit are never emitted to the container policy.
pub open spec fn device_wants_perms(d: NspawnRunnerEnvironmentDeviceConfig) -> bool {
    d.read || d.write || d.create
}

/// The node a device rule names: the resolved symlink target when one
/// was requested and obtained, the literal configured path otherwise.
pub open spec fn effective_node_chars(
    d: NspawnRunnerEnvironmentDeviceConfig,
    res: Option<Seq<char>>,
) -> Seq<char> {
    if d.resolve_symlink && res is Some {
        res->0
    } else {
        d.device_node@
    }
}

/// The warning recorded when symlink resolution of a device node was
/// requested but failed; the literal path is used in that case.
pub open spec fn resolve_warning_chars(node: Seq<char>) -> Seq<char> {
    "Failed to get canonical path to device node "@ + node
}

/// The device-allow arguments contributed by one device entry.
pub open spec fn device_allow_args(
    d: NspawnRunnerEnvironmentDeviceConfig,
    res: Option<Seq<char>>,
) -> Seq<Seq<char>> {
    if device_wants_perms(d) {
        seq![device_allow_chars(effective_node_chars(d, res), d.read, d.write, d.create)]
    } else {
        Seq::<Seq<char>>::empty()
    }
}

/// The warnings contributed by one device entry.
pub open spec fn device_warnings(
    d: NspawnRunnerEnvironmentDeviceConfig,
    res: Option<Seq<char>>,
) -> Seq<Seq<char>> {
    if device_wants_perms(d) && d.resolve_symlink && res is None {
        seq![resolve_warning_chars(d.device_node@)]
    } else {
        Seq::<Seq<char>>::empty()
    }
}

/// The synthesized mounts contributed by one device entry: the node
/// bound onto itself, read-only exactly for `ReadOnly`.
pub open spec fn device_mount_entries(
    d: NspawnRunnerEnvironmentDeviceConfig,
    res: Option<Seq<char>>,
) -> Seq<(Seq<char>, bool)> {
    if device_wants_perms(d) && d.add_mount != DeviceConfigAddMount::No {
        seq![(effective_node_chars(d, res), d.add_mount == DeviceConfigAddMount::ReadOnly)]
    } else {
        Seq::<(Seq<char>, bool)>::empty()
    }
}

/// All device-allow arguments, in device order.
pub open spec fn devices_allow_args(
    devs: Seq<NspawnRunnerEnvironmentDeviceConfig>,
    res: Seq<Option<Seq<char>>>,
) -> Seq<Seq<char>>
    decreases devs.len(),
{
    if devs.len() == 0 {
        Seq::<Seq<char>>::empty()
    } else {
        devices_allow_args(devs.drop_last(), res) + device_allow_args(
            devs.last(),
            res[devs.len() - 1],
        )
    }
}

/// All symlink-resolution warnings, in device order.
pub open spec fn devices_warnings(
    devs: Seq<NspawnRunnerEnvironmentDeviceConfig>,
    res: Seq<Option<Seq<char>>>,
) -> Seq<Seq<char>>
    decreases devs.len(),
{
    if devs.len() == 0 {
        Seq::<Seq<char>>::empty()
    } else {
        devices_warnings(devs.drop_last(), res) + device_warnings(
            devs.last(),
            res[devs.len() - 1],
        )
    }
}

/// All synthesized device mounts, in device order.
pub open spec fn devices_mounts(
    devs: Seq<NspawnRunnerEnvironmentDeviceConfig>,
    res: Seq<Option<Seq<char>>>,
) -> Seq<(Seq<char>, bool)>
    decreases devs.len(),
{
    if devs.len() == 0 {
        Seq::<(Seq<char>, bool)>::empty()
    } else {
        devices_mounts(devs.drop_last(), res) + device_mount_entries(
            devs.last(),
            res[devs.len() - 1],
        )
    }
}

/// The bind arguments of the configured mounts, in order.
pub open spec fn mounts_args(mounts: Seq<NspawnRunnerEnvironmentMountConfig>) -> Seq<Seq<char>>
    decreases mounts.len(),
{
    if mounts.len() == 0 {
        Seq::<Seq<char>>::empty()
    } else {
        mounts_args(mounts.drop_last()) + seq![
            bind_arg_chars(mounts.last().src@, mounts.last().dst@, mounts.last().readonly),
        ]
    }
}

/// The bind arguments of the synthesized device mounts, in order.
pub open spec fn device_mounts_args(entries: Seq<(Seq<char>, bool)>) -> Seq<Seq<char>>
    decreases entries.len(),
{
    if entries.len() == 0 {
        Seq::<Seq<char>>::empty()
    } else {
        device_mounts_args(entries.drop_last()) + seq![
            bind_arg_chars(entries.last().0, entries.last().0, entries.last().1),
        ]
    }
}

/// The virtual ethernet arguments, in order.
pub open spec fn veths_args(veths: Seq<NspawnRunnerEnvironmentVethConfig>) -> Seq<Seq<char>>
    decreases veths.len(),
{
    if veths.len() == 0 {
        Seq::<Seq<char>>::empty()
    } else {
        veths_args(veths.drop_last()) + seq![
            veth_arg_chars(veths.last().ifname_host@, veths.last().ifname_container@),
        ]
    }
}

/// The trailing arguments choosing the container's init: an explicit
/// init command together with the graceful kill signal, or the
/// spawner's auto-boot mode.
pub open spec fn init_args(init: Option<String>) -> Seq<Seq<char>> {
    match init {
        Option::Some(cmd) => seq!["--kill-signal=SIGRTMIN+3"@, cmd@],
        Option::None => seq!["--boot"@],
    }
}

/// The flags that pin the unit scope and deny all devices by default.
pub open spec fn base_args() -> Seq<Seq<char>> {
    seq!["--scope"@, "--property=DevicePolicy=closed"@]
}

/// The spawner flags: root directory, keep-unit, picked private user
/// namespace, private network.
pub open spec fn spawner_args(mountpoint: Seq<char>) -> Seq<Seq<char>> {
    seq![
        "--"@,
        "systemd-nspawn"@,
        "-D"@,
        mountpoint,
        "--keep-unit"@,
        "--private-users=pick"@,
        "--private-network"@,
    ]
}

/// The complete spawn argument list for an environment.
pub open spec fn spec_run_args(
    env: NspawnRunnerEnvironmentConfig,
    res: Seq<Option<Seq<char>>>,
    mountpoint: Seq<char>,
) -> Seq<Seq<char>> {
    base_args() + devices_allow_args(env.device@, res) + spawner_args(mountpoint) + veths_args(
        env.veth@,
    ) + mounts_args(env.mount@) + device_mounts_args(devices_mounts(env.device@, res))
        + init_args(env.init)
}

/// Which device nodes the application is asked to resolve before the
/// arguments are assembled: exactly those of entries with some access
/// bit and symlink resolution enabled.
pub open spec fn resolve_requests(
    devs: Seq<NspawnRunnerEnvironmentDeviceConfig>,
) -> Seq<Option<Seq<char>>>
    decreases devs.len(),
{
    if devs.len() == 0 {
        Seq::<Option<Seq<char>>>::empty()
    } else {
        resolve_requests(devs.drop_last()) + seq![
            if device_wants_perms(devs.last()) && devs.last().resolve_symlink {
                Option::Some(devs.last().device_node@)
            } else {
                Option::<Seq<char>>::None
            },
        ]
    }
}

/// A bind mount argument.
pub fn bind_arg(src: &str, dst: &str, readonly: bool) -> (r: String)
    ensures
        r@ == bind_arg_chars(src@, dst@, readonly),
{
    proof {
        reveal_strlit("--bind-ro=");
        reveal_strlit("--bind=");
        reveal_strlit(":");
    }
    let mut r = if readonly {
        String::from_str("--bind-ro=")
    } else {
        String::from_str("--bind=")
    };
    r.append(src);
    r.append(":");
    r.append(dst);
    r
}

/// The node named by a device rule, after optional resolution.
fn effective_node(d: &NspawnRunnerEnvironmentDeviceConfig, res: &Option<String>) -> (r: String)
    ensures
        r@ == effective_node_chars(
            *d,
            match res {
                Option::Some(s) => Option::Some(s@),
                Option::None => Option::None,
            },
        ),
{
    if d.resolve_symlink {
        if let Option::Some(s) = res {
            return s.clone();
        }
    }
    d.device_node.clone()
}

/// The nodes the application is asked to resolve, one slot per
/// configured device.
pub fn resolve_requests_for(env: &NspawnRunnerEnvironmentConfig) -> (r: Vec<Option<String>>)
    ensures
        opt_strs(r@) =~~= resolve_requests(env.device@),
{
    let mut r: Vec<Option<String>> = Vec::new();
    let mut i: usize = 0;
    while i < env.device.len()
        invariant
            i <= env.device@.len(),
            opt_strs(r@) =~~= resolve_requests(env.device@.take(i as int)),
        decreases env.device@.len() - i,
    {
        let d = &env.device[i];
        if (d.read || d.write || d.create) && d.resolve_symlink {
            r.push(Option::Some(d.device_node.clone()));
        } else {
            r.push(Option::None);
        }
        proof {
            assert(env.device@.take(i + 1).drop_last() =~= env.device@.take(i as int));
            assert(env.device@.take(i + 1).last() == env.device@[i as int]);
            assert(opt_strs(r@) =~~= resolve_requests(env.device@.take(i + 1)));
        }
        i = i + 1;
    }
    proof {
        assert(env.device@.take(env.device@.len() as int) =~= env.device@);
    }
    r
}

/// Assemble the complete spawn argument list, together with the
/// warnings recorded for failed symlink resolutions.
///
/// `resolved` holds one slot per configured device: the canonical
/// node path where resolution was attempted and succeeded, `None`
/// otherwise.
pub fn build_run_args(
    env: &NspawnRunnerEnvironmentConfig,
    resolved: &Vec<Option<String>>,
    mountpoint: &str,
) -> (r: (Vec<String>, Vec<String>))
    requires
        resolved@.len() == env.device@.len(),
    ensures
        strs(r.0@) == spec_run_args(*env, opt_strs(resolved@), mountpoint@),
        strs(r.1@) == devices_warnings(env.device@, opt_strs(resolved@)),
{
    proof {
        reveal_strlit("--scope");
        reveal_strlit("--property=DevicePolicy=closed");
        reveal_strlit("--property=DeviceAllow=");
        reveal_strlit(" ");
        reveal_strlit("r");
        reveal_strlit("w");
        reveal_strlit("m");
        reveal_strlit("Failed to get canonical path to device node ");
        reveal_strlit("--");
        reveal_strlit("systemd-nspawn");
        reveal_strlit("-D");
        reveal_strlit("--keep-unit");
        reveal_strlit("--private-users=pick");
        reveal_strlit("--private-network");
        reveal_strlit("--network-veth-extra=");
        reveal_strlit(":");
        reveal_strlit("--kill-signal=SIGRTMIN+3");
        reveal_strlit("--boot");
    }
    let ghost res_view = opt_strs(resolved@);
    let mut args: Vec<String> = Vec::new();
    let mut warnings: Vec<String> = Vec::new();
    args.push(String::from_str("--scope"));
    args.push(String::from_str("--property=DevicePolicy=closed"));
    proof {
        assert(strs(args@) =~~= base_args());
    }

    // Device-allow rules, warnings and synthesized mounts.
    let mut device_mounts: Vec<(String, bool)> = Vec::new();
    let mut i: usize = 0;
    while i < env.device.len()
        invariant
            i <= env.device@.len(),
            resolved@.len() == env.device@.len(),
            res_view == opt_strs(resolved@),
            res_view.len() == env.device@.len(),
            strs(args@) =~~= base_args() + devices_allow_args(env.device@.take(i as int), res_view),
            strs(warnings@) =~~= devices_warnings(env.device@.take(i as int), res_view),
            node_pairs(device_mounts@) =~~= devices_mounts(env.device@.take(i as int), res_view),
        decreases env.device@.len() - i,
    {
        let d = &env.device[i];
        if d.read || d.write || d.create {
            let node = effective_node(d, &resolved[i]);
            if d.resolve_symlink && resolved[i].is_none() {
                let mut warning = String::from_str(
                    "Failed to get canonical path to device node ",
                );
                warning.append(d.device_node.as_str());
                warnings.push(warning);
            }
            match d.add_mount {
                DeviceConfigAddMount::No => {},
                DeviceConfigAddMount::ReadOnly => {
                    device_mounts.push((node.clone(), true));
                },
                DeviceConfigAddMount::ReadWrite => {
                    device_mounts.push((node.clone(), false));
                },
            }
            let mut allow = String::from_str("--property=DeviceAllow=");
            allow.append(node.as_str());
            allow.append(" ");
            if d.read {
                allow.append("r");
            }
            if d.write {
                allow.append("w");
            }
            if d.create {
                allow.append("m");
            }
            proof {
                assert(allow@ =~= device_allow_chars(
                    effective_node_chars(env.device@[i as int], res_view[i as int]),
                    d.read,
                    d.write,
                    d.create,
                ));
            }
            args.push(allow);
        }
        proof {
            assert(env.device@.take(i + 1).drop_last() =~= env.device@.take(i as int));
            assert(env.device@.take(i + 1).last() == env.device@[i as int]);
            assert(res_view[i as int] == opt_strs(resolved@)[i as int]);
            assert(devices_allow_args(env.device@.take(i + 1), res_view)
                == devices_allow_args(env.device@.take(i as int), res_view)
                + device_allow_args(env.device@[i as int], res_view[i as int]));
            assert(strs(args@) =~~= (base_args() + devices_allow_args(
                env.device@.take(i as int),
                res_view,
            )) + device_allow_args(env.device@[i as int], res_view[i as int]));
            assert(base_args() + devices_allow_args(env.device@.take(i + 1), res_view) =~~= (
            base_args() + devices_allow_args(env.device@.take(i as int), res_view))
                + device_allow_args(env.device@[i as int], res_view[i as int]));
            assert(strs(args@) =~~= base_args() + devices_allow_args(
                env.device@.take(i + 1),
                res_view,
            ));
            assert(strs(warnings@) =~~= devices_warnings(env.device@.take(i + 1), res_view));
            assert(node_pairs(device_mounts@) =~~= devices_mounts(
                env.device@.take(i + 1),
                res_view,
            ));
        }
        i = i + 1;
    }
    proof {
        assert(env.device@.take(env.device@.len() as int) =~= env.device@);
    }

    // Spawner flags.
    args.push(String::from_str("--"));
    args.push(String::from_str("systemd-nspawn"));
    args.push(String::from_str("-D"));
    args.push(mountpoint.to_owned());
    args.push(String::from_str("--keep-unit"));
    args.push(String::from_str("--private-users=pick"));
    args.push(String::from_str("--private-network"));
    proof {
        assert(strs(args@) =~~= base_args() + devices_allow_args(env.device@, res_view)
            + spawner_args(mountpoint@));
    }

    // Virtual ethernet pairs.
    let mut i: usize = 0;
    while i < env.veth.len()
        invariant
            i <= env.veth@.len(),
            res_view == opt_strs(resolved@),
            strs(args@) =~~= base_args() + devices_allow_args(env.device@, res_view)
                + spawner_args(mountpoint@) + veths_args(env.veth@.take(i as int)),
        decreases env.veth@.len() - i,
    {
        proof {
            reveal_strlit("--network-veth-extra=");
            reveal_strlit(":");
        }
        let v = &env.veth[i];
        let mut veth_arg = String::from_str("--network-veth-extra=");
        veth_arg.append(v.ifname_host.as_str());
        veth_arg.append(":");
        veth_arg.append(v.ifname_container.as_str());
        proof {
            assert(veth_arg@ =~= veth_arg_chars(
                env.veth@[i as int].ifname_host@,
                env.veth@[i as int].ifname_container@,
            ));
        }
        args.push(veth_arg);
        proof {
            assert(env.veth@.take(i + 1).drop_last() =~= env.veth@.take(i as int));
            assert(env.veth@.take(i + 1).last() == env.veth@[i as int]);
            let ghost prefix = base_args() + devices_allow_args(env.device@, res_view)
                + spawner_args(mountpoint@);
            let ghost elem = seq![
                veth_arg_chars(
                    env.veth@[i as int].ifname_host@,
                    env.veth@[i as int].ifname_container@,
                ),
            ];
            assert(veths_args(env.veth@.take(i + 1)) == veths_args(env.veth@.take(i as int))
                + elem);
            assert(strs(args@) =~~= (prefix + veths_args(env.veth@.take(i as int))) + elem);
            assert(prefix + veths_args(env.veth@.take(i + 1)) =~~= (prefix + veths_args(
                env.veth@.take(i as int),
            )) + elem);
            assert(strs(args@) =~~= base_args() + devices_allow_args(env.device@, res_view)
                + spawner_args(mountpoint@) + veths_args(env.veth@.take(i + 1)));
        }
        i = i + 1;
    }
    proof {
        assert(env.veth@.take(env.veth@.len() as int) =~= env.veth@);
    }

    // Configured bind mounts.
    let mut i: usize = 0;
    while i < env.mount.len()
        invariant
            i <= env.mount@.len(),
            res_view == opt_strs(resolved@),
            strs(args@) =~~= base_args() + devices_allow_args(env.device@, res_view)
                + spawner_args(mountpoint@) + veths_args(env.veth@) + mounts_args(
                env.mount@.take(i as int),
            ),
        decreases env.mount@.len() - i,
    {
        let m = &env.mount[i];
        args.push(bind_arg(m.src.as_str(), m.dst.as_str(), m.readonly));
        proof {
            assert(env.mount@.take(i + 1).drop_last() =~= env.mount@.take(i as int));
            assert(env.mount@.take(i + 1).last() == env.mount@[i as int]);
            let ghost prefix = base_args() + devices_allow_args(env.device@, res_view)
                + spawner_args(mountpoint@) + veths_args(env.veth@);
            let ghost elem = seq![
                bind_arg_chars(
                    env.mount@[i as int].src@,
                    env.mount@[i as int].dst@,
                    env.mount@[i as int].readonly,
                ),
            ];
            assert(mounts_args(env.mount@.take(i + 1)) == mounts_args(env.mount@.take(i as int))
                + elem);
            assert(strs(args@) =~~= (prefix + mounts_args(env.mount@.take(i as int))) + elem);
            assert(prefix + mounts_args(env.mount@.take(i + 1)) =~~= (prefix + mounts_args(
                env.mount@.take(i as int),
            )) + elem);
            assert(strs(args@) =~~= base_args() + devices_allow_args(env.device@, res_view)
                + spawner_args(mountpoint@) + veths_args(env.veth@) + mounts_args(
                env.mount@.take(i + 1),
            ));
        }
        i = i + 1;
    }
    proof {
        assert(env.mount@.take(env.mount@.len() as int) =~= env.mount@);
    }

    // Synthesized device mounts.
    let ghost dm_view = node_pairs(device_mounts@);
    let mut i: usize = 0;
    while i < device_mounts.len()
        invariant
            i <= device_mounts@.len(),
            res_view == opt_strs(resolved@),
            dm_view == node_pairs(device_mounts@),
            strs(args@) =~~= base_args() + devices_allow_args(env.device@, res_view)
                + spawner_args(mountpoint@) + veths_args(env.veth@) + mounts_args(env.mount@)
                + device_mounts_args(dm_view.take(i as int)),
        decreases device_mounts@.len() - i,
    {
        let node = device_mounts[i].0.clone();
        let readonly = device_mounts[i].1;
        args.push(bind_arg(node.as_str(), node.as_str(), readonly));
        proof {
            assert(dm_view.take(i + 1).drop_last() =~= dm_view.take(i as int));
            assert(dm_view.take(i + 1).last() == dm_view[i as int]);
            assert(node@ == dm_view[i as int].0);
            let ghost prefix = base_args() + devices_allow_args(env.device@, res_view)
                + spawner_args(mountpoint@) + veths_args(env.veth@) + mounts_args(env.mount@);
            let ghost elem = seq![
                bind_arg_chars(dm_view[i as int].0, dm_view[i as int].0, dm_view[i as int].1),
            ];
            assert(device_mounts_args(dm_view.take(i + 1)) == device_mounts_args(
                dm_view.take(i as int),
            ) + elem);
            assert(strs(args@) =~~= (prefix + device_mounts_args(dm_view.take(i as int)))
                + elem);
            assert(prefix + device_mounts_args(dm_view.take(i + 1)) =~~= (prefix
                + device_mounts_args(dm_view.take(i as int))) + elem);
            assert(strs(args@) =~~= base_args() + devices_allow_args(env.device@, res_view)
                + spawner_args(mountpoint@) + veths_args(env.veth@) + mounts_args(env.mount@)
                + device_mounts_args(dm_view.take(i + 1)));
        }
        i = i + 1;
    }
    proof {
        assert(dm_view.take(dm_view.len() as int) =~= dm_view);
    }

    // Init command or auto-boot.
    match &env.init {
        Option::Some(cmd) => {
            args.push(String::from_str("--kill-signal=SIGRTMIN+3"));
            args.push(cmd.clone());
        },
        Option::None => {
            args.push(String::from_str("--boot"));
        },
    }
    proof {
        assert(strs(args@) =~~= spec_run_args(*env, res_view, mountpoint@));
        assert(strs(warnings@) =~~= devices_warnings(env.device@, res_view));
    }
    (args, warnings)
}

/// The leading slashes of a path, removed.
pub open spec fn strip_leading_slashes(s: Seq<char>) -> Seq<char>
    decreases s.len(),
{
    if s.len() > 0 && s[0] == '/' {
        strip_leading_slashes(s.skip(1))
    } else {
        s
    }
}

/// The absolute path of the control socket: the configured in-container
/// path, made relative, rooted inside the mountpoint.
pub open spec fn socket_path_chars(mountpoint: Seq<char>, cfg_path: Seq<char>) -> Seq<char> {
    mountpoint + "/"@ + strip_leading_slashes(cfg_path)
}

/// The constructed socket path stays inside the mountpoint.
pub proof fn lemma_socket_path_contained(mountpoint: Seq<char>, cfg_path: Seq<char>)
    ensures
        socket_path_chars(mountpoint, cfg_path).len() >= mountpoint.len(),
        socket_path_chars(mountpoint, cfg_path).take(mountpoint.len() as int) == mountpoint,
{
    assert(socket_path_chars(mountpoint, cfg_path).take(mountpoint.len() as int)
        =~= mountpoint);
}

/// Root the configured control-socket path inside the mountpoint.
pub fn control_socket_path(mountpoint: &str, cfg_path: &str) -> (r: String)
    ensures
        r@ == socket_path_chars(mountpoint@, cfg_path@),
{
    proof {
        reveal_strlit("/");
    }
    let mut r = mountpoint.to_owned();
    r.append("/");
    let n = cfg_path.unicode_len();
    let mut i: usize = 0;
    proof {
        assert(cfg_path@.skip(0) =~= cfg_path@);
    }
    while i < n && cfg_path.get_char(i) == '/'
        invariant
            n == cfg_path@.len(),
            i <= n,
            strip_leading_slashes(cfg_path@) == strip_leading_slashes(cfg_path@.skip(i as int)),
            forall|k: int| 0 <= k < i ==> cfg_path@[k] == '/',
        decreases n - i,
    {
        proof {
            assert(cfg_path@.skip(i as int).skip(1) =~= cfg_path@.skip(i + 1));
        }
        i = i + 1;
    }
    let rest = cfg_path.substring_char(i, n);
    proof {
        if i < n {
            assert(cfg_path@.skip(i as int)[0] != '/');
        }
        assert(cfg_path@.skip(i as int) =~= cfg_path@.subrange(i as int, n as int));
        assert(strip_leading_slashes(cfg_path@.skip(i as int)) == cfg_path@.skip(i as int));
    }
    r.append(rest);
    proof {
        assert(r@ =~= socket_path_chars(mountpoint@, cfg_path@));
    }
    r
}

} // verus!

// ---------------------------------------------------------------
// Device rule laws.
// ---------------------------------------------------------------

verus! {

/// A device entry with no access bit at all is invisible: no
/// device-allow argument, no warning, no synthesized mount.
pub proof fn lemma_powerless_device_invisible(
    d: NspawnRunnerEnvironmentDeviceConfig,
    res: Option<Seq<char>>,
)
    requires
        !d.read,
        !d.write,
        !d.create,
    ensures
        device_allow_args(d, res) == Seq::<Seq<char>>::empty(),
        device_warnings(d, res) == Seq::<Seq<char>>::empty(),
        device_mount_entries(d, res) == Seq::<(Seq<char>, bool)>::empty(),
{
}

/// The synthesized mount mirrors the `add_mount` setting: a
/// read-write entry binds the node writable, a read-only entry binds
/// it read-only, and `No` synthesizes nothing.
pub proof fn lemma_add_mount_readonly(
    d: NspawnRunnerEnvironmentDeviceConfig,
    res: Option<Seq<char>>,
)
    requires
        device_wants_perms(d),
    ensures
        d.add_mount == DeviceConfigAddMount::ReadWrite ==> device_mount_entries(d, res)
            == seq![(effective_node_chars(d, res), false)],
        d.add_mount == DeviceConfigAddMount::ReadOnly ==> device_mount_entries(d, res)
            == seq![(effective_node_chars(d, res), true)],
        d.add_mount == DeviceConfigAddMount::No ==> device_mount_entries(d, res) == Seq::<
            (Seq<char>, bool),
        >::empty(),
{
}

/// When symlink resolution was requested but failed, the literal
/// configured path is used and exactly one warning is recorded.
pub proof fn lemma_failed_resolution_uses_literal_path(
    d: NspawnRunnerEnvironmentDeviceConfig,
    res: Option<Seq<char>>,
)
    requires
        device_wants_perms(d),
        d.resolve_symlink,
        res is None,
    ensures
        effective_node_chars(d, res) == d.device_node@,
        device_warnings(d, res) == seq![resolve_warning_chars(d.device_node@)],
{
}

} // verus!
