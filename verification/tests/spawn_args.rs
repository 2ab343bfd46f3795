use nspawn_runner::config::{
    DeviceConfigAddMount, NspawnRunnerEnvironmentConfig, NspawnRunnerEnvironmentDeviceConfig,
    NspawnRunnerEnvironmentMountConfig, NspawnRunnerEnvironmentVethConfig,
    NspawnRunnerEnvironmentZfsRootConfig, SSHPreferredIPVersion,
};
use nspawn_runner::ids::Uuid;
use nspawn_runner::nspawn::{build_run_args, control_socket_path, resolve_requests_for};
use nspawn_runner::zfs::{create_args_for, dataset_for, destroy_args_for, mount_args_for,
    mountpoint_for};

fn j() -> Uuid {
    Uuid { bits: 0x00112233445566778899aabbccddeeffu128 }
}

const J_TEXT: &str = "00112233-4455-6677-8899-aabbccddeeff";

fn device(
    node: &str,
    resolve: bool,
    add_mount: DeviceConfigAddMount,
    read: bool,
    write: bool,
    create: bool,
) -> NspawnRunnerEnvironmentDeviceConfig {
    NspawnRunnerEnvironmentDeviceConfig {
        device_node: node.to_string(),
        resolve_symlink: resolve,
        add_mount,
        read,
        write,
        create,
    }
}

fn base_env() -> NspawnRunnerEnvironmentConfig {
    NspawnRunnerEnvironmentConfig {
        init: None,
        shutdown_timeout: 10,
        mount: vec![],
        device: vec![],
        zfsroot: None,
        control_socket_path: "/run/ctrl.sock".to_string(),
        veth: vec![],
        ssh_port: None,
        ssh_preferred_ip_version: SSHPreferredIPVersion::Unspecified,
        ipv4_network: None,
        ipv6_network: None,
    }
}

#[test]
fn device_without_permissions_is_never_emitted() {
    let mut env = base_env();
    env.device = vec![device(
        "/dev/ttyUSB0",
        true,
        DeviceConfigAddMount::ReadWrite,
        false,
        false,
        false,
    )];
    let (args, warnings) = build_run_args(&env, &vec![None], "/var/lib/tm/x");
    assert!(warnings.is_empty());
    assert!(args.iter().all(|a| !a.starts_with("--property=DeviceAllow=")));
    assert!(args.iter().all(|a| !a.starts_with("--bind")));
}

#[test]
fn add_mount_controls_the_synthesized_bind() {
    let mut env = base_env();
    env.device = vec![
        device("/dev/a", false, DeviceConfigAddMount::ReadWrite, true, true, false),
        device("/dev/b", false, DeviceConfigAddMount::ReadOnly, true, false, false),
        device("/dev/c", false, DeviceConfigAddMount::No, true, false, true),
    ];
    let (args, warnings) = build_run_args(&env, &vec![None, None, None], "/root/x");
    assert!(warnings.is_empty());
    assert_eq!(
        args,
        vec![
            "--scope".to_string(),
            "--property=DevicePolicy=closed".to_string(),
            "--property=DeviceAllow=/dev/a rw".to_string(),
            "--property=DeviceAllow=/dev/b r".to_string(),
            "--property=DeviceAllow=/dev/c rm".to_string(),
            "--".to_string(),
            "systemd-nspawn".to_string(),
            "-D".to_string(),
            "/root/x".to_string(),
            "--keep-unit".to_string(),
            "--private-users=pick".to_string(),
            "--private-network".to_string(),
            "--bind=/dev/a:/dev/a".to_string(),
            "--bind-ro=/dev/b:/dev/b".to_string(),
            "--boot".to_string(),
        ]
    );
}

#[test]
fn failed_symlink_resolution_warns_and_uses_literal_path() {
    let mut env = base_env();
    env.device = vec![device(
        "/dev/disk/by-id/x",
        true,
        DeviceConfigAddMount::No,
        true,
        false,
        false,
    )];
    // The application asked to resolve the node but could not.
    let (args, warnings) = build_run_args(&env, &vec![None], "/root/x");
    assert_eq!(
        warnings,
        vec!["Failed to get canonical path to device node /dev/disk/by-id/x".to_string()]
    );
    assert!(args.contains(&"--property=DeviceAllow=/dev/disk/by-id/x r".to_string()));
}

#[test]
fn successful_symlink_resolution_uses_canonical_path() {
    let mut env = base_env();
    env.device = vec![device(
        "/dev/disk/by-id/x",
        true,
        DeviceConfigAddMount::ReadOnly,
        true,
        false,
        false,
    )];
    let (args, warnings) =
        build_run_args(&env, &vec![Some("/dev/sda".to_string())], "/root/x");
    assert!(warnings.is_empty());
    assert!(args.contains(&"--property=DeviceAllow=/dev/sda r".to_string()));
    assert!(args.contains(&"--bind-ro=/dev/sda:/dev/sda".to_string()));
}

#[test]
fn resolution_requests_cover_exactly_devices_that_need_it() {
    let mut env = base_env();
    env.device = vec![
        device("/dev/a", true, DeviceConfigAddMount::No, true, false, false),
        device("/dev/b", false, DeviceConfigAddMount::No, true, false, false),
        device("/dev/c", true, DeviceConfigAddMount::No, false, false, false),
    ];
    let nodes = resolve_requests_for(&env);
    assert_eq!(nodes, vec![Some("/dev/a".to_string()), None, None]);
}

#[test]
fn veth_mounts_and_init_are_rendered_in_order() {
    let mut env = base_env();
    env.init = Some("/sbin/init".to_string());
    env.mount = vec![
        NspawnRunnerEnvironmentMountConfig {
            src: "/srv/ro".to_string(),
            dst: "/ro".to_string(),
            readonly: true,
        },
        NspawnRunnerEnvironmentMountConfig {
            src: "/srv/rw".to_string(),
            dst: "/rw".to_string(),
            readonly: false,
        },
    ];
    env.veth = vec![NspawnRunnerEnvironmentVethConfig {
        ifname_host: "vb-job0".to_string(),
        ifname_container: "host0".to_string(),
    }];
    let (args, _) = build_run_args(&env, &vec![], "/root/x");
    assert_eq!(
        args,
        vec![
            "--scope".to_string(),
            "--property=DevicePolicy=closed".to_string(),
            "--".to_string(),
            "systemd-nspawn".to_string(),
            "-D".to_string(),
            "/root/x".to_string(),
            "--keep-unit".to_string(),
            "--private-users=pick".to_string(),
            "--private-network".to_string(),
            "--network-veth-extra=vb-job0:host0".to_string(),
            "--bind-ro=/srv/ro:/ro".to_string(),
            "--bind=/srv/rw:/rw".to_string(),
            "--kill-signal=SIGRTMIN+3".to_string(),
            "/sbin/init".to_string(),
        ]
    );
}

#[test]
fn zfs_create_clone_and_quota_variants() {
    let plain = NspawnRunnerEnvironmentZfsRootConfig {
        clone_from: None,
        parent: "tank/tm".to_string(),
        mount_base: "/var/lib/tm".to_string(),
        quota: None,
    };
    assert_eq!(
        create_args_for(&plain, &j()),
        vec![
            "create".to_string(),
            "-o".to_string(),
            "mountpoint=legacy".to_string(),
            format!("tank/tm/{}", J_TEXT),
        ]
    );
    let cloned = NspawnRunnerEnvironmentZfsRootConfig {
        clone_from: Some("tank/base@golden".to_string()),
        parent: "tank/tm".to_string(),
        mount_base: "/var/lib/tm".to_string(),
        quota: Some("10G".to_string()),
    };
    assert_eq!(
        create_args_for(&cloned, &j()),
        vec![
            "clone".to_string(),
            "-o".to_string(),
            "mountpoint=legacy".to_string(),
            "-o".to_string(),
            "quota=10G".to_string(),
            "tank/base@golden".to_string(),
            format!("tank/tm/{}", J_TEXT),
        ]
    );
    assert_eq!(dataset_for(&plain, &j()), format!("tank/tm/{}", J_TEXT));
    assert_eq!(mountpoint_for(&plain, &j()), format!("/var/lib/tm/{}", J_TEXT));
    assert_eq!(
        mount_args_for(&plain, &j()),
        vec![
            "-t".to_string(),
            "zfs".to_string(),
            format!("tank/tm/{}", J_TEXT),
            format!("/var/lib/tm/{}", J_TEXT),
        ]
    );
    assert_eq!(
        destroy_args_for(&format!("tank/tm/{}", J_TEXT)),
        vec!["destroy".to_string(), "-v".to_string(), format!("tank/tm/{}", J_TEXT)]
    );
}

#[test]
fn control_socket_path_is_rooted_in_the_mountpoint() {
    let mp = format!("/var/lib/tm/{}", J_TEXT);
    let p = control_socket_path(&mp, "/run/ctrl.sock");
    assert_eq!(p, format!("{}/run/ctrl.sock", mp));
    assert!(p.starts_with(mp.as_str()));
    // Several leading slashes are stripped alike.
    assert_eq!(control_socket_path("/root", "//x/y"), "/root/x/y".to_string());
    assert_eq!(control_socket_path("/root", "x/y"), "/root/x/y".to_string());
}

#[test]
fn canonical_text_of_an_id() {
    assert_eq!(j().canonical_text(), J_TEXT.to_string());
    assert_eq!(
        Uuid { bits: 0 }.canonical_text(),
        "00000000-0000-0000-0000-000000000000".to_string()
    );
    assert_eq!(
        Uuid { bits: u128::MAX }.canonical_text(),
        "ffffffff-ffff-ffff-ffff-ffffffffffff".to_string()
    );
}

#[test]
fn hostname_for_an_id() {
    assert_eq!(nspawn_runner::ids::hostname_for(&j()), "job-00112233-4".to_string());
}
