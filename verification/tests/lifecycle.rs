use nspawn_runner::config::{
    Ipv4Address, Ipv6Address, NspawnRunnerConfig, NspawnRunnerEnvironmentConfig,
    NspawnRunnerEnvironmentIpv4NetworkConfig, NspawnRunnerEnvironmentIpv6NetworkConfig,
    NspawnRunnerEnvironmentMountConfig, NspawnRunnerEnvironmentZfsRootConfig,
    SSHPreferredIPVersion,
};
use nspawn_runner::messages::RendezvousServerSpec;
use nspawn_runner::supervisor::{ssh_target, SocketAddress};
use nspawn_runner::ids::Uuid;
use nspawn_runner::messages::{
    JobSessionConnectionInfo, JobStartingStage, JobState, StartJobMessage, StopJobMessage,
};
use nspawn_runner::supervisor::{
    ChildStatusOutcome, NspawnRunner, SupervisorAction, SupervisorEvent,
};

fn j() -> Uuid { Uuid { bits: 0x00112233445566778899aabbccddeeffu128 } }
fn j2() -> Uuid { Uuid { bits: 0xffeeddccbbaa99887766554433221100u128 } }
fn board() -> Uuid { Uuid { bits: 0xb0a1d000000000000000000000000001u128 } }
fn env_id() -> Uuid { Uuid { bits: 0xaau128 } }
fn unknown_env_id() -> Uuid { Uuid { bits: 0xbbu128 } }

const J_TEXT: &str = "00112233-4455-6677-8899-aabbccddeeff";

fn test_environment(shutdown_timeout: u64) -> NspawnRunnerEnvironmentConfig {
    NspawnRunnerEnvironmentConfig {
        init: None,
        shutdown_timeout,
        mount: vec![NspawnRunnerEnvironmentMountConfig {
            src: "/srv/data".to_string(),
            dst: "/data".to_string(),
            readonly: true,
        }],
        device: vec![],
        zfsroot: Some(NspawnRunnerEnvironmentZfsRootConfig {
            clone_from: None,
            parent: "tank/tm".to_string(),
            mount_base: "/var/lib/tm".to_string(),
            quota: None,
        }),
        control_socket_path: "/run/tml/ctrl.sock".to_string(),
        veth: vec![],
        ssh_port: None,
        ssh_preferred_ip_version: SSHPreferredIPVersion::Unspecified,
        ipv4_network: None,
        ipv6_network: None,
    }
}

fn test_config(shutdown_timeout: u64) -> NspawnRunnerConfig {
    NspawnRunnerConfig {
        coordinator_base_url: "https://coordinator.example".to_string(),
        board_id: board(),
        keepalive_timeout: 30,
        reconnect_wait: 10,
        environments: vec![(env_id(), test_environment(shutdown_timeout))],
    }
}

fn start_message() -> StartJobMessage {
    StartJobMessage {
        job_id: j(),
        environment_id: env_id(),
        ssh_keys: vec!["k1".to_string()],
        ssh_rendezvous_servers: vec![],
    }
}

fn drive_to_ready(runner: &mut NspawnRunner) {
    let acts = runner.handle_event(SupervisorEvent::StartJob(start_message()));
    assert_eq!(acts.len(), 2);
    let acts = runner.handle_event(SupervisorEvent::AllocateDone(Ok(())));
    assert_eq!(acts.len(), 1);
    let acts = runner.handle_event(SupervisorEvent::ControlSocketDone(Ok(())));
    assert_eq!(acts.len(), 2);
    let acts = runner.handle_event(SupervisorEvent::DevicesResolved(vec![]));
    assert_eq!(acts.len(), 1);
    let acts = runner.handle_event(SupervisorEvent::SpawnDone(Ok(())));
    assert_eq!(acts.len(), 2);
    let acts = runner.handle_event(SupervisorEvent::ProxiesProbed(vec![]));
    assert_eq!(acts.len(), 1);
}

#[test]
fn happy_path_states_and_actions() {
    let mut runner = NspawnRunner::new(test_config(10));
    let dataset = format!("tank/tm/{}", J_TEXT);
    let mountpoint = format!("/var/lib/tm/{}", J_TEXT);

    let acts = runner.handle_event(SupervisorEvent::StartJob(start_message()));
    assert_eq!(acts.len(), 2);
    assert_eq!(
        acts[0],
        SupervisorAction::Publish {
            job_id: j(),
            state: JobState::Starting {
                stage: JobStartingStage::Allocating,
                status_message: None,
            },
        }
    );
    assert_eq!(
        acts[1],
        SupervisorAction::AllocateRootFs {
            create_args: vec![
                "create".to_string(),
                "-o".to_string(),
                "mountpoint=legacy".to_string(),
                dataset.clone(),
            ],
            mount_args: vec![
                "-t".to_string(),
                "zfs".to_string(),
                dataset.clone(),
                mountpoint.clone(),
            ],
            mountpoint: mountpoint.clone(),
            zfs_fs: dataset.clone(),
        }
    );

    let acts = runner.handle_event(SupervisorEvent::AllocateDone(Ok(())));
    assert_eq!(
        acts,
        vec![SupervisorAction::BindControlSocket {
            job_id: j(),
            path: format!("{}/run/tml/ctrl.sock", mountpoint),
        }]
    );

    let acts = runner.handle_event(SupervisorEvent::ControlSocketDone(Ok(())));
    assert_eq!(acts.len(), 2);
    assert_eq!(
        acts[0],
        SupervisorAction::Publish {
            job_id: j(),
            state: JobState::Starting {
                stage: JobStartingStage::Booting,
                status_message: None,
            },
        }
    );
    assert_eq!(acts[1], SupervisorAction::ResolveDevices { nodes: vec![] });

    let acts = runner.handle_event(SupervisorEvent::DevicesResolved(vec![]));
    assert_eq!(
        acts,
        vec![SupervisorAction::SpawnContainer {
            args: vec![
                "--scope".to_string(),
                "--property=DevicePolicy=closed".to_string(),
                "--".to_string(),
                "systemd-nspawn".to_string(),
                "-D".to_string(),
                mountpoint.clone(),
                "--keep-unit".to_string(),
                "--private-users=pick".to_string(),
                "--private-network".to_string(),
                "--bind-ro=/srv/data:/data".to_string(),
                "--boot".to_string(),
            ],
        }]
    );

    let acts = runner.handle_event(SupervisorEvent::SpawnDone(Ok(())));
    assert_eq!(acts.len(), 2);
    assert_eq!(acts[0], SupervisorAction::StartConsoleStreamer { job_id: j() });
    assert_eq!(acts[1], SupervisorAction::ProbeRendezvousProxies);

    let acts = runner.handle_event(SupervisorEvent::ProxiesProbed(vec![]));
    assert_eq!(
        acts,
        vec![SupervisorAction::Publish {
            job_id: j(),
            state: JobState::Ready { connection_info: vec![], status_message: None },
        }]
    );
    assert!(runner.current_job.is_some());

    // Stop the job: Stopping, then Finished.
    let acts = runner.handle_event(SupervisorEvent::StopJob(StopJobMessage { job_id: j() }));
    assert_eq!(acts.len(), 2);
    assert_eq!(
        acts[0],
        SupervisorAction::Publish {
            job_id: j(),
            state: JobState::Stopping { status_message: None },
        }
    );
    assert_eq!(acts[1], SupervisorAction::SignalAndAwaitExit { timeout_seconds: 10 });

    let acts = runner.handle_event(SupervisorEvent::GracefulWaitDone);
    assert_eq!(acts, vec![SupervisorAction::CheckChild]);

    let acts = runner.handle_event(SupervisorEvent::ChildStatus(ChildStatusOutcome::Exited));
    assert_eq!(
        acts,
        vec![
            SupervisorAction::ShutdownControlSocket,
            SupervisorAction::ShutdownConsoleStreamer,
            SupervisorAction::ShutdownRendezvousProxies,
        ]
    );

    let acts = runner.handle_event(SupervisorEvent::TeardownDone);
    assert_eq!(acts, vec![SupervisorAction::UnmountRootFs { mountpoint: mountpoint.clone() }]);

    let acts = runner.handle_event(SupervisorEvent::UnmountDone(Ok(())));
    assert_eq!(
        acts,
        vec![SupervisorAction::Publish {
            job_id: j(),
            state: JobState::Finished { status_message: None },
        }]
    );
    assert!(runner.current_job.is_none());
}

#[test]
fn duplicate_start_is_rejected() {
    let mut runner = NspawnRunner::new(test_config(10));
    drive_to_ready(&mut runner);

    let acts = runner.handle_event(SupervisorEvent::StartJob(StartJobMessage {
        job_id: j2(),
        environment_id: env_id(),
        ssh_keys: vec![],
        ssh_rendezvous_servers: vec![],
    }));
    assert_eq!(acts.len(), 1);
    let expected = format!(
        "Cannot start job {} on board {}, still executing job {}",
        j2().canonical_text(),
        board().canonical_text(),
        J_TEXT
    );
    assert_eq!(
        acts[0],
        SupervisorAction::Publish {
            job_id: j2(),
            state: JobState::Failed { status_message: Some(expected) },
        }
    );
    // The slot still holds the first job.
    assert_eq!(runner.current_job.as_ref().unwrap().job_id, j());
}

#[test]
fn unknown_environment_fails_with_empty_slot() {
    let mut runner = NspawnRunner::new(test_config(10));
    let acts = runner.handle_event(SupervisorEvent::StartJob(StartJobMessage {
        job_id: j(),
        environment_id: unknown_env_id(),
        ssh_keys: vec![],
        ssh_rendezvous_servers: vec![],
    }));
    assert_eq!(acts.len(), 1);
    let expected = format!(
        "Cannot start job {} on board {}, unknown environment {}",
        J_TEXT,
        board().canonical_text(),
        unknown_env_id().canonical_text()
    );
    assert_eq!(
        acts[0],
        SupervisorAction::Publish {
            job_id: j(),
            state: JobState::Failed { status_message: Some(expected) },
        }
    );
    assert!(runner.current_job.is_none());
}

#[test]
fn mismatched_stop_is_rejected() {
    let mut runner = NspawnRunner::new(test_config(10));
    drive_to_ready(&mut runner);

    let acts = runner.handle_event(SupervisorEvent::StopJob(StopJobMessage { job_id: j2() }));
    assert_eq!(acts.len(), 1);
    let expected = format!(
        "Cannot stop job {} on board {}, not running!",
        j2().canonical_text(),
        board().canonical_text()
    );
    assert_eq!(
        acts[0],
        SupervisorAction::Publish {
            job_id: j2(),
            state: JobState::Failed { status_message: Some(expected) },
        }
    );
    assert_eq!(runner.current_job.as_ref().unwrap().job_id, j());
}

#[test]
fn stop_after_finished_fails_without_residue() {
    let mut runner = NspawnRunner::new(test_config(10));
    drive_to_ready(&mut runner);
    runner.handle_event(SupervisorEvent::StopJob(StopJobMessage { job_id: j() }));
    runner.handle_event(SupervisorEvent::GracefulWaitDone);
    runner.handle_event(SupervisorEvent::ChildStatus(ChildStatusOutcome::Exited));
    runner.handle_event(SupervisorEvent::TeardownDone);
    runner.handle_event(SupervisorEvent::UnmountDone(Ok(())));
    assert!(runner.current_job.is_none());

    let acts = runner.handle_event(SupervisorEvent::StopJob(StopJobMessage { job_id: j() }));
    assert_eq!(acts.len(), 1);
    let expected = format!(
        "Cannot stop job {} on board {}, not running!",
        J_TEXT,
        board().canonical_text()
    );
    assert_eq!(
        acts[0],
        SupervisorAction::Publish {
            job_id: j(),
            state: JobState::Failed { status_message: Some(expected) },
        }
    );
    assert!(runner.current_job.is_none());
}

#[test]
fn graceful_timeout_force_kills_then_finishes() {
    let mut runner = NspawnRunner::new(test_config(1));
    drive_to_ready(&mut runner);

    let acts = runner.handle_event(SupervisorEvent::StopJob(StopJobMessage { job_id: j() }));
    assert_eq!(acts[1], SupervisorAction::SignalAndAwaitExit { timeout_seconds: 1 });
    runner.handle_event(SupervisorEvent::GracefulWaitDone);

    // The container ignores the termination signal: two kill rounds.
    let acts = runner.handle_event(SupervisorEvent::ChildStatus(ChildStatusOutcome::Running));
    assert_eq!(acts, vec![SupervisorAction::KillChild, SupervisorAction::CheckChild]);
    let acts = runner.handle_event(SupervisorEvent::ChildStatus(ChildStatusOutcome::Running));
    assert_eq!(acts, vec![SupervisorAction::KillChild, SupervisorAction::CheckChild]);

    let acts = runner.handle_event(SupervisorEvent::ChildStatus(ChildStatusOutcome::Exited));
    assert_eq!(acts.len(), 3);
    runner.handle_event(SupervisorEvent::TeardownDone);
    let acts = runner.handle_event(SupervisorEvent::UnmountDone(Ok(())));
    assert_eq!(
        acts,
        vec![SupervisorAction::Publish {
            job_id: j(),
            state: JobState::Finished { status_message: None },
        }]
    );
}

#[test]
fn allocate_failure_publishes_failed() {
    let mut runner = NspawnRunner::new(test_config(10));
    runner.handle_event(SupervisorEvent::StartJob(start_message()));
    let acts = runner.handle_event(SupervisorEvent::AllocateDone(Err(
        "Creating root filesystem failed".to_string(),
    )));
    assert_eq!(
        acts,
        vec![SupervisorAction::Publish {
            job_id: j(),
            state: JobState::Failed {
                status_message: Some("Creating root filesystem failed".to_string()),
            },
        }]
    );
    assert!(runner.current_job.is_none());
}

#[test]
fn spawn_failure_publishes_failed() {
    let mut runner = NspawnRunner::new(test_config(10));
    runner.handle_event(SupervisorEvent::StartJob(start_message()));
    runner.handle_event(SupervisorEvent::AllocateDone(Ok(())));
    runner.handle_event(SupervisorEvent::ControlSocketDone(Ok(())));
    runner.handle_event(SupervisorEvent::DevicesResolved(vec![]));
    let acts = runner.handle_event(SupervisorEvent::SpawnDone(Err("boom".to_string())));
    assert_eq!(
        acts,
        vec![SupervisorAction::Publish {
            job_id: j(),
            state: JobState::Failed {
                status_message: Some("Failed to spawn container: boom".to_string()),
            },
        }]
    );
}

#[test]
fn unmount_failure_publishes_failed() {
    let mut runner = NspawnRunner::new(test_config(10));
    drive_to_ready(&mut runner);
    runner.handle_event(SupervisorEvent::StopJob(StopJobMessage { job_id: j() }));
    runner.handle_event(SupervisorEvent::GracefulWaitDone);
    runner.handle_event(SupervisorEvent::ChildStatus(ChildStatusOutcome::Exited));
    runner.handle_event(SupervisorEvent::TeardownDone);
    let acts = runner.handle_event(SupervisorEvent::UnmountDone(Err(
        "Unmounting root filesystem failed".to_string(),
    )));
    assert_eq!(
        acts,
        vec![SupervisorAction::Publish {
            job_id: j(),
            state: JobState::Failed {
                status_message: Some("Unmounting root filesystem failed".to_string()),
            },
        }]
    );
}

#[test]
fn probe_results_become_connection_info_in_order() {
    let mut runner = NspawnRunner::new(test_config(10));
    runner.handle_event(SupervisorEvent::StartJob(start_message()));
    runner.handle_event(SupervisorEvent::AllocateDone(Ok(())));
    runner.handle_event(SupervisorEvent::ControlSocketDone(Ok(())));
    runner.handle_event(SupervisorEvent::DevicesResolved(vec![]));
    runner.handle_event(SupervisorEvent::SpawnDone(Ok(())));
    let acts = runner.handle_event(SupervisorEvent::ProxiesProbed(vec![
        Some(("a.example".to_string(), 2201)),
        None,
        Some(("b.example".to_string(), 2202)),
    ]));
    assert_eq!(acts.len(), 2);
    assert_eq!(
        acts[0],
        SupervisorAction::LogWarning {
            message: "Rendezvous proxy did not provide public address before timeout."
                .to_string(),
        }
    );
    assert_eq!(
        acts[1],
        SupervisorAction::Publish {
            job_id: j(),
            state: JobState::Ready {
                connection_info: vec![
                    JobSessionConnectionInfo::RendezvousSSH {
                        hostname: "a.example".to_string(),
                        port: 2201,
                        host_key_fingerprints: vec![],
                    },
                    JobSessionConnectionInfo::RendezvousSSH {
                        hostname: "b.example".to_string(),
                        port: 2202,
                        host_key_fingerprints: vec![],
                    },
                ],
                status_message: None,
            },
        }
    );
}

#[test]
fn ssh_target_selection_table() {
    let v4 = NspawnRunnerEnvironmentIpv4NetworkConfig {
        address: Ipv4Address { o0: 10, o1: 0, o2: 0, o3: 2 },
        prefix_length: 24,
        gateway: None,
        nameservers: vec![],
    };
    let v6 = NspawnRunnerEnvironmentIpv6NetworkConfig {
        address: Ipv6Address { s0: 0xfd00, s1: 0, s2: 0, s3: 0, s4: 0, s5: 0, s6: 0, s7: 2 },
        prefix_length: 64,
        gateway: None,
        nameservers: vec![],
    };
    let v4_addr = SocketAddress::V4 { address: v4.address, port: 22 };
    let v6_addr = SocketAddress::V6 { address: v6.address, port: 22 };

    // No port: no target, whatever is configured.
    let mut env = test_environment(10);
    env.ipv4_network = Some(v4.duplicate());
    env.ipv6_network = Some(v6.duplicate());
    assert_eq!(ssh_target(&env), None);

    // A port with both families: the preference is honoured.
    env.ssh_port = Some(22);
    env.ssh_preferred_ip_version = SSHPreferredIPVersion::V4;
    assert_eq!(ssh_target(&env), Some(v4_addr));
    env.ssh_preferred_ip_version = SSHPreferredIPVersion::V6;
    assert_eq!(ssh_target(&env), Some(v6_addr));
    env.ssh_preferred_ip_version = SSHPreferredIPVersion::Unspecified;
    assert_eq!(ssh_target(&env), Some(v4_addr));

    // A preference whose family is missing falls back to the other.
    env.ipv4_network = None;
    env.ssh_preferred_ip_version = SSHPreferredIPVersion::V4;
    assert_eq!(ssh_target(&env), Some(v6_addr));

    // No family configured at all: no target.
    env.ipv6_network = None;
    assert_eq!(ssh_target(&env), None);
}

#[test]
fn proxies_are_started_when_a_target_exists() {
    let mut config = test_config(10);
    config.environments[0].1.ssh_port = Some(2222);
    config.environments[0].1.ipv4_network = Some(NspawnRunnerEnvironmentIpv4NetworkConfig {
        address: Ipv4Address { o0: 10, o1: 0, o2: 0, o3: 2 },
        prefix_length: 24,
        gateway: None,
        nameservers: vec![],
    });
    let mut runner = NspawnRunner::new(config);
    runner.handle_event(SupervisorEvent::StartJob(StartJobMessage {
        job_id: j(),
        environment_id: env_id(),
        ssh_keys: vec![],
        ssh_rendezvous_servers: vec![RendezvousServerSpec {
            client_id: "client-1".to_string(),
            server_base_url: "https://rendezvous.example".to_string(),
            auth_token: "SECRET-REDACTED".to_string(),
        }],
    }));
    runner.handle_event(SupervisorEvent::AllocateDone(Ok(())));
    let acts = runner.handle_event(SupervisorEvent::ControlSocketDone(Ok(())));
    assert_eq!(acts.len(), 3);
    match &acts[0] {
        SupervisorAction::StartRendezvousProxies { address, servers } => {
            assert_eq!(
                *address,
                SocketAddress::V4 {
                    address: Ipv4Address { o0: 10, o1: 0, o2: 0, o3: 2 },
                    port: 2222,
                },
            );
            assert_eq!(servers.len(), 1);
            assert_eq!(servers[0].client_id, "client-1".to_string());
        },
        other => panic!("unexpected action: {:?}", other),
    }
}
