use nspawn_runner::codec::{
    decode_puppet_msg, decode_runner_msg, encode_puppet_msg, encode_runner_msg,
};
use nspawn_runner::config::{
    Ipv4Address, Ipv6Address, NspawnRunnerConfig, NspawnRunnerEnvironmentConfig,
    NspawnRunnerEnvironmentIpv4NetworkConfig, NspawnRunnerEnvironmentZfsRootConfig,
    SSHPreferredIPVersion,
};
use nspawn_runner::control::{ClientNote, RunnerSocketClient};
use nspawn_runner::ids::Uuid;
use nspawn_runner::messages::{
    Ipv4NetworkConfig, Ipv6NetworkConfig, NetworkConfig, PuppetEvent, PuppetMsg, PuppetReq,
    RunnerMsg, RunnerResp, StartJobMessage,
};
use nspawn_runner::supervisor::{NspawnRunner, SupervisorEvent};

fn j() -> Uuid {
    Uuid { bits: 0x00112233445566778899aabbccddeeffu128 }
}

fn j2() -> Uuid {
    Uuid { bits: 0xffeeddccbbaa99887766554433221100u128 }
}

fn env_id() -> Uuid {
    Uuid { bits: 0xaau128 }
}

fn runner_with_job() -> NspawnRunner {
    let env = NspawnRunnerEnvironmentConfig {
        init: None,
        shutdown_timeout: 10,
        mount: vec![],
        device: vec![],
        zfsroot: Some(NspawnRunnerEnvironmentZfsRootConfig {
            clone_from: None,
            parent: "tank/tm".to_string(),
            mount_base: "/var/lib/tm".to_string(),
            quota: None,
        }),
        control_socket_path: "/run/ctrl.sock".to_string(),
        veth: vec![],
        ssh_port: None,
        ssh_preferred_ip_version: SSHPreferredIPVersion::Unspecified,
        ipv4_network: Some(NspawnRunnerEnvironmentIpv4NetworkConfig {
            address: Ipv4Address { o0: 10, o1: 0, o2: 0, o3: 2 },
            prefix_length: 24,
            gateway: Some(Ipv4Address { o0: 10, o1: 0, o2: 0, o3: 1 }),
            nameservers: vec![Ipv4Address { o0: 9, o1: 9, o2: 9, o3: 9 }],
        }),
        ipv6_network: None,
    };
    let config = NspawnRunnerConfig {
        coordinator_base_url: "https://coordinator.example".to_string(),
        board_id: Uuid { bits: 1 },
        keepalive_timeout: 30,
        reconnect_wait: 10,
        environments: vec![(env_id(), env)],
    };
    let mut runner = NspawnRunner::new(config);
    runner.handle_event(SupervisorEvent::StartJob(StartJobMessage {
        job_id: j(),
        environment_id: env_id(),
        ssh_keys: vec!["key-one".to_string(), "key-two".to_string()],
        ssh_rendezvous_servers: vec![],
    }));
    runner.handle_event(SupervisorEvent::AllocateDone(Ok(())));
    runner.handle_event(SupervisorEvent::ControlSocketDone(Ok(())));
    runner.handle_event(SupervisorEvent::DevicesResolved(vec![]));
    runner.handle_event(SupervisorEvent::SpawnDone(Ok(())));
    runner.handle_event(SupervisorEvent::ProxiesProbed(vec![]));
    runner
}

#[test]
fn ssh_keys_match_the_start_request_in_order() {
    let runner = runner_with_job();
    let keys = runner.ssh_keys(&j()).unwrap();
    assert_eq!(keys, vec!["key-one".to_string(), "key-two".to_string()]);
}

#[test]
fn ssh_keys_for_other_job_are_absent() {
    let runner = runner_with_job();
    assert!(runner.ssh_keys(&j2()).is_none());
}

#[test]
fn hostname_is_job_prefix_of_id_text() {
    let runner = runner_with_job();
    let nc = runner.network_config(&j()).unwrap();
    assert_eq!(nc.hostname, "job-00112233-4".to_string());
    assert_eq!(nc.interface, Some("host0".to_string()));
    let v4 = nc.ipv4.unwrap();
    assert_eq!(v4.address, Ipv4Address { o0: 10, o1: 0, o2: 0, o3: 2 });
    assert_eq!(v4.prefix_length, 24);
    assert_eq!(v4.gateway, Some(Ipv4Address { o0: 10, o1: 0, o2: 0, o3: 1 }));
    assert_eq!(v4.nameservers, vec![Ipv4Address { o0: 9, o1: 9, o2: 9, o3: 9 }]);
    assert!(nc.ipv6.is_none());
}

#[test]
fn response_kind_matches_request_kind() {
    let runner = runner_with_job();
    match runner.handle_request(&j(), &PuppetReq::SSHKeys) {
        RunnerResp::SSHKeysResp { ssh_keys } => {
            assert_eq!(ssh_keys, vec!["key-one".to_string(), "key-two".to_string()]);
        },
        other => panic!("wrong kind: {:?}", other),
    }
    match runner.handle_request(&j(), &PuppetReq::NetworkConfig) {
        RunnerResp::NetworkConfig(_) => {},
        other => panic!("wrong kind: {:?}", other),
    }
    // A puppet outliving its job gets empty answers.
    match runner.handle_request(&j2(), &PuppetReq::SSHKeys) {
        RunnerResp::SSHKeysResp { ssh_keys } => assert!(ssh_keys.is_empty()),
        other => panic!("wrong kind: {:?}", other),
    }
    match runner.handle_request(&j2(), &PuppetReq::NetworkConfig) {
        RunnerResp::JobNotFound => {},
        other => panic!("wrong kind: {:?}", other),
    }
}

#[test]
fn request_ids_increase_from_zero() {
    let mut client = RunnerSocketClient::new();
    let (id0, msg0) = client.begin_request(PuppetReq::SSHKeys);
    let (id1, msg1) = client.begin_request(PuppetReq::NetworkConfig);
    assert_eq!(id0, 0);
    assert_eq!(id1, 1);
    assert_eq!(msg0, PuppetMsg::Request { request_id: 0, request: PuppetReq::SSHKeys });
    assert_eq!(msg1, PuppetMsg::Request { request_id: 1, request: PuppetReq::NetworkConfig });
    let (ev0, evmsg) = client.report_ready();
    assert_eq!(ev0, 0);
    assert_eq!(evmsg, PuppetMsg::Event { puppet_event_id: 0, event: PuppetEvent::Ready });
}

#[test]
fn responses_fill_their_slot_once() {
    let mut client = RunnerSocketClient::new();
    let (id, _) = client.begin_request(PuppetReq::SSHKeys);
    assert!(client.take_response(id).is_none());

    let note = client.handle_runner_msg(RunnerMsg::Response {
        request_id: id,
        response: RunnerResp::SSHKeysResp { ssh_keys: vec!["k".to_string()] },
    });
    assert_eq!(note, ClientNote::ResponseRecorded);

    // A duplicate is reported; the last write wins.
    let note = client.handle_runner_msg(RunnerMsg::Response {
        request_id: id,
        response: RunnerResp::SSHKeysResp { ssh_keys: vec!["k2".to_string()] },
    });
    assert_eq!(note, ClientNote::DuplicateResponse);

    match client.take_response(id) {
        Some(RunnerResp::SSHKeysResp { ssh_keys }) => {
            assert_eq!(ssh_keys, vec!["k2".to_string()]);
        },
        other => panic!("unexpected: {:?}", other),
    }
}

#[test]
fn unknown_and_foreign_datagrams_are_noted() {
    let mut client = RunnerSocketClient::new();
    let note = client.handle_runner_msg(RunnerMsg::Response {
        request_id: 7,
        response: RunnerResp::JobNotFound,
    });
    assert_eq!(note, ClientNote::UnknownRequestId);
    let note = client.handle_runner_msg(RunnerMsg::Event { runner_event_id: 3 });
    assert_eq!(note, ClientNote::EventIgnored);
    let note = client.handle_runner_msg(RunnerMsg::Error { message: "oops".to_string() });
    assert_eq!(note, ClientNote::ErrorLogged);
}

#[test]
fn puppet_request_round_trips_through_the_wire() {
    let msg = PuppetMsg::Request { request_id: 5, request: PuppetReq::SSHKeys };
    let text = encode_puppet_msg(&msg);
    assert_eq!(decode_puppet_msg(text.as_str()), Some(msg));

    let msg = PuppetMsg::Request { request_id: 0xdeadbeef, request: PuppetReq::NetworkConfig };
    let text = encode_puppet_msg(&msg);
    assert_eq!(decode_puppet_msg(text.as_str()), Some(msg));

    let msg = PuppetMsg::Event { puppet_event_id: 0, event: PuppetEvent::Ready };
    let text = encode_puppet_msg(&msg);
    assert_eq!(text, "event\n0000000000000000\nready\n");
    assert_eq!(decode_puppet_msg(text.as_str()), Some(msg));
}

#[test]
fn runner_messages_round_trip_through_the_wire() {
    let msgs = vec![
        RunnerMsg::Response {
            request_id: 1,
            response: RunnerResp::SSHKeysResp {
                ssh_keys: vec!["ssh-ed25519 AAAA me@host".to_string(), "".to_string()],
            },
        },
        RunnerMsg::Response { request_id: 2, response: RunnerResp::JobNotFound },
        RunnerMsg::Event { runner_event_id: 9 },
        RunnerMsg::Error { message: "line one\nline two".to_string() },
    ];
    for msg in msgs {
        let text = encode_runner_msg(&msg);
        assert_eq!(decode_runner_msg(text.as_str()), Some(msg));
    }
}

#[test]
fn network_config_round_trips_through_the_wire() {
    let nc = NetworkConfig {
        hostname: "job-00112233-4".to_string(),
        interface: Some("host0".to_string()),
        ipv4: Some(Ipv4NetworkConfig {
            address: Ipv4Address { o0: 10, o1: 0, o2: 0, o3: 2 },
            prefix_length: 24,
            gateway: Some(Ipv4Address { o0: 10, o1: 0, o2: 0, o3: 1 }),
            nameservers: vec![
                Ipv4Address { o0: 9, o1: 9, o2: 9, o3: 9 },
                Ipv4Address { o0: 1, o1: 1, o2: 1, o3: 1 },
            ],
        }),
        ipv6: Some(Ipv6NetworkConfig {
            address: Ipv6Address {
                s0: 0xfd00,
                s1: 0,
                s2: 0,
                s3: 0,
                s4: 0,
                s5: 0,
                s6: 0,
                s7: 2,
            },
            prefix_length: 64,
            gateway: None,
            nameservers: vec![],
        }),
    };
    let msg = RunnerMsg::Response {
        request_id: 3,
        response: RunnerResp::NetworkConfig(nc),
    };
    let text = encode_runner_msg(&msg);
    assert_eq!(decode_runner_msg(text.as_str()), Some(msg));

    let minimal = RunnerMsg::Response {
        request_id: 4,
        response: RunnerResp::NetworkConfig(NetworkConfig {
            hostname: "job-ffeeddccbb".to_string(),
            interface: None,
            ipv4: None,
            ipv6: None,
        }),
    };
    let text = encode_runner_msg(&minimal);
    assert_eq!(decode_runner_msg(text.as_str()), Some(minimal));
}

#[test]
fn malformed_datagrams_are_rejected() {
    assert!(decode_runner_msg("").is_none());
    assert!(decode_runner_msg("gibberish\n").is_none());
    assert!(decode_puppet_msg("request\nzz\nssh_keys\n").is_none());
    assert!(decode_puppet_msg("request\n0000000000000005\n").is_none());
    // Trailing garbage after a well-formed message is refused.
    let text = encode_puppet_msg(&PuppetMsg::Event {
        puppet_event_id: 1,
        event: PuppetEvent::Ready,
    });
    let padded = format!("{}x", text);
    assert!(decode_puppet_msg(padded.as_str()).is_none());
}
