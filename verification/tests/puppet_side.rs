use nspawn_runner::config::{Ipv4Address, Ipv6Address};
use nspawn_runner::messages::{Ipv4NetworkConfig, Ipv6NetworkConfig, NetworkConfig};
use nspawn_runner::puppet::{
    authorized_keys_content, classify_script_status, network_script_env, v4_address_text,
    v6_address_text, ScriptOutcome,
};

#[test]
fn authorized_keys_are_joined_by_newlines() {
    assert_eq!(authorized_keys_content(&vec![]), "".to_string());
    assert_eq!(authorized_keys_content(&vec!["k1".to_string()]), "k1".to_string());
    assert_eq!(
        authorized_keys_content(&vec!["k1".to_string(), "k2".to_string(), "k3".to_string()]),
        "k1\nk2\nk3".to_string()
    );
}

#[test]
fn address_texts() {
    assert_eq!(
        v4_address_text(&Ipv4Address { o0: 192, o1: 168, o2: 0, o3: 1 }),
        "192.168.0.1".to_string()
    );
    assert_eq!(
        v4_address_text(&Ipv4Address { o0: 0, o1: 10, o2: 100, o3: 255 }),
        "0.10.100.255".to_string()
    );
    assert_eq!(
        v6_address_text(&Ipv6Address {
            s0: 0xfd00,
            s1: 0,
            s2: 0,
            s3: 0,
            s4: 0,
            s5: 0x1b,
            s6: 0x123,
            s7: 2,
        }),
        "fd00:0:0:0:0:1b:123:2".to_string()
    );
}

#[test]
fn network_script_environment_is_complete_and_ordered() {
    let nc = NetworkConfig {
        hostname: "job-00112233-4".to_string(),
        interface: Some("host0".to_string()),
        ipv4: Some(Ipv4NetworkConfig {
            address: Ipv4Address { o0: 10, o1: 0, o2: 0, o3: 2 },
            prefix_length: 24,
            gateway: Some(Ipv4Address { o0: 10, o1: 0, o2: 0, o3: 1 }),
            nameservers: vec![
                Ipv4Address { o0: 9, o1: 9, o2: 9, o3: 9 },
                Ipv4Address { o0: 1, o1: 1, o2: 1, o3: 1 },
            ],
        }),
        ipv6: Some(Ipv6NetworkConfig {
            address: Ipv6Address {
                s0: 0xfd00,
                s1: 0,
                s2: 0,
                s3: 0,
                s4: 0,
                s5: 0,
                s6: 0,
                s7: 2,
            },
            prefix_length: 64,
            gateway: None,
            nameservers: vec![Ipv6Address {
                s0: 0x2620,
                s1: 0xfe,
                s2: 0,
                s3: 0,
                s4: 0,
                s5: 0,
                s6: 0,
                s7: 0xfe,
            }],
        }),
    };
    let env = network_script_env(&nc);
    assert_eq!(
        env,
        vec![
            ("HOSTNAME".to_string(), "job-00112233-4".to_string()),
            ("INTERFACE".to_string(), "host0".to_string()),
            ("IPV4_ADDRESS".to_string(), "10.0.0.2".to_string()),
            ("IPV4_PREFIX_LENGTH".to_string(), "24".to_string()),
            ("IPV4_GATEWAY".to_string(), "10.0.0.1".to_string()),
            ("IPV4_NAMESERVERS".to_string(), "9.9.9.9|1.1.1.1".to_string()),
            ("IPV6_ADDRESS".to_string(), "fd00:0:0:0:0:0:0:2".to_string()),
            ("IPV6_PREFIX_LENGTH".to_string(), "64".to_string()),
            ("IPV6_NAMESERVERS".to_string(), "2620:fe:0:0:0:0:0:fe".to_string()),
        ]
    );
}

#[test]
fn minimal_network_script_environment() {
    let nc = NetworkConfig {
        hostname: "job-ffeeddccbb".to_string(),
        interface: None,
        ipv4: None,
        ipv6: None,
    };
    let env = network_script_env(&nc);
    assert_eq!(env, vec![("HOSTNAME".to_string(), "job-ffeeddccbb".to_string())]);
}

#[test]
fn script_status_classification() {
    assert_eq!(classify_script_status(Some(0)), ScriptOutcome::Success);
    assert_eq!(classify_script_status(Some(3)), ScriptOutcome::NonZeroExit(3));
    assert_eq!(classify_script_status(Some(-1)), ScriptOutcome::NonZeroExit(-1));
    assert_eq!(classify_script_status(None), ScriptOutcome::KilledBySignal);
}
