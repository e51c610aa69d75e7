use ssh_core::commands::session::AuthenticationMethod;
use ssh_core::records::{
    Host,
    HostBase,
    Key,
    KeyBase,
    PortForwarding,
    PortForwardingBase,
    PortForwardingType,
};

#[test]
fn records_hold_what_they_are_given() {
    let host = Host {
        id: 7,
        base: HostBase {
            name: Some(String::from("build")),
            tags: None,
            hostname: String::from("example.org"),
            port: 22,
            username: String::from("u"),
            authentication_method: AuthenticationMethod::PublicKey,
            password: None,
            key_id: Some(3),
            startup_command: None,
            jump_host_ids: Some(vec![1, 2]),
            terminal_settings: None,
        },
    };
    assert_eq!(host.clone(), host);
    assert_eq!(host.base.key_id, Some(3));
    let key = Key {
        id: 3,
        base: KeyBase {
            name: String::from("k"),
            private_key: String::new(),
            public_key: String::new(),
            passphrase: None,
        },
    };
    assert_eq!(key.clone().id, 3);
    let forwarding = PortForwarding {
        id: 9,
        base: PortForwardingBase {
            name: String::from("f"),
            port_forwarding_type: PortForwardingType::Dynamic,
            host_id: 7,
            local_address: String::from("127.0.0.1"),
            local_port: 1080,
            remote_address: None,
            remote_port: None,
        },
    };
    assert_eq!(forwarding.base.host_id, host.id);
    assert_ne!(forwarding.base.port_forwarding_type, PortForwardingType::Local);
}
