use vstd::prelude::*;
use crate::commands::session::AuthenticationMethod;

verus! {

/// How a stored host asks its terminal to look.
#[derive(Debug, Clone, PartialEq, Eq)]
pub struct TerminalSettings {
    pub font_family: Option<String>,
    pub font_size: Option<i32>,
    pub theme: Option<String>,
}

/// A stored host without its key in the store: where to connect, as whom,
/// and by which method.
#[derive(Debug, Clone, PartialEq, Eq)]
pub struct HostBase {
    pub name: Option<String>,
    pub tags: Option<Vec<String>>,
    pub hostname: String,
    pub port: i32,
    pub username: String,
    pub authentication_method: AuthenticationMethod,
    pub password: Option<String>,
    pub key_id: Option<i64>,
    pub startup_command: Option<String>,
    pub jump_host_ids: Option<Vec<i64>>,
    pub terminal_settings: Option<TerminalSettings>,
}

/// A stored host.
#[derive(Debug, Clone, PartialEq, Eq)]
pub struct Host {
    pub id: i64,
    pub base: HostBase,
}

/// A stored key pair without its key in the store.
#[derive(Debug, Clone, PartialEq, Eq)]
pub struct KeyBase {
    pub name: String,
    pub private_key: String,
    pub public_key: String,
    pub passphrase: Option<String>,
}

/// A stored key pair.
#[derive(Debug, Clone, PartialEq, Eq)]
pub struct Key {
    pub id: i64,
    pub base: KeyBase,
}

/// The three kinds of forwarding.
#[derive(Debug, Clone, Copy, PartialEq, Eq, Structural)]
pub enum PortForwardingType {
    Local,
    Remote,
    Dynamic,
}

/// A stored forwarding without its key in the store. A dynamic forwarding
/// has no remote end.
#[derive(Debug, Clone, PartialEq, Eq)]
pub struct PortForwardingBase {
    pub name: String,
    pub port_forwarding_type: PortForwardingType,
    pub host_id: i64,
    pub local_address: String,
    pub local_port: i32,
    pub remote_address: Option<String>,
    pub remote_port: Option<i32>,
}

/// A stored forwarding.
#[derive(Debug, Clone, PartialEq, Eq)]
pub struct PortForwarding {
    pub id: i64,
    pub base: PortForwardingBase,
}

} // verus!
