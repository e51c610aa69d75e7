use ssh_core::commands::port_forwarding::{
    port_forwarding_local_open,
    port_forwarding_remote_open,
    SSHPortForwardingId,
};
use ssh_core::commands::session::{
    session_connected,
    DisconnectReason,
    SSHSession,
    SSHSessionCheckServerKey,
    SSHSessionId,
    SessionIpcChannelData,
};
use ssh_core::commands::sftp::{sftp_opened, SSHSftp, SSHSftpId};
use ssh_core::commands::shell::{shell_opened, SSHShell, SSHShellId, ShellSize};
use ssh_core::error::SSHError;
use ssh_core::keys::ServerKey;
use ssh_core::ssh_client::{
    ChannelClose,
    ChannelEof,
    CheckServerKey,
    ClientDisconnect,
    SSHClient,
    ServerKeyAction,
};
use ssh_core::ssh_manager::SSHManager;

type Manager = SSHManager<&'static str, u32, u32, u32>;

const SERVER_KEY: &str =
    "ssh-ed25519 AAAAC3NzaC1lZDI1NTE5AAAAIJdD7y3aLq454yWBdwLWbieU1ebz9/cu7/QEXn9OIeZJ";
const SERVER_KEY_FINGERPRINT: &str = "SHA256:T7SvZ2cslqpPj6nKzitCBHHlpVF3r3MvLwmFL0fk0IE";

fn size() -> ShellSize {
    ShellSize { col: 80, row: 24, width: 0, height: 0 }
}

fn client(id: u128, policy: Option<SSHSessionCheckServerKey>) -> SSHClient {
    SSHClient::new(SSHSessionId(id), String::from("example.org"), 22, None, policy)
}

fn manager() -> Manager {
    let mut manager = Manager::init();
    for id in [1u128, 2] {
        session_connected(
            &mut manager,
            SSHSession::new(SSHSessionId(id), String::from("example.org"), 22, None, "handle"),
        );
    }
    shell_opened(&mut manager, SSHShell::new(SSHSessionId(1), SSHShellId(10), 0, size(), 100));
    shell_opened(&mut manager, SSHShell::new(SSHSessionId(1), SSHShellId(11), 1, size(), 101));
    shell_opened(&mut manager, SSHShell::new(SSHSessionId(2), SSHShellId(12), 0, size(), 102));
    sftp_opened(&mut manager, SSHSftp::new(SSHSessionId(1), SSHSftpId(20), 2, 200));
    sftp_opened(&mut manager, SSHSftp::new(SSHSessionId(2), SSHSftpId(21), 2, 201));
    manager
}

#[test]
fn new_client_takes_over_the_policy() {
    assert_eq!(client(1, None).check_server_key, None);
    assert_eq!(
        client(1, Some(SSHSessionCheckServerKey::Continue)).check_server_key,
        Some(CheckServerKey::Continue)
    );
    assert_eq!(
        client(1, Some(SSHSessionCheckServerKey::AddAndContinue)).check_server_key,
        Some(CheckServerKey::AddAndContinue)
    );
    let c = SSHClient::new(
        SSHSessionId(3),
        String::from("inner"),
        2200,
        Some(SSHSessionId(1)),
        None,
    );
    assert_eq!(c.ssh_session_id, SSHSessionId(3));
    assert_eq!(c.hostname, "inner");
    assert_eq!(c.port, 2200);
    assert_eq!(c.jump_host_ssh_session_id, Some(SSHSessionId(1)));
}

#[test]
fn server_key_is_read_from_openssh_text() {
    let key = ServerKey::from_openssh(SERVER_KEY).unwrap();
    assert_eq!(key.algorithm, "ssh-ed25519");
    assert_eq!(key.fingerprint, SERVER_KEY_FINGERPRINT);
    let other = ServerKey::from_openssh(
        "ssh-ed25519 AAAAC3NzaC1lZDI1NTE5AAAAILIG2T/B0l0gaqj3puu510tu9N1OkQ4znY3LYuEm5zCF comment",
    )
    .unwrap();
    assert_eq!(other.fingerprint, "SHA256:ogco5uzOZUBEcxTLMd4p6GnpvFvExJOxW6ui4kpIK0Q");
    assert_eq!(ServerKey::from_openssh("not a key"), None);
    assert_eq!(ServerKey::from_openssh(""), None);
}

#[test]
fn known_key_is_accepted_whatever_the_policy() {
    let key = ServerKey::from_openssh(SERVER_KEY).unwrap();
    for policy in [
        None,
        Some(SSHSessionCheckServerKey::Continue),
        Some(SSHSessionCheckServerKey::AddAndContinue),
    ] {
        assert_eq!(client(1, policy).check_server_key(true, &key), Ok(ServerKeyAction::Accept));
    }
}

#[test]
fn unknown_key_without_policy_is_a_trust_error() {
    let key = ServerKey::from_openssh(SERVER_KEY).unwrap();
    let r = client(1, None).check_server_key(false, &key);
    assert_eq!(
        r,
        Err(SSHError::UnknownKey {
            algorithm: String::from("ssh-ed25519"),
            fingerprint: String::from(SERVER_KEY_FINGERPRINT),
        })
    );
    assert_eq!(
        r.unwrap_err().message(),
        "ssh-ed25519 key fingerprint is SHA256:T7SvZ2cslqpPj6nKzitCBHHlpVF3r3MvLwmFL0fk0IE"
    );
}

#[test]
fn unknown_key_follows_the_policy() {
    let key = ServerKey::from_openssh(SERVER_KEY).unwrap();
    assert_eq!(
        client(1, Some(SSHSessionCheckServerKey::Continue)).check_server_key(false, &key),
        Ok(ServerKeyAction::Accept)
    );
    assert_eq!(
        client(1, Some(SSHSessionCheckServerKey::AddAndContinue)).check_server_key(false, &key),
        Ok(ServerKeyAction::AddAndAccept)
    );
}

#[test]
fn data_goes_to_the_shell_of_the_channel() {
    let manager = manager();
    let shells = client(1, None).data(&manager, 1);
    assert_eq!(shells.len(), 1);
    assert_eq!(shells[0].ssh_shell_id, SSHShellId(11));
    let shells = client(2, None).data(&manager, 0);
    assert_eq!(shells.len(), 1);
    assert_eq!(shells[0].ssh_shell_id, SSHShellId(12));
    assert!(client(1, None).data(&manager, 2).is_empty());
    assert!(client(1, None).data(&manager, 9).is_empty());
    assert!(client(3, None).data(&manager, 0).is_empty());
}

#[test]
fn data_reaches_every_shell_on_the_channel_in_order() {
    let mut manager = manager();
    shell_opened(&mut manager, SSHShell::new(SSHSessionId(1), SSHShellId(13), 0, size(), 103));
    let shells = manager.shell_channel_data(SSHSessionId(1), 0);
    let ids: Vec<SSHShellId> = shells.iter().map(|shell| shell.ssh_shell_id).collect();
    assert_eq!(ids, vec![SSHShellId(10), SSHShellId(13)]);
}

#[test]
fn eof_asks_shells_first_then_sftp() {
    let manager = manager();
    match client(1, None).channel_eof(&manager, 0) {
        ChannelEof::Shells(shells) => {
            assert_eq!(shells.len(), 1);
            assert_eq!(shells[0].ssh_shell_id, SSHShellId(10));
        }
        _ => panic!("no shell"),
    }
    match client(1, None).channel_eof(&manager, 2) {
        ChannelEof::Sftps(sftps) => {
            assert_eq!(sftps.len(), 1);
            assert_eq!(sftps[0].ssh_sftp_id, SSHSftpId(20));
        }
        _ => panic!("no sftp"),
    }
    assert!(matches!(client(1, None).channel_eof(&manager, 7), ChannelEof::Dropped));
    assert_eq!(manager.shells.len(), 3);
    assert_eq!(manager.sftps.len(), 2);
}

#[test]
fn close_removes_the_owner_of_the_channel() {
    let mut manager = manager();
    match client(1, None).channel_close(&mut manager, 1) {
        ChannelClose::Shells(closed) => {
            assert_eq!(closed.len(), 1);
            assert_eq!(closed[0].0, 11);
            assert_eq!(closed[0].1.shell_channel, 101);
        }
        _ => panic!("no shell"),
    }
    assert_eq!(manager.shells.len(), 2);
    assert!(!manager.shells.contains_key(11));
    assert_eq!(manager.sftps.len(), 2);
    match client(1, None).channel_close(&mut manager, 2) {
        ChannelClose::Sftps(closed) => {
            assert_eq!(closed.len(), 1);
            assert_eq!(closed[0].0, 20);
        }
        _ => panic!("no sftp"),
    }
    assert_eq!(manager.sftps.len(), 1);
    assert!(manager.sftps.contains_key(21));
    assert!(matches!(client(1, None).channel_close(&mut manager, 2), ChannelClose::Dropped));
    assert_eq!(manager.shells.len(), 2);
    assert_eq!(manager.sessions.len(), 2);
}

#[test]
fn events_after_close_are_dropped() {
    let mut manager = manager();
    assert!(matches!(client(1, None).channel_close(&mut manager, 0), ChannelClose::Shells(_)));
    assert!(client(1, None).data(&manager, 0).is_empty());
    assert!(matches!(client(1, None).channel_eof(&manager, 0), ChannelEof::Dropped));
    assert_eq!(client(2, None).data(&manager, 0).len(), 1);
}

#[test]
fn manager_close_keeps_other_channels_in_order() {
    let mut manager = manager();
    let closed = manager.shell_channel_close(SSHSessionId(1), 0);
    assert_eq!(closed.len(), 1);
    assert_eq!(manager.shells.id_at(0), 11);
    assert_eq!(manager.shells.id_at(1), 12);
    let closed = manager.sftp_channel_close(SSHSessionId(2), 2);
    assert_eq!(closed.len(), 1);
    assert_eq!(closed[0].1.ssh_sftp_id, SSHSftpId(21));
    assert_eq!(manager.sftp_channel_eof(SSHSessionId(2), 2).len(), 0);
    assert_eq!(manager.sftp_channel_eof(SSHSessionId(1), 2).len(), 1);
    assert_eq!(manager.shell_channel_eof(SSHSessionId(1), 1).len(), 1);
}

fn bind(manager: &mut Manager, session: u128, id: u128, remote: &str, port: u16, local_port: u16) {
    port_forwarding_remote_open(
        manager,
        SSHSessionId(session),
        SSHPortForwardingId(id),
        String::from("localhost"),
        local_port,
        String::from(remote),
        port,
    )
    .unwrap();
}

#[test]
fn forwarded_connection_is_spliced_to_the_bound_local_address() {
    let mut manager = manager();
    bind(&mut manager, 1, 70, "0.0.0.0", 9000, 3000);
    bind(&mut manager, 2, 71, "0.0.0.0", 9000, 4000);
    bind(&mut manager, 1, 72, "0.0.0.0", 9001, 5000);
    let c = client(1, None);
    assert_eq!(
        c.server_channel_open_forwarded_tcpip(&manager, "0.0.0.0", 9000),
        Ok(String::from("localhost:3000"))
    );
    assert_eq!(
        c.server_channel_open_forwarded_tcpip(&manager, "0.0.0.0", 9001),
        Ok(String::from("localhost:5000"))
    );
    assert_eq!(
        client(2, None).server_channel_open_forwarded_tcpip(&manager, "0.0.0.0", 9000),
        Ok(String::from("localhost:4000"))
    );
}

#[test]
fn forwarded_connection_without_binding_is_rejected() {
    let mut manager = manager();
    bind(&mut manager, 1, 70, "0.0.0.0", 9000, 3000);
    port_forwarding_local_open(
        &mut manager,
        SSHSessionId(1),
        SSHPortForwardingId(73),
        7,
        String::from("localhost"),
        3000,
        String::from("0.0.0.0"),
        9002,
    );
    let c = client(1, None);
    assert_eq!(
        c.server_channel_open_forwarded_tcpip(&manager, "0.0.0.0", 9002),
        Err(SSHError::Error(String::from("Remote port forwarding not found: 0.0.0.0:9002")))
    );
    assert_eq!(
        c.server_channel_open_forwarded_tcpip(&manager, "127.0.0.1", 9000),
        Err(SSHError::Error(String::from("Remote port forwarding not found: 127.0.0.1:9000")))
    );
    assert_eq!(
        client(2, None).server_channel_open_forwarded_tcpip(&manager, "0.0.0.0", 9000),
        Err(SSHError::Error(String::from("Remote port forwarding not found: 0.0.0.0:9000")))
    );
}

#[test]
fn forwarded_port_is_compared_as_a_full_number() {
    let mut manager = manager();
    bind(&mut manager, 1, 70, "0.0.0.0", 80, 3000);
    assert_eq!(
        client(1, None).server_channel_open_forwarded_tcpip(&manager, "0.0.0.0", 80),
        Ok(String::from("localhost:3000"))
    );
    assert_eq!(
        client(1, None).server_channel_open_forwarded_tcpip(&manager, "0.0.0.0", 65616),
        Err(SSHError::Error(String::from("Remote port forwarding not found: 0.0.0.0:65616")))
    );
    assert_eq!(
        client(1, None).server_channel_open_forwarded_tcpip(&manager, "0.0.0.0", 65536),
        Err(SSHError::Error(String::from("Remote port forwarding not found: 0.0.0.0:65536")))
    );
}

#[test]
fn first_binding_wins() {
    let mut manager = manager();
    bind(&mut manager, 1, 70, "0.0.0.0", 9000, 3000);
    bind(&mut manager, 1, 71, "0.0.0.0", 9000, 4000);
    assert_eq!(
        client(1, None).server_channel_open_forwarded_tcpip(&manager, "0.0.0.0", 9000),
        Ok(String::from("localhost:3000"))
    );
}

#[test]
fn server_disconnect_is_reported_to_the_session() {
    let mut manager = manager();
    let report = client(1, None).disconnected(&mut manager, ClientDisconnect::ReceivedDisconnect);
    let (session, event) = report.unwrap();
    assert_eq!(session.ssh_session_id, SSHSessionId(1));
    assert_eq!(session.handle, "handle");
    assert_eq!(event, SessionIpcChannelData::Disconnect(DisconnectReason::Server));
    assert!(!manager.sessions.contains_key(1));
    assert!(manager.sessions.contains_key(2));
    assert_eq!(manager.shells.len(), 3);
    assert_eq!(manager.sftps.len(), 2);
}

#[test]
fn transport_error_is_reported_with_its_message() {
    let mut manager = manager();
    let report = client(2, None)
        .disconnected(&mut manager, ClientDisconnect::Error(String::from("connection reset")));
    let (_, event) = report.unwrap();
    assert_eq!(
        event,
        SessionIpcChannelData::Disconnect(DisconnectReason::Error(String::from(
            "connection reset"
        )))
    );
    assert_eq!(manager.sessions.len(), 1);
}

#[test]
fn disconnect_of_unregistered_session_reports_nothing() {
    let mut manager = manager();
    assert!(client(9, None)
        .disconnected(&mut manager, ClientDisconnect::ReceivedDisconnect)
        .is_none());
    assert_eq!(manager.sessions.len(), 2);
}
