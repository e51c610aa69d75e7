use ssh_core::commands::port_forwarding::{
    accept_loop,
    connect_socks,
    port_forwarding_dynamic_close,
    port_forwarding_dynamic_open,
    port_forwarding_finished,
    port_forwarding_local_accept,
    port_forwarding_local_close,
    port_forwarding_local_open,
    port_forwarding_remote_close,
    port_forwarding_remote_open,
    AcceptAction,
    AcceptEvent,
    DirectTcpip,
    Handler,
    SSHPortForwarding,
    SSHPortForwardingId,
    Socks4Command,
    Socks5Command,
    Socks5Method,
    SocksAddr,
    TcpipForward,
};
use ssh_core::commands::session::{session_connected, session_disconnect, SSHSession, SSHSessionId};
use ssh_core::error::SSHError;
use ssh_core::ssh_manager::SSHManager;

type Manager = SSHManager<u32, u32, u32, &'static str>;

fn manager_with_session(id: u128) -> Manager {
    let mut manager = Manager::init();
    session_connected(
        &mut manager,
        SSHSession::new(SSHSessionId(id), String::from("example.org"), 22, None, 0),
    );
    manager
}

fn open_local(manager: &mut Manager, session: u128, id: u128) {
    port_forwarding_local_open(
        manager,
        SSHSessionId(session),
        SSHPortForwardingId(id),
        "stop-local",
        String::from("127.0.0.1"),
        8080,
        String::from("db.internal"),
        5432,
    );
}

fn open_dynamic(manager: &mut Manager, session: u128, id: u128) {
    port_forwarding_dynamic_open(
        manager,
        SSHSessionId(session),
        SSHPortForwardingId(id),
        "stop-dynamic",
        String::from("127.0.0.1"),
        1080,
    );
}

fn open_remote(manager: &mut Manager, session: u128, id: u128) -> Result<TcpipForward, SSHError> {
    port_forwarding_remote_open(
        manager,
        SSHSessionId(session),
        SSHPortForwardingId(id),
        String::from("127.0.0.1"),
        3000,
        String::from("0.0.0.0"),
        9000,
    )
}

#[test]
fn local_open_registers_the_forwarding() {
    let mut manager = manager_with_session(1);
    let id = port_forwarding_local_open(
        &mut manager,
        SSHSessionId(1),
        SSHPortForwardingId(50),
        "stop",
        String::from("127.0.0.1"),
        8080,
        String::from("db.internal"),
        5432,
    );
    assert_eq!(id, SSHSessionId(1));
    match manager.port_forwardings.get(50) {
        Some(SSHPortForwarding::Local {
            ssh_port_forwarding_id,
            ssh_session_id,
            notify,
            local_address,
            local_port,
            remote_address,
            remote_port,
        }) => {
            assert_eq!(*ssh_port_forwarding_id, SSHPortForwardingId(50));
            assert_eq!(*ssh_session_id, SSHSessionId(1));
            assert_eq!(*notify, "stop");
            assert_eq!(local_address, "127.0.0.1");
            assert_eq!(*local_port, 8080);
            assert_eq!(remote_address, "db.internal");
            assert_eq!(*remote_port, 5432);
        }
        _ => panic!("no local forwarding"),
    }
    assert_eq!(manager.sessions.len(), 1);
}

#[test]
fn local_accept_opens_a_channel_to_the_remote_end() {
    let manager = manager_with_session(1);
    let request =
        port_forwarding_local_accept(&manager, SSHSessionId(1), "db.internal", 5432, "127.0.0.1", 51000);
    assert_eq!(
        request,
        Ok(DirectTcpip {
            host_to_connect: String::from("db.internal"),
            port_to_connect: 5432,
            originator_address: String::from("127.0.0.1"),
            originator_port: 51000,
        })
    );
}

#[test]
fn local_accept_after_session_removal_fails_that_connection_only() {
    let mut manager = manager_with_session(1);
    open_local(&mut manager, 1, 50);
    session_disconnect(&mut manager, SSHSessionId(1));
    let request =
        port_forwarding_local_accept(&manager, SSHSessionId(1), "db.internal", 5432, "127.0.0.1", 51000);
    assert_eq!(request, Err(SSHError::NotFoundSession));
    assert!(manager.port_forwardings.contains_key(50));
    assert_eq!(accept_loop(AcceptEvent::Failed), AcceptAction::Continue);
}

#[test]
fn accept_loop_ends_only_on_cancellation() {
    assert_eq!(accept_loop(AcceptEvent::Cancelled), AcceptAction::Stop);
    assert_eq!(accept_loop(AcceptEvent::Accepted), AcceptAction::Serve);
    assert_eq!(accept_loop(AcceptEvent::Failed), AcceptAction::Continue);
}

#[test]
fn local_close_hands_back_the_signal() {
    let mut manager = manager_with_session(1);
    open_local(&mut manager, 1, 50);
    let (session, notify) =
        port_forwarding_local_close(&mut manager, SSHSessionId(1), SSHPortForwardingId(50));
    assert_eq!(session, SSHSessionId(1));
    assert_eq!(notify, Some("stop-local"));
    assert_eq!(manager.port_forwardings.len(), 0);
    let (_, notify) =
        port_forwarding_local_close(&mut manager, SSHSessionId(1), SSHPortForwardingId(50));
    assert_eq!(notify, None);
}

#[test]
fn local_close_of_another_kind_removes_without_signal() {
    let mut manager = manager_with_session(1);
    open_dynamic(&mut manager, 1, 60);
    let (_, notify) =
        port_forwarding_local_close(&mut manager, SSHSessionId(1), SSHPortForwardingId(60));
    assert_eq!(notify, None);
    assert!(!manager.port_forwardings.contains_key(60));
}

#[test]
fn finished_loop_removes_its_forwarding() {
    let mut manager = manager_with_session(1);
    open_local(&mut manager, 1, 50);
    open_dynamic(&mut manager, 1, 60);
    port_forwarding_finished(&mut manager, SSHPortForwardingId(50));
    assert!(!manager.port_forwardings.contains_key(50));
    assert!(manager.port_forwardings.contains_key(60));
    port_forwarding_finished(&mut manager, SSHPortForwardingId(50));
    assert_eq!(manager.port_forwardings.len(), 1);
}

#[test]
fn remote_open_asks_the_peer_to_listen() {
    let mut manager = manager_with_session(1);
    assert_eq!(
        open_remote(&mut manager, 1, 70),
        Ok(TcpipForward { address: String::from("0.0.0.0"), port: 9000 })
    );
    assert!(matches!(manager.port_forwardings.get(70), Some(SSHPortForwarding::Remote { .. })));
}

#[test]
fn remote_open_without_session_keeps_the_binding() {
    let mut manager = Manager::init();
    assert_eq!(open_remote(&mut manager, 1, 70), Err(SSHError::NotFoundSession));
    assert!(manager.port_forwardings.contains_key(70));
}

#[test]
fn remote_close_cancels_the_request() {
    let mut manager = manager_with_session(1);
    open_remote(&mut manager, 1, 70).unwrap();
    let r = port_forwarding_remote_close(&mut manager, SSHSessionId(1), SSHPortForwardingId(70));
    assert_eq!(r, Ok(Some(TcpipForward { address: String::from("0.0.0.0"), port: 9000 })));
    assert_eq!(manager.port_forwardings.len(), 0);
    let r = port_forwarding_remote_close(&mut manager, SSHSessionId(1), SSHPortForwardingId(70));
    assert_eq!(r, Ok(None));
}

#[test]
fn remote_close_without_session_is_not_found_and_still_removes() {
    let mut manager = manager_with_session(1);
    open_remote(&mut manager, 1, 70).unwrap();
    session_disconnect(&mut manager, SSHSessionId(1));
    let r = port_forwarding_remote_close(&mut manager, SSHSessionId(1), SSHPortForwardingId(70));
    assert_eq!(r, Err(SSHError::NotFoundSession));
    assert_eq!(manager.port_forwardings.len(), 0);
}

#[test]
fn remote_close_of_another_kind_sends_nothing() {
    let mut manager = manager_with_session(1);
    open_local(&mut manager, 1, 50);
    let r = port_forwarding_remote_close(&mut manager, SSHSessionId(1), SSHPortForwardingId(50));
    assert_eq!(r, Ok(None));
    assert!(!manager.port_forwardings.contains_key(50));
}

#[test]
fn dynamic_open_and_close() {
    let mut manager = manager_with_session(1);
    let id = port_forwarding_dynamic_open(
        &mut manager,
        SSHSessionId(1),
        SSHPortForwardingId(60),
        "stop",
        String::from("127.0.0.1"),
        1080,
    );
    assert_eq!(id, SSHSessionId(1));
    match manager.port_forwardings.get(60) {
        Some(SSHPortForwarding::Dynamic { local_address, local_port, notify, .. }) => {
            assert_eq!(local_address, "127.0.0.1");
            assert_eq!(*local_port, 1080);
            assert_eq!(*notify, "stop");
        }
        _ => panic!("no dynamic forwarding"),
    }
    let (session, notify) =
        port_forwarding_dynamic_close(&mut manager, SSHSessionId(1), SSHPortForwardingId(60));
    assert_eq!(session, SSHSessionId(1));
    assert_eq!(notify, Some("stop"));
    assert_eq!(manager.port_forwardings.len(), 0);
    open_local(&mut manager, 1, 50);
    let (_, notify) =
        port_forwarding_dynamic_close(&mut manager, SSHSessionId(1), SSHPortForwardingId(50));
    assert_eq!(notify, None);
    assert_eq!(manager.port_forwardings.len(), 0);
}

#[test]
fn reopening_under_the_same_id_replaces_the_forwarding() {
    let mut manager = manager_with_session(1);
    open_local(&mut manager, 1, 50);
    open_dynamic(&mut manager, 1, 50);
    assert_eq!(manager.port_forwardings.len(), 1);
    assert!(matches!(manager.port_forwardings.get(50), Some(SSHPortForwarding::Dynamic { .. })));
}

#[test]
fn socks_serves_connect_only() {
    let handler = Handler::new(SSHSessionId(1), String::from("127.0.0.1"), 1080);
    assert!(handler.socks4_allow_command(&Socks4Command::Connect));
    assert!(!handler.socks4_allow_command(&Socks4Command::Bind));
    assert!(handler.socks5_allow_command(&Socks5Command::Connect));
    assert!(!handler.socks5_allow_command(&Socks5Command::Bind));
    assert!(!handler.socks5_allow_command(&Socks5Command::Associate));
}

#[test]
fn socks_asks_for_no_authentication() {
    let handler = Handler::new(SSHSessionId(1), String::from("127.0.0.1"), 1080);
    assert_eq!(handler.negotiate_method(&Vec::new()), Socks5Method::NoAuthentication);
    assert_eq!(
        handler.negotiate_method(&vec![Socks5Method::UserPass, Socks5Method::GssApi]),
        Socks5Method::NoAuthentication
    );
    assert_eq!(
        handler.negotiate_method(&vec![Socks5Method::Private(0x80), Socks5Method::Unacceptable]),
        Socks5Method::NoAuthentication
    );
}

#[test]
fn socks_connect_tunnels_to_the_destination() {
    let manager = manager_with_session(1);
    let handler = Handler::new(SSHSessionId(1), String::from("127.0.0.1"), 1080);
    let destination = SocksAddr { domain: String::from("example.org"), port: 80 };
    let answer = handler.connect(&manager, &destination).unwrap();
    assert_eq!(
        answer.channel,
        DirectTcpip {
            host_to_connect: String::from("example.org"),
            port_to_connect: 80,
            originator_address: String::from("127.0.0.1"),
            originator_port: 1080,
        }
    );
    assert_eq!(answer.bind_address, "0.0.0.0");
    assert_eq!(answer.bind_port, 0);
    assert_eq!(connect_socks(&handler, &manager, &destination), Ok(answer.channel));
}

#[test]
fn socks_connect_without_session_is_not_found() {
    let manager = Manager::init();
    let handler = Handler::new(SSHSessionId(1), String::from("127.0.0.1"), 1080);
    let destination = SocksAddr { domain: String::from("example.org"), port: 80 };
    assert_eq!(handler.connect(&manager, &destination), Err(SSHError::NotFoundSession));
    assert_eq!(connect_socks(&handler, &manager, &destination), Err(SSHError::NotFoundSession));
}
