use vstd::prelude::*;
use crate::channel::{not_owned, owned};
use crate::commands::port_forwarding::SSHPortForwarding;
use crate::commands::session::{
    DisconnectReason,
    SSHSession,
    SSHSessionCheckServerKey,
    SSHSessionId,
    SessionIpcChannelData,
};
use crate::commands::sftp::SSHSftp;
use crate::commands::shell::SSHShell;
use crate::error::SSHError;
use crate::keys::ServerKey;
use crate::registry::{has_id, lookup, without};
use crate::ssh_manager::SSHManager;
use crate::text::{host_port, host_port_string, same_text};

verus! {

/// The client side of one session: what the transport's callbacks need to
/// know to reach their decisions.
#[derive(Debug, Clone, PartialEq, Eq)]
pub struct SSHClient {
    pub ssh_session_id: SSHSessionId,
    pub hostname: String,
    pub port: u16,
    pub jump_host_ssh_session_id: Option<SSHSessionId>,
    pub check_server_key: Option<CheckServerKey>,
}

/// The policy for a server key that the trust store does not know.
#[derive(Debug, Clone, Copy, PartialEq, Eq, Structural)]
pub enum CheckServerKey {
    /// Accept the key for this connection only.
    Continue,
    /// Record the key in the trust store, then accept it.
    AddAndContinue,
}

/// What to do with the key that a server presented.
#[derive(Debug, Clone, Copy, PartialEq, Eq, Structural)]
pub enum ServerKeyAction {
    /// Go on with the handshake.
    Accept,
    /// Record the key in the trust store, then go on with the handshake.
    AddAndAccept,
}

/// How the transport says that a session has ended.
#[derive(Debug, Clone, PartialEq, Eq)]
pub enum ClientDisconnect {
    /// The server sent a disconnect message.
    ReceivedDisconnect,
    /// The transport failed; carries its message.
    Error(String),
}

/// The consumers of an event that arrived on a channel: shells are asked
/// first, file-transfer subsystems only where no shell owns the channel.
pub enum ChannelEof<'a, C, F> {
    Shells(Vec<&'a SSHShell<C>>),
    Sftps(Vec<&'a SSHSftp<F>>),
    /// Nobody owns the channel: the event is dropped.
    Dropped,
}

/// The entries taken out of the registries because their channel was closed.
pub enum ChannelClose<C, F> {
    Shells(Vec<(u128, SSHShell<C>)>),
    Sftps(Vec<(u128, SSHSftp<F>)>),
    /// Nobody owned the channel: the event is dropped.
    Dropped,
}

/// Whether the forwarding is a remote binding of the session for the address
/// and port that the peer connected on.
pub open spec fn binds<N>(
    forwarding: SSHPortForwarding<N>,
    ssh_session_id: SSHSessionId,
    connected_address: Seq<char>,
    connected_port: u32,
) -> bool {
    forwarding matches SSHPortForwarding::Remote {
        ssh_session_id: owner,
        remote_address,
        remote_port,
        ..
    } && owner == ssh_session_id && remote_address@ == connected_address && remote_port as int
        == connected_port as int
}

/// Index of the first binding for the connection, or the number of
/// forwardings where there is none.
pub open spec fn first_binding<N>(
    forwardings: Seq<(u128, SSHPortForwarding<N>)>,
    ssh_session_id: SSHSessionId,
    connected_address: Seq<char>,
    connected_port: u32,
) -> int
    decreases forwardings.len(),
{
    if forwardings.len() == 0 {
        0
    } else if binds(forwardings[0].1, ssh_session_id, connected_address, connected_port) {
        0
    } else {
        1 + first_binding(
            forwardings.skip(1),
            ssh_session_id,
            connected_address,
            connected_port,
        )
    }
}

/// Text of the error for a forwarded connection that no binding expects.
pub open spec fn binding_not_found_message(connected_address: Seq<char>, connected_port: u32) -> Seq<
    char,
> {
    "Remote port forwarding not found: "@ + host_port(connected_address, connected_port as nat)
}

/// The first binding lies within the forwardings or just past them; it
/// binds, and nothing before it does.
pub proof fn lemma_first_binding<N>(
    forwardings: Seq<(u128, SSHPortForwarding<N>)>,
    ssh_session_id: SSHSessionId,
    connected_address: Seq<char>,
    connected_port: u32,
)
    ensures
        0 <= first_binding(forwardings, ssh_session_id, connected_address, connected_port)
            <= forwardings.len(),
        first_binding(forwardings, ssh_session_id, connected_address, connected_port)
            < forwardings.len() ==> binds(
            forwardings[first_binding(
                forwardings,
                ssh_session_id,
                connected_address,
                connected_port,
            )].1,
            ssh_session_id,
            connected_address,
            connected_port,
        ),
        forall|i: int|
            0 <= i < first_binding(forwardings, ssh_session_id, connected_address, connected_port)
                ==> !binds(
                (#[trigger] forwardings[i]).1,
                ssh_session_id,
                connected_address,
                connected_port,
            ),
    decreases forwardings.len(),
{
    if forwardings.len() > 0 && !binds(
        forwardings[0].1,
        ssh_session_id,
        connected_address,
        connected_port,
    ) {
        let rest = forwardings.skip(1);
        lemma_first_binding(rest, ssh_session_id, connected_address, connected_port);
        let k = first_binding(rest, ssh_session_id, connected_address, connected_port);
        if k < rest.len() {
            assert(rest[k] == forwardings[k + 1]);
        }
        assert forall|i: int|
            0 <= i < first_binding(
                forwardings,
                ssh_session_id,
                connected_address,
                connected_port,
            ) implies !binds(
            (#[trigger] forwardings[i]).1,
            ssh_session_id,
            connected_address,
            connected_port,
        ) by {
            if i > 0 {
                assert(rest[i - 1] == forwardings[i]);
            }
        }
    }
}

impl SSHClient {
    /// The handler of a session that is about to connect. The policy that
    /// the connect command carries becomes the handler's own.
    pub fn new(
        ssh_session_id: SSHSessionId,
        hostname: String,
        port: u16,
        jump_host_ssh_session_id: Option<SSHSessionId>,
        check_server_key: Option<SSHSessionCheckServerKey>,
    ) -> (client: Self)
        ensures
            client.ssh_session_id == ssh_session_id,
            client.hostname == hostname,
            client.port == port,
            client.jump_host_ssh_session_id == jump_host_ssh_session_id,
            client.check_server_key == match check_server_key {
                Some(SSHSessionCheckServerKey::Continue) => Some(CheckServerKey::Continue),
                Some(SSHSessionCheckServerKey::AddAndContinue) => Some(
                    CheckServerKey::AddAndContinue,
                ),
                None => None,
            },
    {
        let check_server_key = match check_server_key {
            Some(SSHSessionCheckServerKey::Continue) => Some(CheckServerKey::Continue),
            Some(SSHSessionCheckServerKey::AddAndContinue) => Some(CheckServerKey::AddAndContinue),
            None => None,
        };
        SSHClient { ssh_session_id, hostname, port, jump_host_ssh_session_id, check_server_key }
    }

    /// Decides on the key that the server presented. `known` says whether the
    /// trust store holds this key for the server's host and port. A known key
    /// is accepted. An unknown key is settled by the policy the caller gave:
    /// accepted as it is, or recorded and accepted; without a policy the
    /// handshake fails with the key's algorithm and fingerprint, so that the
    /// caller can decide and connect again.
    pub fn check_server_key(&self, known: bool, server_public_key: &ServerKey) -> (r: Result<
        ServerKeyAction,
        SSHError,
    >)
        ensures
            known ==> r == Ok::<ServerKeyAction, SSHError>(ServerKeyAction::Accept),
            !known ==> match self.check_server_key {
                Some(CheckServerKey::Continue) => r == Ok::<ServerKeyAction, SSHError>(
                    ServerKeyAction::Accept,
                ),
                Some(CheckServerKey::AddAndContinue) => r == Ok::<
                    ServerKeyAction,
                    SSHError,
                >(ServerKeyAction::AddAndAccept),
                None => r matches Err(SSHError::UnknownKey { algorithm, fingerprint })
                    && algorithm@ == server_public_key.algorithm@ && fingerprint@
                    == server_public_key.fingerprint@,
            },
    {
        if known {
            return Ok(ServerKeyAction::Accept);
        }
        match self.check_server_key {
            Some(CheckServerKey::Continue) => Ok(ServerKeyAction::Accept),
            Some(CheckServerKey::AddAndContinue) => Ok(ServerKeyAction::AddAndAccept),
            None => Err(
                SSHError::UnknownKey {
                    algorithm: server_public_key.algorithm.clone(),
                    fingerprint: server_public_key.fingerprint.clone(),
                },
            ),
        }
    }

    /// The shells to which data that arrived on a channel of this session is
    /// delivered; none means that the data is dropped.
    pub fn data<'a, H, C, F, N>(
        &self,
        ssh_manager: &'a SSHManager<H, C, F, N>,
        channel_id: u32,
    ) -> (shells: Vec<&'a SSHShell<C>>)
        ensures
            shells@.len() == owned(ssh_manager.shells@, self.ssh_session_id, channel_id).len(),
            forall|i: int|
                0 <= i < shells@.len() ==> *shells@[i] == owned(
                    ssh_manager.shells@,
                    self.ssh_session_id,
                    channel_id,
                )[i].1,
    {
        ssh_manager.shell_channel_data(self.ssh_session_id, channel_id)
    }

    /// The consumers to which the end of input on a channel of this session
    /// is reported: the shells of the channel, or, where no shell owns it,
    /// its file-transfer subsystems.
    pub fn channel_eof<'a, H, C, F, N>(
        &self,
        ssh_manager: &'a SSHManager<H, C, F, N>,
        channel_id: u32,
    ) -> (r: ChannelEof<'a, C, F>)
        ensures
            ({
                let shells = owned(ssh_manager.shells@, self.ssh_session_id, channel_id);
                let sftps = owned(ssh_manager.sftps@, self.ssh_session_id, channel_id);
                if shells.len() > 0 {
                    r matches ChannelEof::Shells(found) && found@.len() == shells.len() && forall|
                        i: int,
                    |
                        0 <= i < found@.len() ==> *found@[i] == shells[i].1
                } else if sftps.len() > 0 {
                    r matches ChannelEof::Sftps(found) && found@.len() == sftps.len() && forall|
                        i: int,
                    |
                        0 <= i < found@.len() ==> *found@[i] == sftps[i].1
                } else {
                    r is Dropped
                }
            }),
    {
        let shells = ssh_manager.shell_channel_eof(self.ssh_session_id, channel_id);
        if shells.len() > 0 {
            return ChannelEof::Shells(shells);
        }
        let sftps = ssh_manager.sftp_channel_eof(self.ssh_session_id, channel_id);
        if sftps.len() > 0 {
            return ChannelEof::Sftps(sftps);
        }
        ChannelEof::Dropped
    }

    /// Takes the owners of a channel that the peer closed out of their
    /// registry, so that the close can be reported to each: the shells of the
    /// channel, or, where no shell owns it, its file-transfer subsystems.
    /// Sessions and forwardings are left alone.
    pub fn channel_close<H, C, F, N>(
        &self,
        ssh_manager: &mut SSHManager<H, C, F, N>,
        channel_id: u32,
    ) -> (r: ChannelClose<C, F>)
        ensures
            final(ssh_manager).sessions == old(ssh_manager).sessions,
            final(ssh_manager).port_forwardings == old(ssh_manager).port_forwardings,
            final(ssh_manager).shells@ == not_owned(
                old(ssh_manager).shells@,
                self.ssh_session_id,
                channel_id,
            ),
            ({
                let shells = owned(old(ssh_manager).shells@, self.ssh_session_id, channel_id);
                let sftps = owned(old(ssh_manager).sftps@, self.ssh_session_id, channel_id);
                if shells.len() > 0 {
                    &&& r matches ChannelClose::Shells(closed) && closed@ == shells
                    &&& final(ssh_manager).sftps == old(ssh_manager).sftps
                } else {
                    &&& final(ssh_manager).sftps@ == not_owned(
                        old(ssh_manager).sftps@,
                        self.ssh_session_id,
                        channel_id,
                    )
                    &&& if sftps.len() > 0 {
                        r matches ChannelClose::Sftps(closed) && closed@ == sftps
                    } else {
                        r is Dropped
                    }
                }
            }),
    {
        let shells = ssh_manager.shell_channel_close(self.ssh_session_id, channel_id);
        if shells.len() > 0 {
            return ChannelClose::Shells(shells);
        }
        let sftps = ssh_manager.sftp_channel_close(self.ssh_session_id, channel_id);
        if sftps.len() > 0 {
            return ChannelClose::Sftps(sftps);
        }
        ChannelClose::Dropped
    }

    /// Answers a connection that the peer forwards to this session: the local
    /// address, as `address:port`, to dial and splice with the channel, taken
    /// from the first registered remote binding of this session for the
    /// address and port that the peer connected on. Without such a binding
    /// the connection is refused.
    pub fn server_channel_open_forwarded_tcpip<H, C, F, N>(
        &self,
        ssh_manager: &SSHManager<H, C, F, N>,
        connected_address: &str,
        connected_port: u32,
    ) -> (r: Result<String, SSHError>)
        ensures
            ({
                let forwardings = ssh_manager.port_forwardings@;
                let k = first_binding(
                    forwardings,
                    self.ssh_session_id,
                    connected_address@,
                    connected_port,
                );
                if k < forwardings.len() {
                    r matches Ok(addr) && addr@ == host_port(
                        forwardings[k].1->Remote_local_address@,
                        forwardings[k].1->Remote_local_port as nat,
                    )
                } else {
                    r matches Err(SSHError::Error(m)) && m@ == binding_not_found_message(
                        connected_address@,
                        connected_port,
                    )
                }
            }),
    {
        let n = ssh_manager.port_forwardings.len();
        let mut i: usize = 0;
        proof {
            assert(ssh_manager.port_forwardings@.skip(0) =~= ssh_manager.port_forwardings@);
        }
        while i < n
            invariant
                n == ssh_manager.port_forwardings@.len(),
                i <= n,
                first_binding(
                    ssh_manager.port_forwardings@,
                    self.ssh_session_id,
                    connected_address@,
                    connected_port,
                ) == i + first_binding(
                    ssh_manager.port_forwardings@.skip(i as int),
                    self.ssh_session_id,
                    connected_address@,
                    connected_port,
                ),
            decreases n - i,
        {
            proof {
                let rest = ssh_manager.port_forwardings@.skip(i as int);
                assert(rest[0] == ssh_manager.port_forwardings@[i as int]);
                assert(rest.skip(1) =~= ssh_manager.port_forwardings@.skip(i as int + 1));
            }
            match ssh_manager.port_forwardings.entry_at(i) {
                SSHPortForwarding::Remote {
                    ssh_session_id,
                    local_address,
                    local_port,
                    remote_address,
                    remote_port,
                    ..
                } => {
                    if *ssh_session_id == self.ssh_session_id && same_text(
                        remote_address.as_str(),
                        connected_address,
                    ) && *remote_port as u32 == connected_port {
                        return Ok(host_port_string(local_address.as_str(), *local_port as u32));
                    }
                },
                _ => {},
            }
            i += 1;
        }
        proof {
            assert(ssh_manager.port_forwardings@.skip(n as int) =~= Seq::<
                (u128, SSHPortForwarding<N>),
            >::empty());
        }
        let mut message = String::from_str("Remote port forwarding not found: ");
        let target = host_port_string(connected_address, connected_port);
        message.append(target.as_str());
        Err(SSHError::Error(message))
    }

    /// Takes note that the transport of this session has ended. The session
    /// is removed from the registry and handed back with the final event for
    /// its sink: a disconnect by the server, or one by an error with the
    /// transport's message. Where the session is not registered any more
    /// there is nothing to report. Shells, file-transfer subsystems and
    /// forwardings are left alone.
    pub fn disconnected<H, C, F, N>(
        &self,
        ssh_manager: &mut SSHManager<H, C, F, N>,
        reason: ClientDisconnect,
    ) -> (r: Option<(SSHSession<H>, SessionIpcChannelData)>)
        ensures
            final(ssh_manager).sessions@ == without(
                old(ssh_manager).sessions@,
                self.ssh_session_id.0,
            ),
            !has_id(final(ssh_manager).sessions@, self.ssh_session_id.0),
            final(ssh_manager).shells == old(ssh_manager).shells,
            final(ssh_manager).sftps == old(ssh_manager).sftps,
            final(ssh_manager).port_forwardings == old(ssh_manager).port_forwardings,
            r is Some <==> has_id(old(ssh_manager).sessions@, self.ssh_session_id.0),
            r matches Some(report) ==> report.0 == lookup(
                old(ssh_manager).sessions@,
                self.ssh_session_id.0,
            ) && report.1 == SessionIpcChannelData::Disconnect(
                match reason {
                    ClientDisconnect::ReceivedDisconnect => DisconnectReason::Server,
                    ClientDisconnect::Error(message) => DisconnectReason::Error(message),
                },
            ),
    {
        match ssh_manager.sessions.remove(self.ssh_session_id.0) {
            Some(session) => {
                let event = match reason {
                    ClientDisconnect::ReceivedDisconnect => SessionIpcChannelData::Disconnect(
                        DisconnectReason::Server,
                    ),
                    ClientDisconnect::Error(message) => SessionIpcChannelData::Disconnect(
                        DisconnectReason::Error(message),
                    ),
                };
                Some((session, event))
            },
            None => None,
        }
    }
}

} // verus!
