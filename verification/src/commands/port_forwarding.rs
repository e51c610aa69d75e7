use vstd::prelude::*;
use crate::commands::session::SSHSessionId;
use crate::error::SSHError;
use crate::registry::{has_id, lookup, put, without, Registry};
use crate::ssh_manager::SSHManager;

verus! {

/// Caller-chosen key of a forwarding.
#[derive(Debug, Clone, Copy, PartialEq, Eq, Structural, Hash)]
pub struct SSHPortForwardingId(pub u128);

/// One forwarding and the session it belongs to. A local or dynamic
/// forwarding carries in `notify` whatever stops its accept loop; a remote
/// forwarding is the binding that inbound connections are matched against.
pub enum SSHPortForwarding<N> {
    Local {
        ssh_port_forwarding_id: SSHPortForwardingId,
        ssh_session_id: SSHSessionId,
        notify: N,
        local_address: String,
        local_port: u16,
        remote_address: String,
        remote_port: u16,
    },
    Remote {
        ssh_port_forwarding_id: SSHPortForwardingId,
        ssh_session_id: SSHSessionId,
        local_address: String,
        local_port: u16,
        remote_address: String,
        remote_port: u16,
    },
    Dynamic {
        ssh_port_forwarding_id: SSHPortForwardingId,
        ssh_session_id: SSHSessionId,
        notify: N,
        local_address: String,
        local_port: u16,
    },
}

/// The registry of forwardings.
pub type PortForwardings<N> = Registry<SSHPortForwarding<N>>;

/// A request to open a direct-tcpip channel: the peer is asked to connect to
/// `host_to_connect:port_to_connect` on behalf of the originator.
#[derive(Debug, Clone, PartialEq, Eq)]
pub struct DirectTcpip {
    pub host_to_connect: String,
    pub port_to_connect: u32,
    pub originator_address: String,
    pub originator_port: u32,
}

/// A request to the peer to listen on an address and forward what arrives,
/// or to stop doing so.
#[derive(Debug, Clone, PartialEq, Eq)]
pub struct TcpipForward {
    pub address: String,
    pub port: u32,
}

/// Registers a local forwarding and returns the session's id. The caller
/// then binds the listener on `local_address:local_port` and accepts until
/// `notify` fires. Sessions, shells and file-transfer subsystems are left
/// alone; whether the session exists is found out per connection.
pub fn port_forwarding_local_open<H, C, F, N>(
    ssh_manager: &mut SSHManager<H, C, F, N>,
    ssh_session_id: SSHSessionId,
    ssh_port_forwarding_id: SSHPortForwardingId,
    notify: N,
    local_address: String,
    local_port: u16,
    remote_address: String,
    remote_port: u16,
) -> (id: SSHSessionId)
    ensures
        id == ssh_session_id,
        final(ssh_manager).port_forwardings@ == put(
            old(ssh_manager).port_forwardings@,
            ssh_port_forwarding_id.0,
            SSHPortForwarding::Local {
                ssh_port_forwarding_id,
                ssh_session_id,
                notify,
                local_address,
                local_port,
                remote_address,
                remote_port,
            },
        ),
        has_id(final(ssh_manager).port_forwardings@, ssh_port_forwarding_id.0),
        final(ssh_manager).sessions == old(ssh_manager).sessions,
        final(ssh_manager).shells == old(ssh_manager).shells,
        final(ssh_manager).sftps == old(ssh_manager).sftps,
{
    ssh_manager.port_forwardings.insert(
        ssh_port_forwarding_id.0,
        SSHPortForwarding::Local {
            ssh_port_forwarding_id,
            ssh_session_id,
            notify,
            local_address,
            local_port,
            remote_address,
            remote_port,
        },
    );
    ssh_session_id
}

/// The channel to open for a connection that a local forwarding's listener
/// accepted from `peer_address:peer_port`: towards the forwarding's remote
/// end, on the owning session, which must be registered. A failure here
/// concerns this connection only.
pub fn port_forwarding_local_accept<H, C, F, N>(
    ssh_manager: &SSHManager<H, C, F, N>,
    ssh_session_id: SSHSessionId,
    remote_address: &str,
    remote_port: u16,
    peer_address: &str,
    peer_port: u16,
) -> (r: Result<DirectTcpip, SSHError>)
    ensures
        !has_id(ssh_manager.sessions@, ssh_session_id.0) ==> r == Err::<DirectTcpip, SSHError>(
            SSHError::NotFoundSession,
        ),
        has_id(ssh_manager.sessions@, ssh_session_id.0) ==> (r matches Ok(request) && {
            &&& request.host_to_connect@ == remote_address@
            &&& request.port_to_connect == remote_port
            &&& request.originator_address@ == peer_address@
            &&& request.originator_port == peer_port
        }),
{
    if !ssh_manager.sessions.contains_key(ssh_session_id.0) {
        return Err(SSHError::NotFoundSession);
    }
    Ok(
        DirectTcpip {
            host_to_connect: String::from_str(remote_address),
            port_to_connect: remote_port as u32,
            originator_address: String::from_str(peer_address),
            originator_port: peer_port as u32,
        },
    )
}

/// What the accept loop of a local or dynamic forwarding meets.
#[derive(Debug, Clone, Copy, PartialEq, Eq, Structural)]
pub enum AcceptEvent {
    /// The forwarding's cancellation signal fired.
    Cancelled,
    /// The listener handed over a connection.
    Accepted,
    /// The listener failed to hand over a connection.
    Failed,
}

/// What the accept loop does next.
#[derive(Debug, Clone, Copy, PartialEq, Eq, Structural)]
pub enum AcceptAction {
    /// Leave the loop and remove the forwarding.
    Stop,
    /// Serve the connection on a task of its own, and go on accepting.
    Serve,
    /// Go on accepting.
    Continue,
}

/// One turn of an accept loop. Only cancellation ends the loop: a failed
/// accept is passed over, and a connection is served beside the loop, which
/// never waits for it nor learns how it ended.
pub fn accept_loop(event: AcceptEvent) -> (action: AcceptAction)
    ensures
        action == match event {
            AcceptEvent::Cancelled => AcceptAction::Stop,
            AcceptEvent::Accepted => AcceptAction::Serve,
            AcceptEvent::Failed => AcceptAction::Continue,
        },
{
    match event {
        AcceptEvent::Cancelled => AcceptAction::Stop,
        AcceptEvent::Accepted => AcceptAction::Serve,
        AcceptEvent::Failed => AcceptAction::Continue,
    }
}

/// Removes the forwarding when its accept loop has ended.
pub fn port_forwarding_finished<H, C, F, N>(
    ssh_manager: &mut SSHManager<H, C, F, N>,
    ssh_port_forwarding_id: SSHPortForwardingId,
)
    ensures
        final(ssh_manager).port_forwardings@ == without(
            old(ssh_manager).port_forwardings@,
            ssh_port_forwarding_id.0,
        ),
        !has_id(final(ssh_manager).port_forwardings@, ssh_port_forwarding_id.0),
        final(ssh_manager).sessions == old(ssh_manager).sessions,
        final(ssh_manager).shells == old(ssh_manager).shells,
        final(ssh_manager).sftps == old(ssh_manager).sftps,
{
    ssh_manager.port_forwardings.remove(ssh_port_forwarding_id.0);
}

/// Removes the forwarding, whatever its kind, and hands back the signal that
/// stops its accept loop where it was a local one. Connections already
/// spliced are not touched.
pub fn port_forwarding_local_close<H, C, F, N>(
    ssh_manager: &mut SSHManager<H, C, F, N>,
    ssh_session_id: SSHSessionId,
    ssh_port_forwarding_id: SSHPortForwardingId,
) -> (r: (SSHSessionId, Option<N>))
    ensures
        r.0 == ssh_session_id,
        final(ssh_manager).port_forwardings@ == without(
            old(ssh_manager).port_forwardings@,
            ssh_port_forwarding_id.0,
        ),
        !has_id(final(ssh_manager).port_forwardings@, ssh_port_forwarding_id.0),
        r.1 is Some <==> has_id(old(ssh_manager).port_forwardings@, ssh_port_forwarding_id.0)
            && lookup(old(ssh_manager).port_forwardings@, ssh_port_forwarding_id.0) is Local,
        r.1 is Some ==> r.1->0 == lookup(
            old(ssh_manager).port_forwardings@,
            ssh_port_forwarding_id.0,
        )->Local_notify,
        final(ssh_manager).sessions == old(ssh_manager).sessions,
        final(ssh_manager).shells == old(ssh_manager).shells,
        final(ssh_manager).sftps == old(ssh_manager).sftps,
{
    match ssh_manager.port_forwardings.remove(ssh_port_forwarding_id.0) {
        Some(SSHPortForwarding::Local { notify, .. }) => (ssh_session_id, Some(notify)),
        _ => (ssh_session_id, None),
    }
}

/// Registers a remote forwarding, then asks for the request to put to the
/// owning session: that the peer listen on `remote_address:remote_port`. The
/// binding is registered first and stays registered where the session is
/// unknown.
pub fn port_forwarding_remote_open<H, C, F, N>(
    ssh_manager: &mut SSHManager<H, C, F, N>,
    ssh_session_id: SSHSessionId,
    ssh_port_forwarding_id: SSHPortForwardingId,
    local_address: String,
    local_port: u16,
    remote_address: String,
    remote_port: u16,
) -> (r: Result<TcpipForward, SSHError>)
    ensures
        final(ssh_manager).port_forwardings@ == put(
            old(ssh_manager).port_forwardings@,
            ssh_port_forwarding_id.0,
            SSHPortForwarding::Remote {
                ssh_port_forwarding_id,
                ssh_session_id,
                local_address,
                local_port,
                remote_address,
                remote_port,
            },
        ),
        has_id(final(ssh_manager).port_forwardings@, ssh_port_forwarding_id.0),
        final(ssh_manager).sessions == old(ssh_manager).sessions,
        final(ssh_manager).shells == old(ssh_manager).shells,
        final(ssh_manager).sftps == old(ssh_manager).sftps,
        !has_id(old(ssh_manager).sessions@, ssh_session_id.0) ==> r == Err::<
            TcpipForward,
            SSHError,
        >(SSHError::NotFoundSession),
        has_id(old(ssh_manager).sessions@, ssh_session_id.0) ==> (r matches Ok(request)
            && request.address@ == remote_address@ && request.port == remote_port),
{
    let address = remote_address.clone();
    ssh_manager.port_forwardings.insert(
        ssh_port_forwarding_id.0,
        SSHPortForwarding::Remote {
            ssh_port_forwarding_id,
            ssh_session_id,
            local_address,
            local_port,
            remote_address,
            remote_port,
        },
    );
    if !ssh_manager.sessions.contains_key(ssh_session_id.0) {
        return Err(SSHError::NotFoundSession);
    }
    Ok(TcpipForward { address, port: remote_port as u32 })
}

/// Removes the forwarding, whatever its kind. Where it was a remote one the
/// peer has to be told to stop listening: the answer is the request to put
/// to the session, or the not-found error where the session is unknown.
/// Where it was of another kind, or unknown, nothing is to be sent.
pub fn port_forwarding_remote_close<H, C, F, N>(
    ssh_manager: &mut SSHManager<H, C, F, N>,
    ssh_session_id: SSHSessionId,
    ssh_port_forwarding_id: SSHPortForwardingId,
) -> (r: Result<Option<TcpipForward>, SSHError>)
    ensures
        final(ssh_manager).port_forwardings@ == without(
            old(ssh_manager).port_forwardings@,
            ssh_port_forwarding_id.0,
        ),
        !has_id(final(ssh_manager).port_forwardings@, ssh_port_forwarding_id.0),
        final(ssh_manager).sessions == old(ssh_manager).sessions,
        final(ssh_manager).shells == old(ssh_manager).shells,
        final(ssh_manager).sftps == old(ssh_manager).sftps,
        ({
            let forwardings = old(ssh_manager).port_forwardings@;
            let id = ssh_port_forwarding_id.0;
            if has_id(forwardings, id) && lookup(forwardings, id) is Remote {
                if has_id(old(ssh_manager).sessions@, ssh_session_id.0) {
                    r matches Ok(Some(request)) && request.address@ == lookup(
                        forwardings,
                        id,
                    )->Remote_remote_address@ && request.port == lookup(
                        forwardings,
                        id,
                    )->Remote_remote_port
                } else {
                    r == Err::<Option<TcpipForward>, SSHError>(SSHError::NotFoundSession)
                }
            } else {
                r == Ok::<Option<TcpipForward>, SSHError>(None)
            }
        }),
{
    match ssh_manager.port_forwardings.remove(ssh_port_forwarding_id.0) {
        Some(SSHPortForwarding::Remote { remote_address, remote_port, .. }) => {
            if !ssh_manager.sessions.contains_key(ssh_session_id.0) {
                return Err(SSHError::NotFoundSession);
            }
            Ok(Some(TcpipForward { address: remote_address, port: remote_port as u32 }))
        },
        _ => Ok(None),
    }
}

/// Registers a dynamic forwarding and returns the session's id. The caller
/// then binds the listener on `local_address:local_port` and hands each
/// accepted connection to the SOCKS negotiation until `notify` fires.
pub fn port_forwarding_dynamic_open<H, C, F, N>(
    ssh_manager: &mut SSHManager<H, C, F, N>,
    ssh_session_id: SSHSessionId,
    ssh_port_forwarding_id: SSHPortForwardingId,
    notify: N,
    local_address: String,
    local_port: u16,
) -> (id: SSHSessionId)
    ensures
        id == ssh_session_id,
        final(ssh_manager).port_forwardings@ == put(
            old(ssh_manager).port_forwardings@,
            ssh_port_forwarding_id.0,
            SSHPortForwarding::Dynamic {
                ssh_port_forwarding_id,
                ssh_session_id,
                notify,
                local_address,
                local_port,
            },
        ),
        has_id(final(ssh_manager).port_forwardings@, ssh_port_forwarding_id.0),
        final(ssh_manager).sessions == old(ssh_manager).sessions,
        final(ssh_manager).shells == old(ssh_manager).shells,
        final(ssh_manager).sftps == old(ssh_manager).sftps,
{
    ssh_manager.port_forwardings.insert(
        ssh_port_forwarding_id.0,
        SSHPortForwarding::Dynamic {
            ssh_port_forwarding_id,
            ssh_session_id,
            notify,
            local_address,
            local_port,
        },
    );
    ssh_session_id
}

/// Removes the forwarding, whatever its kind, and hands back the signal that
/// stops its accept loop where it was a dynamic one.
pub fn port_forwarding_dynamic_close<H, C, F, N>(
    ssh_manager: &mut SSHManager<H, C, F, N>,
    ssh_session_id: SSHSessionId,
    ssh_port_forwarding_id: SSHPortForwardingId,
) -> (r: (SSHSessionId, Option<N>))
    ensures
        r.0 == ssh_session_id,
        final(ssh_manager).port_forwardings@ == without(
            old(ssh_manager).port_forwardings@,
            ssh_port_forwarding_id.0,
        ),
        !has_id(final(ssh_manager).port_forwardings@, ssh_port_forwarding_id.0),
        r.1 is Some <==> has_id(old(ssh_manager).port_forwardings@, ssh_port_forwarding_id.0)
            && lookup(old(ssh_manager).port_forwardings@, ssh_port_forwarding_id.0) is Dynamic,
        r.1 is Some ==> r.1->0 == lookup(
            old(ssh_manager).port_forwardings@,
            ssh_port_forwarding_id.0,
        )->Dynamic_notify,
        final(ssh_manager).sessions == old(ssh_manager).sessions,
        final(ssh_manager).shells == old(ssh_manager).shells,
        final(ssh_manager).sftps == old(ssh_manager).sftps,
{
    match ssh_manager.port_forwardings.remove(ssh_port_forwarding_id.0) {
        Some(SSHPortForwarding::Dynamic { notify, .. }) => (ssh_session_id, Some(notify)),
        _ => (ssh_session_id, None),
    }
}

/// The commands of a SOCKS4 request.
#[derive(Debug, Clone, Copy, PartialEq, Eq, Structural)]
pub enum Socks4Command {
    Connect,
    Bind,
}

/// The commands of a SOCKS5 request.
#[derive(Debug, Clone, Copy, PartialEq, Eq, Structural)]
pub enum Socks5Command {
    Connect,
    Bind,
    Associate,
}

/// The authentication methods that a SOCKS5 client can offer.
#[derive(Debug, Clone, Copy, PartialEq, Eq, Structural)]
pub enum Socks5Method {
    /// No authentication required.
    NoAuthentication,
    GssApi,
    UserPass,
    IanaAssigned(u8),
    Private(u8),
    Unacceptable,
}

/// The destination that a SOCKS client asks for.
#[derive(Debug, Clone, PartialEq, Eq)]
pub struct SocksAddr {
    /// A domain name, or an address in text form.
    pub domain: String,
    pub port: u16,
}

/// What to answer a SOCKS client whose connection was made.
#[derive(Debug, Clone, PartialEq, Eq)]
pub struct SocksConnect {
    /// The channel to open towards the destination.
    pub channel: DirectTcpip,
    /// The bound address named in the reply that grants the request.
    pub bind_address: String,
    pub bind_port: u16,
}

/// The responder for the connections of one dynamic forwarding: it belongs
/// to a session and knows the local address that the client connected to.
#[derive(Debug, Clone, PartialEq, Eq)]
pub struct Handler {
    pub ssh_session_id: SSHSessionId,
    pub local_address: String,
    pub local_port: u16,
}

impl Handler {
    pub fn new(ssh_session_id: SSHSessionId, local_address: String, local_port: u16) -> (handler:
        Self)
        ensures
            handler == (Handler { ssh_session_id, local_address, local_port }),
    {
        Handler { ssh_session_id, local_address, local_port }
    }

    /// A SOCKS4 request is served only where it asks to connect.
    pub fn socks4_allow_command(&self, command: &Socks4Command) -> (allowed: bool)
        ensures
            allowed == (*command == Socks4Command::Connect),
    {
        match command {
            Socks4Command::Connect => true,
            Socks4Command::Bind => false,
        }
    }

    /// A SOCKS5 request is served only where it asks to connect.
    pub fn socks5_allow_command(&self, command: &Socks5Command) -> (allowed: bool)
        ensures
            allowed == (*command == Socks5Command::Connect),
    {
        match command {
            Socks5Command::Connect => true,
            Socks5Command::Bind => false,
            Socks5Command::Associate => false,
        }
    }

    /// Whatever the client offers, no authentication is asked for.
    pub fn negotiate_method(&self, methods: &Vec<Socks5Method>) -> (method: Socks5Method)
        ensures
            method == Socks5Method::NoAuthentication,
    {
        Socks5Method::NoAuthentication
    }

    /// Serves a request to connect to `dest_addr`: a direct-tcpip channel is
    /// to be opened on the owning session, which must be registered, towards
    /// the destination and in the name of the local address; the client is
    /// then told that its request is granted, with the bound address
    /// `0.0.0.0:0`.
    pub fn connect<H, C, F, N>(
        &self,
        ssh_manager: &SSHManager<H, C, F, N>,
        dest_addr: &SocksAddr,
    ) -> (r: Result<SocksConnect, SSHError>)
        ensures
            !has_id(ssh_manager.sessions@, self.ssh_session_id.0) ==> r == Err::<
                SocksConnect,
                SSHError,
            >(SSHError::NotFoundSession),
            has_id(ssh_manager.sessions@, self.ssh_session_id.0) ==> (r matches Ok(answer) && {
                &&& answer.channel.host_to_connect@ == dest_addr.domain@
                &&& answer.channel.port_to_connect == dest_addr.port
                &&& answer.channel.originator_address@ == self.local_address@
                &&& answer.channel.originator_port == self.local_port
                &&& answer.bind_address@ == "0.0.0.0"@
                &&& answer.bind_port == 0
            }),
    {
        match connect_socks(self, ssh_manager, dest_addr) {
            Ok(channel) => Ok(
                SocksConnect { channel, bind_address: String::from_str("0.0.0.0"), bind_port: 0 },
            ),
            Err(error) => Err(error),
        }
    }
}

/// The channel to open for a SOCKS client that asks for `address`: on the
/// responder's session, which must be registered, towards that address and
/// in the name of the local address that the client connected to.
pub fn connect_socks<H, C, F, N>(
    handler: &Handler,
    ssh_manager: &SSHManager<H, C, F, N>,
    address: &SocksAddr,
) -> (r: Result<DirectTcpip, SSHError>)
    ensures
        !has_id(ssh_manager.sessions@, handler.ssh_session_id.0) ==> r == Err::<
            DirectTcpip,
            SSHError,
        >(SSHError::NotFoundSession),
        has_id(ssh_manager.sessions@, handler.ssh_session_id.0) ==> (r matches Ok(request) && {
            &&& request.host_to_connect@ == address.domain@
            &&& request.port_to_connect == address.port
            &&& request.originator_address@ == handler.local_address@
            &&& request.originator_port == handler.local_port
        }),
{
    if !ssh_manager.sessions.contains_key(handler.ssh_session_id.0) {
        return Err(SSHError::NotFoundSession);
    }
    Ok(
        DirectTcpip {
            host_to_connect: address.domain.clone(),
            port_to_connect: address.port as u32,
            originator_address: handler.local_address.clone(),
            originator_port: handler.local_port as u32,
        },
    )
}

} // verus!
