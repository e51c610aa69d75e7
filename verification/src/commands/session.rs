use vstd::prelude::*;
use crate::error::{AuthenticationError, KeyboardInteractiveData, MethodKind, SSHError};
use crate::keys::{certificate_error, decode_private_key, parse_certificate, private_key_error};
use crate::registry::{distinct_ids, has_id, lemma_put, lemma_without, lookup, put, without, Registry};
use crate::ssh_manager::SSHManager;
use crate::text::{host_port, host_port_string};

verus! {

/// Seconds within which connect, authenticate and shell-open must finish.
pub const COMMAND_TIMEOUT_SECS: u64 = 5;

/// Caller-chosen key of a session.
#[derive(Debug, Clone, Copy, PartialEq, Eq, Structural, Hash)]
pub struct SSHSessionId(pub u128);

/// Why a session ended without the caller asking for it.
#[derive(Debug, Clone, PartialEq, Eq)]
pub enum DisconnectReason {
    /// The server closed the session.
    Server,
    /// The transport failed; carries its message.
    Error(String),
}

/// What a session reports to its caller while it lives.
#[derive(Debug, Clone, PartialEq, Eq)]
pub enum SessionIpcChannelData {
    Disconnect(DisconnectReason),
}

/// What to do with a server key that the trust store does not know.
#[derive(Debug, Clone, Copy, PartialEq, Eq, Structural)]
pub enum SSHSessionCheckServerKey {
    /// Accept the key for this connection only.
    Continue,
    /// Record the key in the trust store, then accept it.
    AddAndContinue,
}

/// The credentials of one authentication attempt.
#[derive(Debug, Clone, PartialEq, Eq)]
pub enum AuthenticationData {
    Password { password: String },
    PublicKey { private_key: String, passphrase: Option<String> },
    Certificate { private_key: String, passphrase: Option<String>, certificate: String },
    /// Without responses the exchange is started; with responses the
    /// server's pending prompts are answered.
    KeyboardInteractive { responses: Option<Vec<String>> },
}

/// The four ways to authenticate.
#[derive(Debug, Clone, Copy, PartialEq, Eq, Structural)]
pub enum AuthenticationMethod {
    Password,
    PublicKey,
    Certificate,
    KeyboardInteractive,
}

/// One authenticated transport and what the engine knows of it. `handle` is
/// whatever the caller needs to drive the transport and to reach the
/// session's event sink.
pub struct SSHSession<H> {
    pub ssh_session_id: SSHSessionId,
    pub hostname: String,
    pub port: u16,
    pub jump_host_ssh_session_id: Option<SSHSessionId>,
    pub closed: bool,
    pub authenticated: bool,
    pub handle: H,
}

/// The registry of live sessions.
pub type Sessions<H> = Registry<SSHSession<H>>;

impl<H> SSHSession<H> {
    /// A session that has just finished its handshake: open, not yet
    /// authenticated.
    pub fn new(
        ssh_session_id: SSHSessionId,
        hostname: String,
        port: u16,
        jump_host_ssh_session_id: Option<SSHSessionId>,
        handle: H,
    ) -> (session: Self)
        ensures
            session.ssh_session_id == ssh_session_id,
            session.hostname == hostname,
            session.port == port,
            session.jump_host_ssh_session_id == jump_host_ssh_session_id,
            !session.closed,
            !session.authenticated,
            session.handle == handle,
    {
        SSHSession {
            ssh_session_id,
            hostname,
            port,
            jump_host_ssh_session_id,
            closed: false,
            authenticated: false,
            handle,
        }
    }
}

/// Settings of the transport of every session.
#[derive(Debug, Clone, Copy, PartialEq, Eq, Structural)]
pub struct ClientConfig {
    pub inactivity_timeout_secs: u64,
    pub keepalive_interval_secs: u64,
    pub window_size: u32,
    pub maximum_packet_size: u32,
    pub channel_buffer_size: usize,
    pub nodelay: bool,
}

/// The settings every session is connected with: half an hour of allowed
/// silence, a keepalive every five seconds, a 32 MiB window.
pub fn client_config() -> (config: ClientConfig)
    ensures
        config == (ClientConfig {
            inactivity_timeout_secs: 1800,
            keepalive_interval_secs: 5,
            window_size: 33554432,
            maximum_packet_size: 65536,
            channel_buffer_size: 1048576,
            nodelay: true,
        }),
{
    ClientConfig {
        inactivity_timeout_secs: 1800,
        keepalive_interval_secs: 5,
        window_size: 33554432,
        maximum_packet_size: 65536,
        channel_buffer_size: 1048576,
        nodelay: true,
    }
}

/// How a connect command reaches its server.
#[derive(Debug, Clone, PartialEq, Eq)]
pub enum ConnectPlan {
    /// A live session already exists under the id: no handshake is made.
    AlreadyConnected,
    /// Open a TCP connection to `address`, which is `hostname:port`.
    Direct { address: String },
    /// Open a direct-tcpip channel on the jump host's session and run the new
    /// session's transport over it.
    JumpHost {
        jump_host_ssh_session_id: SSHSessionId,
        hostname: String,
        port: u32,
        originator_address: String,
        originator_port: u32,
    },
}

/// A session is live when the registry holds it and its transport has not
/// been seen closed.
pub open spec fn session_live<H>(sessions: Seq<(u128, SSHSession<H>)>, id: SSHSessionId) -> bool {
    has_id(sessions, id.0) && !lookup(sessions, id.0).closed
}

/// What `session_connect` answers.
pub open spec fn connect_plan_matches<H>(
    sessions: Seq<(u128, SSHSession<H>)>,
    ssh_session_id: SSHSessionId,
    hostname: Seq<char>,
    port: u16,
    jump_host_ssh_session_id: Option<SSHSessionId>,
    r: Result<ConnectPlan, SSHError>,
) -> bool {
    if session_live(sessions, ssh_session_id) {
        r == Ok::<ConnectPlan, SSHError>(ConnectPlan::AlreadyConnected)
    } else {
        match jump_host_ssh_session_id {
            Some(jump) => if has_id(sessions, jump.0) {
                r matches Ok(
                    ConnectPlan::JumpHost {
                        jump_host_ssh_session_id: j,
                        hostname: h,
                        port: p,
                        originator_address: a,
                        originator_port: q,
                    },
                ) && j == jump && h@ == hostname && p == port && a@ == "127.0.0.1"@ && q == 0
            } else {
                r == Err::<ConnectPlan, SSHError>(SSHError::NotFoundJumpHostSession)
            },
            None => r matches Ok(ConnectPlan::Direct { address }) && address@ == host_port(
                hostname,
                port as nat,
            ),
        }
    }
}

/// Decides how to connect the session `ssh_session_id` to `hostname:port`.
/// A live session under the id is reused. Otherwise the connection goes
/// through the jump host's session where one is named, which must be
/// registered, and directly to the server where none is.
pub fn session_connect<H, C, F, N>(
    ssh_manager: &SSHManager<H, C, F, N>,
    ssh_session_id: SSHSessionId,
    hostname: &str,
    port: u16,
    jump_host_ssh_session_id: Option<SSHSessionId>,
) -> (r: Result<ConnectPlan, SSHError>)
    ensures
        connect_plan_matches(ssh_manager.sessions@, ssh_session_id, hostname@, port, jump_host_ssh_session_id, r),
{
    match ssh_manager.sessions.get(ssh_session_id.0) {
        Some(session) => {
            if !session.closed {
                return Ok(ConnectPlan::AlreadyConnected);
            }
        },
        None => {},
    }
    match jump_host_ssh_session_id {
        Some(jump) => {
            if ssh_manager.sessions.contains_key(jump.0) {
                Ok(
                    ConnectPlan::JumpHost {
                        jump_host_ssh_session_id: jump,
                        hostname: String::from_str(hostname),
                        port: port as u32,
                        originator_address: String::from_str("127.0.0.1"),
                        originator_port: 0,
                    },
                )
            } else {
                Err(SSHError::NotFoundJumpHostSession)
            }
        },
        None => Ok(ConnectPlan::Direct { address: host_port_string(hostname, port as u32) }),
    }
}

/// The error a failed handshake is reported with. A transport that was cut
/// off becomes a connect failure naming the address, or a jump-host failure
/// where the connection went through a jump host; every other error is
/// passed on.
pub fn session_connect_failed(plan: &ConnectPlan, error: SSHError) -> (r: SSHError)
    ensures
        !(error is RusshDisconnect) ==> r == error,
        error is RusshDisconnect ==> match *plan {
            ConnectPlan::AlreadyConnected => r == error,
            ConnectPlan::Direct { address } => r matches SSHError::ConnectFailed(a) && a@
                == address@,
            ConnectPlan::JumpHost { .. } => r == SSHError::JumpHostConnectFailed,
        },
{
    match error {
        SSHError::RusshDisconnect => match plan {
            ConnectPlan::AlreadyConnected => SSHError::RusshDisconnect,
            ConnectPlan::Direct { address } => SSHError::ConnectFailed(address.clone()),
            ConnectPlan::JumpHost { .. } => SSHError::JumpHostConnectFailed,
        },
        other => other,
    }
}

/// Registers a session whose handshake has succeeded, in place of any
/// session held under the same id, and returns its id.
pub fn session_connected<H, C, F, N>(ssh_manager: &mut SSHManager<H, C, F, N>, session: SSHSession<H>) -> (id:
    SSHSessionId)
    ensures
        id == session.ssh_session_id,
        final(ssh_manager).sessions@ == put(
            old(ssh_manager).sessions@,
            session.ssh_session_id.0,
            session,
        ),
        distinct_ids(final(ssh_manager).sessions@),
        has_id(final(ssh_manager).sessions@, session.ssh_session_id.0),
        lookup(final(ssh_manager).sessions@, session.ssh_session_id.0) == session,
        final(ssh_manager).shells == old(ssh_manager).shells,
        final(ssh_manager).sftps == old(ssh_manager).sftps,
        final(ssh_manager).port_forwardings == old(ssh_manager).port_forwardings,
{
    let id = session.ssh_session_id;
    ssh_manager.sessions.insert(id.0, session);
    id
}

/// Records that the transport of a session was seen closed. The session
/// stays registered; an unknown id changes nothing.
pub fn session_closed<H, C, F, N>(ssh_manager: &mut SSHManager<H, C, F, N>, ssh_session_id: SSHSessionId)
    ensures
        !has_id(old(ssh_manager).sessions@, ssh_session_id.0) ==> final(ssh_manager).sessions@ == old(ssh_manager).sessions@,
        has_id(old(ssh_manager).sessions@, ssh_session_id.0) ==> {
            let before = lookup(old(ssh_manager).sessions@, ssh_session_id.0);
            final(ssh_manager).sessions@ == put(
                old(ssh_manager).sessions@,
                ssh_session_id.0,
                SSHSession { closed: true, ..before },
            )
        },
        has_id(final(ssh_manager).sessions@, ssh_session_id.0) == has_id(
            old(ssh_manager).sessions@,
            ssh_session_id.0,
        ),
        has_id(old(ssh_manager).sessions@, ssh_session_id.0) ==> lookup(
            final(ssh_manager).sessions@,
            ssh_session_id.0,
        ) == (SSHSession { closed: true, ..lookup(old(ssh_manager).sessions@, ssh_session_id.0) }),
        final(ssh_manager).shells == old(ssh_manager).shells,
        final(ssh_manager).sftps == old(ssh_manager).sftps,
        final(ssh_manager).port_forwardings == old(ssh_manager).port_forwardings,
{
    match ssh_manager.sessions.find(ssh_session_id.0) {
        Some(i) => {
            let slot = ssh_manager.sessions.remove_at(i);
            let mut session = slot.1;
            session.closed = true;
            ssh_manager.sessions.insert_at(i, ssh_session_id.0, session);
        },
        None => {},
    }
}

/// Removes the session from the registry and hands it back, so that the
/// caller can send the graceful disconnect. Nothing else is touched: shells,
/// file-transfer subsystems and forwardings opened on the session stay
/// registered until they are closed themselves.
pub fn session_disconnect<H, C, F, N>(ssh_manager: &mut SSHManager<H, C, F, N>, ssh_session_id: SSHSessionId) -> (removed:
    Option<SSHSession<H>>)
    ensures
        final(ssh_manager).sessions@ == without(old(ssh_manager).sessions@, ssh_session_id.0),
        !has_id(final(ssh_manager).sessions@, ssh_session_id.0),
        removed is Some <==> has_id(old(ssh_manager).sessions@, ssh_session_id.0),
        removed is Some ==> removed->0 == lookup(old(ssh_manager).sessions@, ssh_session_id.0),
        final(ssh_manager).shells == old(ssh_manager).shells,
        final(ssh_manager).sftps == old(ssh_manager).sftps,
        final(ssh_manager).port_forwardings == old(ssh_manager).port_forwardings,
{
    ssh_manager.sessions.remove(ssh_session_id.0)
}

/// What the transport is asked to do for one authentication attempt.
pub enum AuthenticationRequest {
    Password { password: String },
    PublicKey { private_key: russh::keys::PrivateKey },
    Certificate { private_key: russh::keys::PrivateKey, certificate: russh::keys::Certificate },
    /// Start a keyboard-interactive exchange.
    KeyboardInteractiveStart,
    /// Answer the prompts of the exchange in progress.
    KeyboardInteractiveRespond { responses: Vec<String> },
}

impl AuthenticationRequest {
    /// The method that the request attempts.
    pub open spec fn spec_method(self) -> AuthenticationMethod {
        match self {
            AuthenticationRequest::Password { .. } => AuthenticationMethod::Password,
            AuthenticationRequest::PublicKey { .. } => AuthenticationMethod::PublicKey,
            AuthenticationRequest::Certificate { .. } => AuthenticationMethod::Certificate,
            AuthenticationRequest::KeyboardInteractiveStart => AuthenticationMethod::KeyboardInteractive,
            AuthenticationRequest::KeyboardInteractiveRespond { .. } =>
                AuthenticationMethod::KeyboardInteractive,
        }
    }

    /// The method that the request attempts.
    pub fn method(&self) -> (m: AuthenticationMethod)
        ensures
            m == self.spec_method(),
    {
        match self {
            AuthenticationRequest::Password { .. } => AuthenticationMethod::Password,
            AuthenticationRequest::PublicKey { .. } => AuthenticationMethod::PublicKey,
            AuthenticationRequest::Certificate { .. } => AuthenticationMethod::Certificate,
            AuthenticationRequest::KeyboardInteractiveStart => AuthenticationMethod::KeyboardInteractive,
            AuthenticationRequest::KeyboardInteractiveRespond { .. } =>
                AuthenticationMethod::KeyboardInteractive,
        }
    }
}

/// The passphrase to decode a key with: an empty passphrase counts as none.
pub open spec fn effective_passphrase(passphrase: Option<String>) -> Option<Seq<char>> {
    match passphrase {
        Some(p) => if p@.len() == 0 {
            None
        } else {
            Some(p@)
        },
        None => None,
    }
}

/// Drops a passphrase that is empty.
pub fn normalize_passphrase(passphrase: Option<String>) -> (r: Option<String>)
    ensures
        r is Some <==> effective_passphrase(passphrase) is Some,
        r is Some ==> r->0@ == effective_passphrase(passphrase)->0,
{
    match passphrase {
        Some(p) => {
            if p.as_str().unicode_len() == 0 {
                None
            } else {
                Some(p)
            }
        },
        None => None,
    }
}

/// The private key of a public-key attempt, or the error the attempt fails
/// with where the key could not be decoded: the decoder's own message.
pub fn public_key_decoded(decoded: Result<russh::keys::PrivateKey, String>) -> (r: Result<
    AuthenticationRequest,
    AuthenticationError,
>)
    ensures
        match decoded {
            Ok(key) => r matches Ok(AuthenticationRequest::PublicKey { private_key })
                && private_key == key,
            Err(message) => r matches Err(AuthenticationError::RusshKeysError(m)) && m@
                == message@,
        },
{
    match decoded {
        Ok(private_key) => Ok(AuthenticationRequest::PublicKey { private_key }),
        Err(message) => Err(AuthenticationError::RusshKeysError(message)),
    }
}

/// The private key of a certificate attempt, or the error the attempt fails
/// with where the key could not be decoded.
pub fn certificate_key_decoded(decoded: Result<russh::keys::PrivateKey, String>) -> (r: Result<
    russh::keys::PrivateKey,
    AuthenticationError,
>)
    ensures
        match decoded {
            Ok(key) => r matches Ok(k) && k == key,
            Err(message) => r matches Err(AuthenticationError::Error(m)) && m@
                == "Failed to parse private key: "@ + message@,
        },
{
    match decoded {
        Ok(private_key) => Ok(private_key),
        Err(message) => {
            let mut text = String::from_str("Failed to parse private key: ");
            text.append(message.as_str());
            Err(AuthenticationError::Error(text))
        },
    }
}

/// The request of a certificate attempt, or the error the attempt fails
/// with where the certificate could not be parsed.
pub fn certificate_parsed(
    private_key: russh::keys::PrivateKey,
    parsed: Result<russh::keys::Certificate, String>,
) -> (r: Result<AuthenticationRequest, AuthenticationError>)
    ensures
        match parsed {
            Ok(cert) => r matches Ok(
                AuthenticationRequest::Certificate { private_key: k, certificate: c },
            ) && k == private_key && c == cert,
            Err(message) => r matches Err(AuthenticationError::Error(m)) && m@
                == "Failed to parse certificate: "@ + message@,
        },
{
    match parsed {
        Ok(certificate) => Ok(AuthenticationRequest::Certificate { private_key, certificate }),
        Err(message) => {
            let mut text = String::from_str("Failed to parse certificate: ");
            text.append(message.as_str());
            Err(AuthenticationError::Error(text))
        },
    }
}

/// What `session_authenticate` answers. Whether a key or a certificate
/// decodes, and with which message it does not, is what the decoders say of
/// the text.
pub open spec fn authenticate_decided<H>(
    sessions: Seq<(u128, SSHSession<H>)>,
    ssh_session_id: SSHSessionId,
    data: AuthenticationData,
    r: Result<AuthenticationRequest, AuthenticationError>,
) -> bool {
    if !has_id(sessions, ssh_session_id.0) {
        r == Err::<AuthenticationRequest, AuthenticationError>(AuthenticationError::NotFoundSession)
    } else if lookup(sessions, ssh_session_id.0).closed {
        r == Err::<AuthenticationRequest, AuthenticationError>(AuthenticationError::SessionClosed)
    } else {
        match data {
            AuthenticationData::Password { password } => r matches Ok(
                AuthenticationRequest::Password { password: p },
            ) && p@ == password@,
            AuthenticationData::PublicKey { private_key, passphrase } => if private_key@.len()
                == 0 {
                r matches Err(AuthenticationError::Error(m)) && m@ == "Private key is empty"@
            } else {
                match private_key_error(private_key@, effective_passphrase(passphrase)) {
                    None => r matches Ok(AuthenticationRequest::PublicKey { .. }),
                    Some(message) => r matches Err(AuthenticationError::RusshKeysError(m)) && m@
                        == message,
                }
            },
            AuthenticationData::Certificate { private_key, passphrase, certificate } =>
                if private_key@.len() == 0 {
                r matches Err(AuthenticationError::Error(m)) && m@ == "Private key is empty"@
            } else if certificate@.len() == 0 {
                r matches Err(AuthenticationError::Error(m)) && m@ == "Certificate is empty"@
            } else {
                match private_key_error(private_key@, effective_passphrase(passphrase)) {
                    Some(message) => r matches Err(AuthenticationError::Error(m)) && m@
                        == "Failed to parse private key: "@ + message,
                    None => match certificate_error(certificate@) {
                        Some(message) => r matches Err(AuthenticationError::Error(m)) && m@
                            == "Failed to parse certificate: "@ + message,
                        None => r matches Ok(AuthenticationRequest::Certificate { .. }),
                    },
                }
            },
            AuthenticationData::KeyboardInteractive { responses } => match responses {
                Some(answers) => r matches Ok(
                    AuthenticationRequest::KeyboardInteractiveRespond { responses: a },
                ) && a == answers,
                None => r matches Ok(AuthenticationRequest::KeyboardInteractiveStart),
            },
        }
    }
}

/// Prepares one authentication attempt on a registered, open session. The
/// credentials are checked and the key material decoded; what comes back is
/// the request to put to the transport, of the method that the credentials
/// name, or the error of the first thing that was found wrong. The registry
/// is only read, so a failed attempt leaves the session ready for the next
/// one.
pub fn session_authenticate<H, C, F, N>(
    ssh_manager: &SSHManager<H, C, F, N>,
    ssh_session_id: SSHSessionId,
    authentication_data: AuthenticationData,
) -> (r: Result<AuthenticationRequest, AuthenticationError>)
    ensures
        authenticate_decided(ssh_manager.sessions@, ssh_session_id, authentication_data, r),
{
    match ssh_manager.sessions.get(ssh_session_id.0) {
        None => {
            return Err(AuthenticationError::NotFoundSession);
        },
        Some(session) => {
            if session.closed {
                return Err(AuthenticationError::SessionClosed);
            }
        },
    }
    match authentication_data {
        AuthenticationData::Password { password } => Ok(
            AuthenticationRequest::Password { password },
        ),
        AuthenticationData::PublicKey { private_key, passphrase } => {
            if private_key.as_str().unicode_len() == 0 {
                return Err(AuthenticationError::new("Private key is empty"));
            }
            let passphrase = normalize_passphrase(passphrase);
            let decoded = match &passphrase {
                Some(p) => decode_private_key(private_key.as_str(), Some(p.as_str())),
                None => decode_private_key(private_key.as_str(), None),
            };
            public_key_decoded(decoded)
        },
        AuthenticationData::Certificate { private_key, passphrase, certificate } => {
            if private_key.as_str().unicode_len() == 0 {
                return Err(AuthenticationError::new("Private key is empty"));
            }
            if certificate.as_str().unicode_len() == 0 {
                return Err(AuthenticationError::new("Certificate is empty"));
            }
            let passphrase = normalize_passphrase(passphrase);
            let decoded = match &passphrase {
                Some(p) => decode_private_key(private_key.as_str(), Some(p.as_str())),
                None => decode_private_key(private_key.as_str(), None),
            };
            match certificate_key_decoded(decoded) {
                Ok(key) => certificate_parsed(key, parse_certificate(certificate.as_str())),
                Err(error) => Err(error),
            }
        },
        AuthenticationData::KeyboardInteractive { responses } => match responses {
            Some(responses) => Ok(AuthenticationRequest::KeyboardInteractiveRespond { responses }),
            None => Ok(AuthenticationRequest::KeyboardInteractiveStart),
        },
    }
}

/// How the server answered an authentication request.
#[derive(Debug, Clone, PartialEq, Eq)]
pub enum AuthenticationOutcome {
    Success,
    /// Refused. Carries the methods that can still succeed and whether the
    /// server counted the attempt a partial success.
    Failure { remaining_methods: Vec<MethodKind>, partial_success: bool },
    /// The server sent prompts and waits for the answers.
    InfoRequest(KeyboardInteractiveData),
}

/// The error that reports a refused attempt of `method`.
pub open spec fn method_failure(
    method: AuthenticationMethod,
    remaining_methods: Vec<MethodKind>,
    partial_success: bool,
) -> AuthenticationError {
    match method {
        AuthenticationMethod::Password => AuthenticationError::Password(
            remaining_methods,
            partial_success,
        ),
        AuthenticationMethod::PublicKey => AuthenticationError::PublicKey(
            remaining_methods,
            partial_success,
        ),
        AuthenticationMethod::Certificate => AuthenticationError::Certificate(
            remaining_methods,
            partial_success,
        ),
        AuthenticationMethod::KeyboardInteractive => AuthenticationError::KeyboardInteractive(
            remaining_methods,
            partial_success,
        ),
    }
}

/// The registry after the session, if registered, has been marked
/// authenticated.
pub open spec fn marked_authenticated<H>(
    sessions: Seq<(u128, SSHSession<H>)>,
    ssh_session_id: SSHSessionId,
) -> Seq<(u128, SSHSession<H>)> {
    if has_id(sessions, ssh_session_id.0) {
        put(
            sessions,
            ssh_session_id.0,
            SSHSession { authenticated: true, ..lookup(sessions, ssh_session_id.0) },
        )
    } else {
        sessions
    }
}

/// Takes the server's answer to an attempt of `method`. Success marks the
/// session authenticated and returns its id. A refusal becomes the error
/// tagged with the method, carrying what the server said can still succeed;
/// pending prompts become the request for answers. In both of these the
/// registry stays exactly as it was, so the session can be tried again.
pub fn session_authenticated<H, C, F, N>(
    ssh_manager: &mut SSHManager<H, C, F, N>,
    ssh_session_id: SSHSessionId,
    method: AuthenticationMethod,
    outcome: AuthenticationOutcome,
) -> (r: Result<SSHSessionId, AuthenticationError>)
    ensures
        match outcome {
            AuthenticationOutcome::Success => {
                &&& r == Ok::<SSHSessionId, AuthenticationError>(ssh_session_id)
                &&& final(ssh_manager).sessions@ == marked_authenticated(
                    old(ssh_manager).sessions@,
                    ssh_session_id,
                )
                &&& has_id(old(ssh_manager).sessions@, ssh_session_id.0) ==> has_id(
                    final(ssh_manager).sessions@,
                    ssh_session_id.0,
                ) && lookup(final(ssh_manager).sessions@, ssh_session_id.0) == (SSHSession {
                    authenticated: true,
                    ..lookup(old(ssh_manager).sessions@, ssh_session_id.0)
                })
            },
            AuthenticationOutcome::Failure { remaining_methods, partial_success } => r == Err::<
                SSHSessionId,
                AuthenticationError,
            >(method_failure(method, remaining_methods, partial_success)) && final(ssh_manager).sessions@
                == old(ssh_manager).sessions@,
            AuthenticationOutcome::InfoRequest(data) => r == Err::<
                SSHSessionId,
                AuthenticationError,
            >(AuthenticationError::KeyboardInteractiveInfoRequest(data)) && final(ssh_manager).sessions@
                == old(ssh_manager).sessions@,
        },
        final(ssh_manager).shells == old(ssh_manager).shells,
        final(ssh_manager).sftps == old(ssh_manager).sftps,
        final(ssh_manager).port_forwardings == old(ssh_manager).port_forwardings,
{
    match outcome {
        AuthenticationOutcome::Success => {
            match ssh_manager.sessions.find(ssh_session_id.0) {
                Some(i) => {
                    let slot = ssh_manager.sessions.remove_at(i);
                    let mut session = slot.1;
                    session.authenticated = true;
                    ssh_manager.sessions.insert_at(i, ssh_session_id.0, session);
                },
                None => {},
            }
            Ok(ssh_session_id)
        },
        AuthenticationOutcome::Failure { remaining_methods, partial_success } => Err(
            match method {
                AuthenticationMethod::Password => AuthenticationError::Password(
                    remaining_methods,
                    partial_success,
                ),
                AuthenticationMethod::PublicKey => AuthenticationError::PublicKey(
                    remaining_methods,
                    partial_success,
                ),
                AuthenticationMethod::Certificate => AuthenticationError::Certificate(
                    remaining_methods,
                    partial_success,
                ),
                AuthenticationMethod::KeyboardInteractive => AuthenticationError::KeyboardInteractive(
                    remaining_methods,
                    partial_success,
                ),
            },
        ),
        AuthenticationOutcome::InfoRequest(data) => Err(
            AuthenticationError::KeyboardInteractiveInfoRequest(data),
        ),
    }
}

/// Connecting again under an id whose session was just registered, with no
/// disconnect in between, makes no second handshake: the plan is to reuse
/// the session.
pub proof fn lemma_connect_is_idempotent<H>(
    sessions: Seq<(u128, SSHSession<H>)>,
    session: SSHSession<H>,
    hostname: Seq<char>,
    port: u16,
    jump_host_ssh_session_id: Option<SSHSessionId>,
    r: Result<ConnectPlan, SSHError>,
)
    requires
        distinct_ids(sessions),
        !session.closed,
        connect_plan_matches(
            put(sessions, session.ssh_session_id.0, session),
            session.ssh_session_id,
            hostname,
            port,
            jump_host_ssh_session_id,
            r,
        ),
    ensures
        r == Ok::<ConnectPlan, SSHError>(ConnectPlan::AlreadyConnected),
{
    lemma_put(sessions, session.ssh_session_id.0, session);
}

/// An attempt that was refused changes no session, so what holds of a live
/// session before it holds after it: a password attempt on a live session is
/// always put to the transport.
pub proof fn lemma_live_session_takes_password<H>(
    sessions: Seq<(u128, SSHSession<H>)>,
    ssh_session_id: SSHSessionId,
    password: String,
    r: Result<AuthenticationRequest, AuthenticationError>,
)
    requires
        session_live(sessions, ssh_session_id),
        authenticate_decided(
            sessions,
            ssh_session_id,
            AuthenticationData::Password { password },
            r,
        ),
    ensures
        r matches Ok(AuthenticationRequest::Password { password: p }) && p@ == password@,
{
}

/// Disconnecting removes the one session and nothing else. Afterwards the id
/// is unknown, so every command that resolves the session answers
/// not-found; every other session is where it was.
pub proof fn lemma_disconnect_removes_one_session<H>(
    sessions: Seq<(u128, SSHSession<H>)>,
    ssh_session_id: SSHSessionId,
)
    requires
        distinct_ids(sessions),
    ensures
        distinct_ids(without(sessions, ssh_session_id.0)),
        !has_id(without(sessions, ssh_session_id.0), ssh_session_id.0),
        !session_live(without(sessions, ssh_session_id.0), ssh_session_id),
        forall|other: u128|
            other != ssh_session_id.0 ==> (has_id(without(sessions, ssh_session_id.0), other)
                <==> has_id(sessions, other)),
        forall|other: u128|
            other != ssh_session_id.0 && has_id(sessions, other) ==> lookup(
                without(sessions, ssh_session_id.0),
                other,
            ) == lookup(sessions, other),
{
    lemma_without(sessions, ssh_session_id.0);
}

} // verus!
