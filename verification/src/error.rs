use vstd::prelude::*;

verus! {

/// One question of a keyboard-interactive exchange.
#[derive(Debug, Clone, PartialEq, Eq)]
pub struct KeyboardInteractivePrompt {
    pub prompt: String,
    pub echo: bool,
}

/// What the server asks in one round of a keyboard-interactive exchange.
#[derive(Debug, Clone, PartialEq, Eq)]
pub struct KeyboardInteractiveData {
    pub name: String,
    pub instructions: String,
    pub prompts: Vec<KeyboardInteractivePrompt>,
}

/// An authentication method as the server names it in its list of methods
/// that can still succeed.
#[derive(Debug, Clone, Copy, PartialEq, Eq, Structural)]
pub enum MethodKind {
    /// The method that the protocol calls "none".
    NoAuthentication,
    Password,
    PublicKey,
    HostBased,
    KeyboardInteractive,
}

impl MethodKind {
    /// The name under which the method is reported to the caller.
    pub open spec fn spec_name(self) -> Seq<char> {
        match self {
            MethodKind::NoAuthentication => "None"@,
            MethodKind::Password => "Password"@,
            MethodKind::PublicKey => "PublicKey"@,
            MethodKind::HostBased => "Certificate"@,
            MethodKind::KeyboardInteractive => "KeyboardInteractive"@,
        }
    }

    /// The name under which the method is reported to the caller.
    pub fn name(&self) -> (s: &'static str)
        ensures
            s@ == self.spec_name(),
    {
        match self {
            MethodKind::NoAuthentication => "None",
            MethodKind::Password => "Password",
            MethodKind::PublicKey => "PublicKey",
            MethodKind::HostBased => "Certificate",
            MethodKind::KeyboardInteractive => "KeyboardInteractive",
        }
    }
}

/// The names of the methods of a list, in the list's order.
pub fn method_names(methods: &Vec<MethodKind>) -> (names: Vec<&'static str>)
    ensures
        names@.len() == methods@.len(),
        forall|i: int| 0 <= i < methods@.len() ==> names@[i]@ == methods@[i].spec_name(),
{
    let mut names: Vec<&'static str> = Vec::new();
    let mut i: usize = 0;
    while i < methods.len()
        invariant
            i <= methods@.len(),
            names@.len() == i,
            forall|j: int| 0 <= j < i ==> names@[j]@ == methods@[j].spec_name(),
        decreases methods@.len() - i,
    {
        names.push(methods[i].name());
        i += 1;
    }
    names
}

/// Why an authentication attempt did not end in an authenticated session.
#[derive(Debug, Clone, PartialEq, Eq)]
pub enum AuthenticationError {
    /// The transport failed; carries its message.
    RusshError(String),
    /// The private key could not be decoded; carries the decoder's message.
    RusshKeysError(String),
    /// The attempt did not finish within its deadline.
    Timeout,
    NotFoundSession,
    SessionClosed,
    /// The server refused the password. Carries the methods that can still
    /// succeed and whether the server counted the attempt a partial success.
    Password(Vec<MethodKind>, bool),
    PublicKey(Vec<MethodKind>, bool),
    Certificate(Vec<MethodKind>, bool),
    KeyboardInteractive(Vec<MethodKind>, bool),
    /// The server waits for answers to the prompts it sent: not a failure.
    KeyboardInteractiveInfoRequest(KeyboardInteractiveData),
    Error(String),
}

impl AuthenticationError {
    pub fn new(message: &str) -> (e: Self)
        ensures
            e matches AuthenticationError::Error(m) && m@ == message@,
    {
        AuthenticationError::Error(String::from_str(message))
    }

    /// The variant's name.
    pub open spec fn spec_kind(self) -> Seq<char> {
        match self {
            AuthenticationError::RusshError(_) => "RusshError"@,
            AuthenticationError::RusshKeysError(_) => "RusshKeysError"@,
            AuthenticationError::Timeout => "Timeout"@,
            AuthenticationError::NotFoundSession => "NotFoundSession"@,
            AuthenticationError::SessionClosed => "SessionClosed"@,
            AuthenticationError::Password(_, _) => "Password"@,
            AuthenticationError::PublicKey(_, _) => "PublicKey"@,
            AuthenticationError::Certificate(_, _) => "Certificate"@,
            AuthenticationError::KeyboardInteractive(_, _) => "KeyboardInteractive"@,
            AuthenticationError::KeyboardInteractiveInfoRequest(_) => "KeyboardInteractiveInfoRequest"@,
            AuthenticationError::Error(_) => "Error"@,
        }
    }

    /// The variant's name, by which callers tell the errors apart.
    pub fn kind(&self) -> (s: &'static str)
        ensures
            s@ == self.spec_kind(),
    {
        match self {
            AuthenticationError::RusshError(_) => "RusshError",
            AuthenticationError::RusshKeysError(_) => "RusshKeysError",
            AuthenticationError::Timeout => "Timeout",
            AuthenticationError::NotFoundSession => "NotFoundSession",
            AuthenticationError::SessionClosed => "SessionClosed",
            AuthenticationError::Password(_, _) => "Password",
            AuthenticationError::PublicKey(_, _) => "PublicKey",
            AuthenticationError::Certificate(_, _) => "Certificate",
            AuthenticationError::KeyboardInteractive(_, _) => "KeyboardInteractive",
            AuthenticationError::KeyboardInteractiveInfoRequest(_) => "KeyboardInteractiveInfoRequest",
            AuthenticationError::Error(_) => "Error",
        }
    }

    /// The text shown for the error.
    pub open spec fn spec_message(self) -> Seq<char> {
        match self {
            AuthenticationError::RusshError(m) => m@,
            AuthenticationError::RusshKeysError(m) => m@,
            AuthenticationError::Timeout => "deadline has elapsed"@,
            AuthenticationError::NotFoundSession => "Not found session"@,
            AuthenticationError::SessionClosed => "Session closed"@,
            AuthenticationError::Password(_, _) => "Authentication failed with password"@,
            AuthenticationError::PublicKey(_, _) => "Authentication failed with public key"@,
            AuthenticationError::Certificate(_, _) => "Authentication failed with certificate"@,
            AuthenticationError::KeyboardInteractive(_, _) =>
                "Authentication failed with keyboard interactive"@,
            AuthenticationError::KeyboardInteractiveInfoRequest(_) =>
                "Keyboard interactive need response"@,
            AuthenticationError::Error(m) => m@,
        }
    }

    /// The text shown for the error.
    pub fn message(&self) -> (s: String)
        ensures
            s@ == self.spec_message(),
    {
        match self {
            AuthenticationError::RusshError(m) => m.clone(),
            AuthenticationError::RusshKeysError(m) => m.clone(),
            AuthenticationError::Timeout => String::from_str("deadline has elapsed"),
            AuthenticationError::NotFoundSession => String::from_str("Not found session"),
            AuthenticationError::SessionClosed => String::from_str("Session closed"),
            AuthenticationError::Password(_, _) => String::from_str(
                "Authentication failed with password",
            ),
            AuthenticationError::PublicKey(_, _) => String::from_str(
                "Authentication failed with public key",
            ),
            AuthenticationError::Certificate(_, _) => String::from_str(
                "Authentication failed with certificate",
            ),
            AuthenticationError::KeyboardInteractive(_, _) => String::from_str(
                "Authentication failed with keyboard interactive",
            ),
            AuthenticationError::KeyboardInteractiveInfoRequest(_) => String::from_str(
                "Keyboard interactive need response",
            ),
            AuthenticationError::Error(m) => m.clone(),
        }
    }

    /// Whether the error reports a method that the server refused.
    pub open spec fn is_method_failure(self) -> bool {
        self is Password || self is PublicKey || self is Certificate || self is KeyboardInteractive
    }

    /// The methods that can still succeed, for a refused method.
    pub open spec fn spec_remaining_methods(self) -> Seq<MethodKind> {
        match self {
            AuthenticationError::Password(methods, _) => methods@,
            AuthenticationError::PublicKey(methods, _) => methods@,
            AuthenticationError::Certificate(methods, _) => methods@,
            AuthenticationError::KeyboardInteractive(methods, _) => methods@,
            _ => Seq::empty(),
        }
    }

    /// The methods that can still succeed: `Some` exactly for a refused
    /// method.
    pub fn remaining_methods(&self) -> (r: Option<&Vec<MethodKind>>)
        ensures
            r is Some <==> self.is_method_failure(),
            r is Some ==> r->0@ == self.spec_remaining_methods(),
    {
        match self {
            AuthenticationError::Password(methods, _) => Some(methods),
            AuthenticationError::PublicKey(methods, _) => Some(methods),
            AuthenticationError::Certificate(methods, _) => Some(methods),
            AuthenticationError::KeyboardInteractive(methods, _) => Some(methods),
            _ => None,
        }
    }

    /// Whether the server counted the refused attempt a partial success:
    /// `Some` exactly for a refused method.
    pub open spec fn spec_partial_success(self) -> Option<bool> {
        match self {
            AuthenticationError::Password(_, p) => Some(p),
            AuthenticationError::PublicKey(_, p) => Some(p),
            AuthenticationError::Certificate(_, p) => Some(p),
            AuthenticationError::KeyboardInteractive(_, p) => Some(p),
            _ => None,
        }
    }

    /// Whether the server counted the refused attempt a partial success:
    /// `Some` exactly for a refused method.
    pub fn partial_success(&self) -> (r: Option<bool>)
        ensures
            r == self.spec_partial_success(),
    {
        match self {
            AuthenticationError::Password(_, p) => Some(*p),
            AuthenticationError::PublicKey(_, p) => Some(*p),
            AuthenticationError::Certificate(_, p) => Some(*p),
            AuthenticationError::KeyboardInteractive(_, p) => Some(*p),
            _ => None,
        }
    }
}

/// Why a command of the engine failed.
#[derive(Debug, Clone, PartialEq, Eq)]
pub enum SSHError {
    /// A local file or socket failed; carries the system's message.
    StdIoError(String),
    /// The transport failed; carries its message.
    RusshError(String),
    /// The transport reported that the peer is gone.
    RusshDisconnect,
    /// A key could not be decoded; carries the decoder's message.
    RusshKeysError(String),
    /// The file-transfer protocol failed; carries its message.
    RusshSftpClientErrorError(String),
    /// The SOCKS negotiation failed; carries its message.
    RuSocksError(String),
    /// A bounded operation did not finish within its deadline.
    Timeout,
    /// No connection could be made to the address carried.
    ConnectFailed(String),
    JumpHostConnectFailed,
    SessionClosed,
    /// The server's key is not trusted and no policy settled it.
    UnknownKey { algorithm: String, fingerprint: String },
    NotFoundSession,
    NotFoundJumpHostSession,
    NotFoundSftp,
    Error(String),
}

/// Text of the error for an untrusted server key.
pub open spec fn unknown_key_message(algorithm: Seq<char>, fingerprint: Seq<char>) -> Seq<char> {
    algorithm + " key fingerprint is "@ + fingerprint
}

impl SSHError {
    pub fn new(message: &str) -> (e: Self)
        ensures
            e matches SSHError::Error(m) && m@ == message@,
    {
        SSHError::Error(String::from_str(message))
    }

    /// The variant's name.
    pub open spec fn spec_kind(self) -> Seq<char> {
        match self {
            SSHError::StdIoError(_) => "StdIoError"@,
            SSHError::RusshError(_) => "RusshError"@,
            SSHError::RusshDisconnect => "RusshError"@,
            SSHError::RusshKeysError(_) => "RusshKeysError"@,
            SSHError::RusshSftpClientErrorError(_) => "RusshSftpClientErrorError"@,
            SSHError::RuSocksError(_) => "RuSocksError"@,
            SSHError::Timeout => "Timeout"@,
            SSHError::ConnectFailed(_) => "ConnectFailed"@,
            SSHError::JumpHostConnectFailed => "JumpHostConnectFailed"@,
            SSHError::SessionClosed => "SessionClosed"@,
            SSHError::UnknownKey { .. } => "UnknownKey"@,
            SSHError::NotFoundSession => "NotFoundSession"@,
            SSHError::NotFoundJumpHostSession => "NotFoundJumpHostSession"@,
            SSHError::NotFoundSftp => "NotFoundSftp"@,
            SSHError::Error(_) => "Error"@,
        }
    }

    /// The variant's name, by which callers tell the errors apart.
    pub fn kind(&self) -> (s: &'static str)
        ensures
            s@ == self.spec_kind(),
    {
        match self {
            SSHError::StdIoError(_) => "StdIoError",
            SSHError::RusshError(_) => "RusshError",
            SSHError::RusshDisconnect => "RusshError",
            SSHError::RusshKeysError(_) => "RusshKeysError",
            SSHError::RusshSftpClientErrorError(_) => "RusshSftpClientErrorError",
            SSHError::RuSocksError(_) => "RuSocksError",
            SSHError::Timeout => "Timeout",
            SSHError::ConnectFailed(_) => "ConnectFailed",
            SSHError::JumpHostConnectFailed => "JumpHostConnectFailed",
            SSHError::SessionClosed => "SessionClosed",
            SSHError::UnknownKey { .. } => "UnknownKey",
            SSHError::NotFoundSession => "NotFoundSession",
            SSHError::NotFoundJumpHostSession => "NotFoundJumpHostSession",
            SSHError::NotFoundSftp => "NotFoundSftp",
            SSHError::Error(_) => "Error",
        }
    }

    /// The text shown for the error.
    pub open spec fn spec_message(self) -> Seq<char> {
        match self {
            SSHError::StdIoError(m) => m@,
            SSHError::RusshError(m) => m@,
            SSHError::RusshDisconnect => "Disconnected"@,
            SSHError::RusshKeysError(_) => "Private key parsing failed"@,
            SSHError::RusshSftpClientErrorError(m) => m@,
            SSHError::RuSocksError(m) => m@,
            SSHError::Timeout => "deadline has elapsed"@,
            SSHError::ConnectFailed(addr) => "Failed connect to "@ + addr@,
            SSHError::JumpHostConnectFailed => "Jump host connect failed"@,
            SSHError::SessionClosed => "Session closed"@,
            SSHError::UnknownKey { algorithm, fingerprint } => unknown_key_message(
                algorithm@,
                fingerprint@,
            ),
            SSHError::NotFoundSession => "Not found session"@,
            SSHError::NotFoundJumpHostSession => "Not found jump host session"@,
            SSHError::NotFoundSftp => "Not found sftp"@,
            SSHError::Error(m) => m@,
        }
    }

    /// The text shown for the error.
    pub fn message(&self) -> (s: String)
        ensures
            s@ == self.spec_message(),
    {
        match self {
            SSHError::StdIoError(m) => m.clone(),
            SSHError::RusshError(m) => m.clone(),
            SSHError::RusshDisconnect => String::from_str("Disconnected"),
            SSHError::RusshKeysError(_) => String::from_str("Private key parsing failed"),
            SSHError::RusshSftpClientErrorError(m) => m.clone(),
            SSHError::RuSocksError(m) => m.clone(),
            SSHError::Timeout => String::from_str("deadline has elapsed"),
            SSHError::ConnectFailed(addr) => {
                let mut s = String::from_str("Failed connect to ");
                s.append(addr.as_str());
                s
            },
            SSHError::JumpHostConnectFailed => String::from_str("Jump host connect failed"),
            SSHError::SessionClosed => String::from_str("Session closed"),
            SSHError::UnknownKey { algorithm, fingerprint } => {
                let mut s = algorithm.clone();
                s.append(" key fingerprint is ");
                s.append(fingerprint.as_str());
                s
            },
            SSHError::NotFoundSession => String::from_str("Not found session"),
            SSHError::NotFoundJumpHostSession => String::from_str("Not found jump host session"),
            SSHError::NotFoundSftp => String::from_str("Not found sftp"),
            SSHError::Error(m) => m.clone(),
        }
    }

    /// Whether the error says that an id is absent from a registry.
    pub fn is_not_found(&self) -> (b: bool)
        ensures
            b == (self is NotFoundSession || self is NotFoundJumpHostSession || self is NotFoundSftp),
    {
        match self {
            SSHError::NotFoundSession => true,
            SSHError::NotFoundJumpHostSession => true,
            SSHError::NotFoundSftp => true,
            _ => false,
        }
    }
}

/// The value of one member of an error as it is reported to the caller.
#[derive(Debug, Clone, PartialEq, Eq)]
pub enum FieldValue {
    Text(String),
    Flag(bool),
    /// Names of authentication methods.
    Names(Vec<&'static str>),
    /// The prompts that the server waits to have answered.
    Prompts(KeyboardInteractiveData),
}

/// The member is called `name` and holds the text `text`.
pub open spec fn is_text(member: (&'static str, FieldValue), name: Seq<char>, text: Seq<char>) -> bool {
    &&& member.0@ == name
    &&& member.1 matches FieldValue::Text(t) && t@ == text
}

/// The member is called `name` and holds the names of `methods`, in order.
pub open spec fn is_names(
    member: (&'static str, FieldValue),
    name: Seq<char>,
    methods: Seq<MethodKind>,
) -> bool {
    &&& member.0@ == name
    &&& member.1 matches FieldValue::Names(names) && names@.len() == methods.len() && forall|
        i: int,
    |
        0 <= i < methods.len() ==> names@[i]@ == methods[i].spec_name()
}

impl SSHError {
    /// The members under which the error is reported: its `type`, which is
    /// the variant's name, and its `message`; for an untrusted server key
    /// also the key's `algorithm` and `fingerprint`, so that the caller can
    /// show them and decide.
    pub fn fields(&self) -> (members: Vec<(&'static str, FieldValue)>)
        ensures
            members@.len() == if *self is UnknownKey {
                4int
            } else {
                2int
            },
            is_text(members@[0], "type"@, self.spec_kind()),
            is_text(members@[1], "message"@, self.spec_message()),
            *self matches SSHError::UnknownKey { algorithm, fingerprint } ==> is_text(
                members@[2],
                "algorithm"@,
                algorithm@,
            ) && is_text(members@[3], "fingerprint"@, fingerprint@),
    {
        let mut members: Vec<(&'static str, FieldValue)> = Vec::new();
        members.push(("type", FieldValue::Text(String::from_str(self.kind()))));
        members.push(("message", FieldValue::Text(self.message())));
        match self {
            SSHError::UnknownKey { algorithm, fingerprint } => {
                members.push(("algorithm", FieldValue::Text(algorithm.clone())));
                members.push(("fingerprint", FieldValue::Text(fingerprint.clone())));
            },
            _ => {},
        }
        members
    }
}

impl AuthenticationError {
    /// The members under which the error is reported: the `type`, which is
    /// `AuthenticationError`, the `message` and the `kind`, which is the
    /// variant's name. A refused method adds the `methodSet` that can still
    /// succeed and the `partialSuccess` flag; pending prompts add the
    /// `keyboardInteractiveData` to answer.
    pub fn fields(self) -> (members: Vec<(&'static str, FieldValue)>)
        ensures
            members@.len() == if self.is_method_failure() {
                5int
            } else if self is KeyboardInteractiveInfoRequest {
                4int
            } else {
                3int
            },
            is_text(members@[0], "type"@, "AuthenticationError"@),
            is_text(members@[1], "message"@, self.spec_message()),
            is_text(members@[2], "kind"@, self.spec_kind()),
            self.is_method_failure() ==> {
                &&& is_names(members@[3], "methodSet"@, self.spec_remaining_methods())
                &&& members@[4].0@ == "partialSuccess"@
                &&& Some(members@[4].1) == match self.spec_partial_success() {
                    Some(flag) => Some(FieldValue::Flag(flag)),
                    None => None,
                }
            },
            self matches AuthenticationError::KeyboardInteractiveInfoRequest(data) ==> members@[3].0@
                == "keyboardInteractiveData"@ && members@[3].1 == FieldValue::Prompts(data),
    {
        let mut members: Vec<(&'static str, FieldValue)> = Vec::new();
        members.push(("type", FieldValue::Text(String::from_str("AuthenticationError"))));
        members.push(("message", FieldValue::Text(self.message())));
        members.push(("kind", FieldValue::Text(String::from_str(self.kind()))));
        match self {
            AuthenticationError::Password(methods, partial_success)
            | AuthenticationError::PublicKey(methods, partial_success)
            | AuthenticationError::Certificate(methods, partial_success)
            | AuthenticationError::KeyboardInteractive(methods, partial_success) => {
                members.push(("methodSet", FieldValue::Names(method_names(&methods))));
                members.push(("partialSuccess", FieldValue::Flag(partial_success)));
            },
            AuthenticationError::KeyboardInteractiveInfoRequest(data) => {
                members.push(("keyboardInteractiveData", FieldValue::Prompts(data)));
            },
            _ => {},
        }
        members
    }
}

} // verus!
