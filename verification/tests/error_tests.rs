use ssh_core::error::{
    method_names,
    AuthenticationError,
    FieldValue,
    KeyboardInteractiveData,
    KeyboardInteractivePrompt,
    MethodKind,
    SSHError,
};

#[test]
fn method_names_follow_the_list() {
    let methods = vec![
        MethodKind::NoAuthentication,
        MethodKind::Password,
        MethodKind::PublicKey,
        MethodKind::HostBased,
        MethodKind::KeyboardInteractive,
    ];
    assert_eq!(
        method_names(&methods),
        vec!["None", "Password", "PublicKey", "Certificate", "KeyboardInteractive"]
    );
    assert_eq!(method_names(&Vec::new()), Vec::<&str>::new());
}

#[test]
fn authentication_error_messages() {
    assert_eq!(AuthenticationError::NotFoundSession.message(), "Not found session");
    assert_eq!(AuthenticationError::SessionClosed.message(), "Session closed");
    assert_eq!(
        AuthenticationError::Password(vec![], false).message(),
        "Authentication failed with password"
    );
    assert_eq!(
        AuthenticationError::PublicKey(vec![], false).message(),
        "Authentication failed with public key"
    );
    assert_eq!(
        AuthenticationError::Certificate(vec![], true).message(),
        "Authentication failed with certificate"
    );
    assert_eq!(
        AuthenticationError::KeyboardInteractive(vec![], true).message(),
        "Authentication failed with keyboard interactive"
    );
    let data = KeyboardInteractiveData {
        name: String::from("n"),
        instructions: String::from("i"),
        prompts: vec![KeyboardInteractivePrompt { prompt: String::from("Code: "), echo: true }],
    };
    assert_eq!(
        AuthenticationError::KeyboardInteractiveInfoRequest(data).message(),
        "Keyboard interactive need response"
    );
    assert_eq!(AuthenticationError::new("boom").message(), "boom");
    assert_eq!(AuthenticationError::RusshError(String::from("io")).message(), "io");
    assert_eq!(AuthenticationError::RusshKeysError(String::from("bad")).message(), "bad");
    assert_eq!(AuthenticationError::Timeout.message(), "deadline has elapsed");
}

#[test]
fn authentication_error_kinds() {
    assert_eq!(AuthenticationError::Password(vec![], false).kind(), "Password");
    assert_eq!(AuthenticationError::PublicKey(vec![], false).kind(), "PublicKey");
    assert_eq!(AuthenticationError::Certificate(vec![], false).kind(), "Certificate");
    assert_eq!(AuthenticationError::KeyboardInteractive(vec![], false).kind(), "KeyboardInteractive");
    assert_eq!(AuthenticationError::NotFoundSession.kind(), "NotFoundSession");
    assert_eq!(AuthenticationError::SessionClosed.kind(), "SessionClosed");
    assert_eq!(AuthenticationError::Timeout.kind(), "Timeout");
    assert_eq!(AuthenticationError::new("x").kind(), "Error");
}

#[test]
fn refused_method_carries_remaining_methods() {
    let error = AuthenticationError::Password(vec![MethodKind::PublicKey], true);
    assert_eq!(error.remaining_methods(), Some(&vec![MethodKind::PublicKey]));
    assert_eq!(error.partial_success(), Some(true));
    assert_eq!(AuthenticationError::SessionClosed.remaining_methods(), None);
    assert_eq!(AuthenticationError::SessionClosed.partial_success(), None);
}

#[test]
fn ssh_error_messages() {
    assert_eq!(SSHError::NotFoundSession.message(), "Not found session");
    assert_eq!(SSHError::NotFoundJumpHostSession.message(), "Not found jump host session");
    assert_eq!(SSHError::NotFoundSftp.message(), "Not found sftp");
    assert_eq!(SSHError::SessionClosed.message(), "Session closed");
    assert_eq!(SSHError::JumpHostConnectFailed.message(), "Jump host connect failed");
    assert_eq!(
        SSHError::ConnectFailed(String::from("example.org:22")).message(),
        "Failed connect to example.org:22"
    );
    assert_eq!(
        SSHError::UnknownKey {
            algorithm: String::from("ssh-ed25519"),
            fingerprint: String::from("SHA256:abc"),
        }
        .message(),
        "ssh-ed25519 key fingerprint is SHA256:abc"
    );
    assert_eq!(SSHError::RusshKeysError(String::from("x")).message(), "Private key parsing failed");
    assert_eq!(SSHError::RusshDisconnect.message(), "Disconnected");
    assert_eq!(SSHError::Timeout.message(), "deadline has elapsed");
    assert_eq!(SSHError::new("plain").message(), "plain");
    assert_eq!(SSHError::StdIoError(String::from("broken pipe")).message(), "broken pipe");
}

#[test]
fn ssh_error_kinds_and_not_found() {
    assert_eq!(SSHError::NotFoundSession.kind(), "NotFoundSession");
    assert_eq!(SSHError::RusshDisconnect.kind(), "RusshError");
    assert_eq!(
        SSHError::UnknownKey { algorithm: String::new(), fingerprint: String::new() }.kind(),
        "UnknownKey"
    );
    assert!(SSHError::NotFoundSession.is_not_found());
    assert!(SSHError::NotFoundJumpHostSession.is_not_found());
    assert!(SSHError::NotFoundSftp.is_not_found());
    assert!(!SSHError::SessionClosed.is_not_found());
    assert!(!SSHError::Timeout.is_not_found());
}

fn text(value: &str) -> FieldValue {
    FieldValue::Text(String::from(value))
}

#[test]
fn ssh_error_is_reported_by_type_and_message() {
    assert_eq!(
        SSHError::NotFoundSftp.fields(),
        vec![("type", text("NotFoundSftp")), ("message", text("Not found sftp"))]
    );
    assert_eq!(
        SSHError::ConnectFailed(String::from("h:22")).fields(),
        vec![("type", text("ConnectFailed")), ("message", text("Failed connect to h:22"))]
    );
}

#[test]
fn untrusted_key_is_reported_with_algorithm_and_fingerprint() {
    let error = SSHError::UnknownKey {
        algorithm: String::from("ssh-ed25519"),
        fingerprint: String::from("SHA256:abc"),
    };
    assert_eq!(
        error.fields(),
        vec![
            ("type", text("UnknownKey")),
            ("message", text("ssh-ed25519 key fingerprint is SHA256:abc")),
            ("algorithm", text("ssh-ed25519")),
            ("fingerprint", text("SHA256:abc")),
        ]
    );
}

#[test]
fn refused_method_is_reported_with_what_remains() {
    let error =
        AuthenticationError::PublicKey(vec![MethodKind::Password, MethodKind::HostBased], true);
    assert_eq!(
        error.fields(),
        vec![
            ("type", text("AuthenticationError")),
            ("message", text("Authentication failed with public key")),
            ("kind", text("PublicKey")),
            ("methodSet", FieldValue::Names(vec!["Password", "Certificate"])),
            ("partialSuccess", FieldValue::Flag(true)),
        ]
    );
}

#[test]
fn pending_prompts_are_reported_for_answering() {
    let data = KeyboardInteractiveData {
        name: String::from("otp"),
        instructions: String::new(),
        prompts: vec![KeyboardInteractivePrompt { prompt: String::from("Code: "), echo: false }],
    };
    assert_eq!(
        AuthenticationError::KeyboardInteractiveInfoRequest(data.clone()).fields(),
        vec![
            ("type", text("AuthenticationError")),
            ("message", text("Keyboard interactive need response")),
            ("kind", text("KeyboardInteractiveInfoRequest")),
            ("keyboardInteractiveData", FieldValue::Prompts(data)),
        ]
    );
}

#[test]
fn other_authentication_errors_are_reported_plainly() {
    assert_eq!(
        AuthenticationError::SessionClosed.fields(),
        vec![
            ("type", text("AuthenticationError")),
            ("message", text("Session closed")),
            ("kind", text("SessionClosed")),
        ]
    );
}
