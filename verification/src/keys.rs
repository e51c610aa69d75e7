use vstd::prelude::*;

verus! {

/// `russh::keys::PrivateKey`, carried through as it is: nothing is known of
/// what a value holds.
#[verifier::external_type_specification]
#[verifier::external_body]
pub struct ExPrivateKey(russh::keys::PrivateKey);

/// `russh::keys::Certificate`, carried through as it is: nothing is known of
/// what a value holds.
#[verifier::external_type_specification]
#[verifier::external_body]
pub struct ExCertificate(russh::keys::Certificate);

/// Name of the signature algorithm of a public key given in OpenSSH text
/// form, or `None` where the text is no such key.
pub uninterp spec fn openssh_key_algorithm(key: Seq<char>) -> Option<Seq<char>>;

/// SHA-256 fingerprint, in the usual `SHA256:` notation, of a public key
/// given in OpenSSH text form, or `None` where the text is no such key.
pub uninterp spec fn openssh_key_fingerprint(key: Seq<char>) -> Option<Seq<char>>;

/// Parses the text with `PublicKey::from_openssh` and returns the name of the
/// key's `algorithm()`. Trusted: the result is the named function of the text.
#[verifier::external_body]
fn key_algorithm(key: &str) -> (r: Option<String>)
    ensures
        r is Some <==> openssh_key_algorithm(key@) is Some,
        r is Some ==> r->0@ == openssh_key_algorithm(key@)->0,
{
    match russh::keys::PublicKey::from_openssh(key) {
        Ok(public_key) => Some(public_key.algorithm().to_string()),
        Err(_) => None,
    }
}

/// Parses the text with `PublicKey::from_openssh` and returns the text of the
/// key's `fingerprint(HashAlg::Sha256)`. Trusted: the result is the named
/// function of the text.
#[verifier::external_body]
fn key_fingerprint(key: &str) -> (r: Option<String>)
    ensures
        r is Some <==> openssh_key_fingerprint(key@) is Some,
        r is Some ==> r->0@ == openssh_key_fingerprint(key@)->0,
{
    match russh::keys::PublicKey::from_openssh(key) {
        Ok(public_key) => Some(public_key.fingerprint(russh::keys::HashAlg::Sha256).to_string()),
        Err(_) => None,
    }
}

/// The message with which decoding the private key text fails under the
/// passphrase, or `None` where the text decodes.
pub uninterp spec fn private_key_error(secret: Seq<char>, passphrase: Option<Seq<char>>) -> Option<
    Seq<char>,
>;

/// The message with which parsing the certificate text fails, or `None`
/// where the text is a certificate.
pub uninterp spec fn certificate_error(certificate: Seq<char>) -> Option<Seq<char>>;

/// The characters of a text that may be missing.
pub open spec fn text_view(text: Option<&str>) -> Option<Seq<char>> {
    match text {
        Some(t) => Some(t@),
        None => None,
    }
}

/// Calls `russh::keys::decode_secret_key`; a failure comes back as the
/// decoder's message. Trusted: whether the text decodes, and the message
/// where it does not, are the named function of text and passphrase.
/// Nothing is claimed of the key that comes back.
#[verifier::external_body]
pub(crate) fn decode_private_key(secret: &str, passphrase: Option<&str>) -> (r: Result<
    russh::keys::PrivateKey,
    String,
>)
    ensures
        r is Ok <==> private_key_error(secret@, text_view(passphrase)) is None,
        r matches Err(message) ==> private_key_error(secret@, text_view(passphrase)) == Some(
            message@,
        ),
{
    russh::keys::decode_secret_key(secret, passphrase).map_err(|e| e.to_string())
}

/// Calls `Certificate::from_openssh`; a failure comes back as the parser's
/// message. Trusted: whether the text parses, and the message where it does
/// not, are the named function of the text. Nothing is claimed of the
/// certificate that comes back.
#[verifier::external_body]
pub(crate) fn parse_certificate(certificate: &str) -> (r: Result<russh::keys::Certificate, String>)
    ensures
        r is Ok <==> certificate_error(certificate@) is None,
        r matches Err(message) ==> certificate_error(certificate@) == Some(message@),
{
    russh::keys::Certificate::from_openssh(certificate).map_err(|e| e.to_string())
}

/// A server's public key as the trust decision reads it.
#[derive(Debug, Clone, PartialEq, Eq)]
pub struct ServerKey {
    /// Name of the key's signature algorithm.
    pub algorithm: String,
    /// SHA-256 fingerprint of the key.
    pub fingerprint: String,
}

impl ServerKey {
    /// Reads a public key in OpenSSH text form. `None` where the text is no
    /// such key.
    pub fn from_openssh(key: &str) -> (r: Option<ServerKey>)
        ensures
            r is Some <==> openssh_key_algorithm(key@) is Some && openssh_key_fingerprint(key@)
                is Some,
            r is Some ==> r->0.algorithm@ == openssh_key_algorithm(key@)->0
                && r->0.fingerprint@ == openssh_key_fingerprint(key@)->0,
    {
        match key_algorithm(key) {
            Some(algorithm) => match key_fingerprint(key) {
                Some(fingerprint) => Some(ServerKey { algorithm, fingerprint }),
                None => None,
            },
            None => None,
        }
    }
}

} // verus!
