//! Whether the server takes the identity it finds on disk, makes a new one,
//! or refuses to start.
use vstd::prelude::*;

use russh::keys::PrivateKey;

verus! {

#[verifier::external_type_specification]
#[verifier::external_body]
pub struct ExPrivateKey(PrivateKey);

/// Whether a text is an OpenSSH private key that `PrivateKey::from_openssh`
/// reads.
pub uninterp spec fn openssh_reads(text: Seq<char>) -> bool;

/// What `PrivateKey::from_openssh` says of a text it does not read.
pub uninterp spec fn openssh_error(text: Seq<char>) -> Seq<char>;

/// Reads an OpenSSH private key.
///
/// Calls `PrivateKey::from_openssh`, which decodes the text and nothing
/// else; a failure carries the `Display` text of the error.
#[verifier::external_body]
fn parse_openssh(text: &str) -> (r: Result<PrivateKey, String>)
    ensures
        r is Ok <==> openssh_reads(text@),
        r matches Err(e) ==> e@ == openssh_error(text@),
{
    PrivateKey::from_openssh(text).map_err(|e| e.to_string())
}

/// Whether a key is kept encrypted under a passphrase.
///
/// Calls `PrivateKey::is_encrypted`; nothing is said of the answer, the key
/// being opaque here.
#[verifier::external_body]
fn key_is_encrypted(key: &PrivateKey) -> (b: bool) {
    key.is_encrypted()
}

/// What was found where the server keeps its identity.
pub enum KeyRead {
    /// No file is there.
    Missing,
    /// The file holds this text.
    Text(String),
}

/// What the server does with what it found.
pub enum HostKeyPlan {
    /// Use this key.
    Use(PrivateKey),
    /// Make a new key: there was none.
    Create,
    /// Refuse to start, for this reason: a key that is there is never
    /// replaced.
    Refuse(String),
}

/// The reason an encrypted key is refused.
pub open spec fn encrypted_refusal() -> Seq<char> {
    "Host key must be unencrypted"@
}

/// Decides on the identity found: a new one is made only when there is no
/// file; a text that is not an OpenSSH key is refused with the reader's
/// reason, an encrypted key is refused, and any other key is used.
pub fn plan_host_key(read: KeyRead) -> (p: HostKeyPlan)
    ensures
        read is Missing <==> p is Create,
        p is Use ==> (read matches KeyRead::Text(t) && openssh_reads(t@)),
        read matches KeyRead::Text(t) ==> if openssh_reads(t@) {
            p is Use || (p matches HostKeyPlan::Refuse(m) && m@ == encrypted_refusal())
        } else {
            p matches HostKeyPlan::Refuse(m) && m@ == openssh_error(t@)
        },
{
    match read {
        KeyRead::Missing => HostKeyPlan::Create,
        KeyRead::Text(text) => match parse_openssh(text.as_str()) {
            Err(e) => HostKeyPlan::Refuse(e),
            Ok(key) => {
                if key_is_encrypted(&key) {
                    HostKeyPlan::Refuse(String::from_str("Host key must be unencrypted"))
                } else {
                    HostKeyPlan::Use(key)
                }
            },
        },
    }
}

} // verus!
