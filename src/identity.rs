//! Signing identities: the long-lived payer, loaded from a credential file or
//! generated, and the one-use storage-account keys.
use solana_sdk::pubkey::{ParsePubkeyError, Pubkey};
use solana_sdk::signature::{Keypair, Signer};
use std::str::FromStr;
use vstd::prelude::*;

use crate::blockchain::{ConfigIssue, GatewayError};

verus! {

#[verifier::external_type_specification]
#[verifier::external_body]
pub struct ExKeypair(Keypair);

#[verifier::external_type_specification]
#[verifier::external_body]
pub struct ExParsePubkeyError(ParsePubkeyError);

#[verifier::external_type_specification]
#[verifier::external_body]
pub struct ExJsonError(serde_json::Error);

/// The compressed ed25519 public key that a 32-byte secret key determines.
pub uninterp spec fn ed25519_public_key(secret: Seq<u8>) -> Seq<u8>;

/// The bytes of the JSON array of integers in `text`, if `text` is one and
/// every element fits a byte.
pub uninterp spec fn json_byte_array(text: Seq<char>) -> Option<Seq<u8>>;

/// The 32 bytes that the base58 text `text` decodes to, if it decodes to
/// exactly 32 bytes.
pub uninterp spec fn base58_public_key(text: Seq<char>) -> Option<Seq<u8>>;

/// Whether 64 bytes hold a secret key followed by its own public key.
pub open spec fn keypair_bytes_valid(b: Seq<u8>) -> bool {
    b.len() == 64 && b.subrange(32, 64) == ed25519_public_key(b.subrange(0, 32))
}

/// A keypair together with its public key.
pub struct SigningIdentity {
    keypair: Keypair,
    public_key: [u8; 32],
}

impl SigningIdentity {
    /// The public key, as bytes.
    pub closed spec fn key(&self) -> Seq<u8> {
        self.public_key@
    }

    /// The public key.
    pub fn public_key(&self) -> (r: [u8; 32])
        ensures
            r@ == self.key(),
    {
        self.public_key
    }

    /// The keypair, for signing.
    pub fn keypair(&self) -> &Keypair {
        &self.keypair
    }
}

/// Relies on `Keypair::new`: a fresh keypair from the operating system's
/// random source. Nothing is known of the key it holds.
#[verifier::external_body]
pub(crate) fn generate_identity() -> SigningIdentity {
    let keypair = Keypair::new();
    SigningIdentity { public_key: keypair.pubkey().to_bytes(), keypair }
}

/// Relies on `Keypair::from_bytes`: it accepts exactly 64 bytes whose second
/// half is the public key of their first half, and the keypair's public key
/// is then that second half. Its error type is not reachable from here, so
/// the error becomes `None`.
#[verifier::external_body]
fn keypair_from_bytes(bytes: &[u8]) -> (r: Option<SigningIdentity>)
    ensures
        r is Some <==> (bytes@.len() == 64 && bytes@.subrange(32, 64) == ed25519_public_key(
            bytes@.subrange(0, 32),
        )),
        r matches Some(id) ==> id.key() == bytes@.subrange(32, 64),
{
    #[allow(deprecated)]
    match Keypair::from_bytes(bytes) {
        Ok(keypair) => Some(SigningIdentity { public_key: keypair.pubkey().to_bytes(), keypair }),
        Err(_) => None,
    }
}

/// Relies on `serde_json::from_str::<Vec<u8>>`: it parses a JSON array of
/// integers, each of which must fit a byte.
#[verifier::external_body]
fn parse_json_bytes(text: &str) -> (r: Result<Vec<u8>, serde_json::Error>)
    ensures
        r is Ok <==> json_byte_array(text@) is Some,
        r matches Ok(v) ==> json_byte_array(text@) == Some(v@),
{
    serde_json::from_str::<Vec<u8>>(text)
}

/// Relies on `Pubkey::from_str`: it decodes base58 text that stands for
/// exactly 32 bytes; the key is taken out as those bytes.
#[verifier::external_body]
fn parse_pubkey(text: &str) -> (r: Result<[u8; 32], ParsePubkeyError>)
    ensures
        r is Ok <==> base58_public_key(text@) is Some,
        r matches Ok(k) ==> base58_public_key(text@) == Some(k@),
{
    match Pubkey::from_str(text) {
        Ok(key) => Ok(key.to_bytes()),
        Err(e) => Err(e),
    }
}

/// Parses a public key written in base58.
pub fn public_key_from_base58(text: &str) -> (r: Option<[u8; 32]>)
    ensures
        r is Some <==> base58_public_key(text@) is Some,
        r matches Some(k) ==> base58_public_key(text@) == Some(k@),
{
    match parse_pubkey(text) {
        Ok(k) => Some(k),
        Err(_) => None,
    }
}

/// Why a credential text yields no keypair.
#[derive(Debug, Clone, Copy, PartialEq, Eq, Structural)]
pub enum CredentialError {
    /// The text is not a JSON array of bytes.
    MalformedJson,
    /// The bytes are not a secret key followed by its public key.
    InvalidKeyBytes,
}

/// How a credential file that cannot be used is treated.
#[derive(Debug, Clone, Copy, PartialEq, Eq, Structural)]
pub enum CredentialPolicy {
    /// Fall back to a freshly generated identity.
    Lenient,
    /// Fail with a configuration error.
    Strict,
}

/// What reading the credential file gave.
pub enum CredentialFile {
    /// No credential path is configured.
    NotConfigured,
    /// The path is configured but the file is missing or unreadable.
    Unreadable,
    /// The text of the file.
    Contents(String),
}

/// The public key of the keypair that a credential text holds, if it holds one.
pub open spec fn credential_key(text: Seq<char>) -> Option<Seq<u8>> {
    match json_byte_array(text) {
        Some(b) => if keypair_bytes_valid(b) {
            Some(b.subrange(32, 64))
        } else {
            None
        },
        None => None,
    }
}

impl CredentialFile {
    /// The public key of the keypair that the file holds, if it holds one.
    pub open spec fn key(&self) -> Option<Seq<u8>> {
        match self {
            CredentialFile::Contents(text) => credential_key(text@),
            _ => None,
        }
    }
}

/// The identity held in 64 keypair bytes: a secret key, then its public key.
pub fn identity_from_bytes(bytes: &[u8]) -> (r: Result<SigningIdentity, CredentialError>)
    ensures
        r is Ok <==> keypair_bytes_valid(bytes@),
        r matches Ok(id) ==> id.key() == bytes@.subrange(32, 64),
        r matches Err(e) ==> e == CredentialError::InvalidKeyBytes,
{
    match keypair_from_bytes(bytes) {
        Some(id) => Ok(id),
        None => Err(CredentialError::InvalidKeyBytes),
    }
}

/// The identity held in a credential text: a JSON array of the 64 keypair bytes.
pub fn identity_from_json(text: &str) -> (r: Result<SigningIdentity, CredentialError>)
    ensures
        json_byte_array(text@) is None ==> r matches Err(CredentialError::MalformedJson),
        json_byte_array(text@) is Some ==> (r is Ok <==> credential_key(text@) is Some),
        r matches Ok(id) ==> credential_key(text@) == Some(id.key()),
        r matches Err(e) ==> (e == CredentialError::MalformedJson <==> json_byte_array(
            text@,
        ) is None),
{
    match parse_json_bytes(text) {
        Ok(bytes) => identity_from_bytes(bytes.as_slice()),
        Err(_) => Err(CredentialError::MalformedJson),
    }
}

/// Loads the payer identity from what the credential file gave, under a policy.
pub struct KeypairStore;

impl KeypairStore {
    /// Under the lenient policy this never fails: an unusable file gives a
    /// freshly generated identity. Under the strict policy an absent or
    /// unreadable file and a file without a valid keypair are configuration
    /// errors. A file with a valid keypair gives that keypair either way.
    pub fn load(policy: CredentialPolicy, file: &CredentialFile) -> (r: Result<
        SigningIdentity,
        GatewayError,
    >)
        ensures
            file.key() matches Some(k) ==> r matches Ok(id) && id.key() == k,
            policy == CredentialPolicy::Lenient ==> r is Ok,
            policy == CredentialPolicy::Strict ==> match file {
                CredentialFile::Contents(text) => credential_key(text@) is None ==> r matches Err(
                    GatewayError::Configuration(ConfigIssue::InvalidCredential),
                ),
                _ => r matches Err(GatewayError::Configuration(ConfigIssue::MissingCredential)),
            },
    {
        let loaded = match file {
            CredentialFile::Contents(text) => match identity_from_json(text.as_str()) {
                Ok(id) => return Ok(id),
                Err(_) => ConfigIssue::InvalidCredential,
            },
            _ => ConfigIssue::MissingCredential,
        };
        match policy {
            CredentialPolicy::Lenient => Ok(generate_identity()),
            CredentialPolicy::Strict => Err(GatewayError::Configuration(loaded)),
        }
    }
}

} // verus!
