use solana_sdk::signer::Signer;
use std::str::FromStr;
use vstd::prelude::*;
use vstd::slice::slice_to_vec;

use crate::codec::{base58_decoding, base58_encoding};
use crate::error::ApiError;

verus! {

/// Number of bytes in a public key.
pub const PUBLIC_KEY_LENGTH: usize = 32;

/// Number of bytes in a serialized keypair: the secret seed, then the public key.
pub const KEYPAIR_LENGTH: usize = 64;

/// Number of bytes in a signature.
pub const SIGNATURE_LENGTH: usize = 64;

/// Longest text that is tried as a public key.
pub const MAX_PUBLIC_KEY_TEXT_LENGTH: usize = 44;

/// Whether the curve library accepts `bytes` as a serialized keypair: 64
/// bytes whose second half is the public key that belongs to the first half.
pub uninterp spec fn ed25519_keypair_valid(bytes: Seq<u8>) -> bool;

/// The signature that the serialized keypair `keypair` gives for `message`.
pub uninterp spec fn ed25519_signature(keypair: Seq<u8>, message: Seq<u8>) -> Seq<u8>;

/// Whether strict ed25519 verification accepts the 64-byte `signature` for
/// `message` under `public_key`.
pub uninterp spec fn ed25519_verifies(
    signature: Seq<u8>,
    public_key: Seq<u8>,
    message: Seq<u8>,
) -> bool;

#[verifier::external_type_specification]
#[verifier::external_body]
pub struct ExParsePubkeyError(solana_sdk::pubkey::ParsePubkeyError);

/// The bytes that `text` stands for as a public key, if any: `text` is at most
/// 44 bytes long and is base58 for exactly 32 bytes.
pub open spec fn spec_parse_public_key(text: Seq<char>) -> Option<Seq<u8>> {
    match base58_decoding(text) {
        Some(bytes) => if bytes.len() == PUBLIC_KEY_LENGTH && vstd::utf8::encode_utf8(text).len()
            <= MAX_PUBLIC_KEY_TEXT_LENGTH {
            Some(bytes)
        } else {
            None
        },
        None => None,
    }
}

/// Calls `Pubkey::from_str`. Trusted: it refuses a text of more than 44 bytes,
/// one that is not base58 and one that does not decode to 32 bytes, and
/// otherwise returns the decoded bytes.
#[verifier::external_body]
fn pubkey_from_str(text: &str) -> (parsed: Result<[u8; 32], solana_sdk::pubkey::ParsePubkeyError>)
    ensures
        match parsed {
            Ok(bytes) => spec_parse_public_key(text@) == Some(bytes@),
            Err(_) => spec_parse_public_key(text@) is None,
        },
{
    solana_sdk::pubkey::Pubkey::from_str(text).map(|key| key.to_bytes())
}

/// Calls `to_string` of `Pubkey`. Trusted: the text is the base58 encoding of
/// the 32 bytes, is not empty, and reads back as the same public key.
#[verifier::external_body]
fn pubkey_to_string(bytes: &[u8; 32]) -> (text: String)
    ensures
        text@ == base58_encoding(bytes@),
        text@.len() > 0,
        spec_parse_public_key(text@) == Some(bytes@),
{
    solana_sdk::pubkey::Pubkey::new_from_array(*bytes).to_string()
}

/// Calls `Keypair::new` and `to_bytes`. Trusted: whatever the random source
/// gave, the 64 bytes are a keypair that the curve library accepts.
#[verifier::external_body]
fn ed25519_generate() -> (bytes: [u8; 64])
    ensures
        ed25519_keypair_valid(bytes@),
{
    solana_sdk::signer::keypair::Keypair::new().to_bytes()
}

/// Calls `Keypair::from_bytes`. Trusted: it succeeds exactly on the byte
/// strings that the curve library accepts as a keypair, and the keypair
/// serializes to the very bytes it was read from.
#[verifier::external_body]
fn ed25519_keypair_from_bytes(bytes: &[u8]) -> (keypair: Option<[u8; 64]>)
    ensures
        match keypair {
            Some(kept) => ed25519_keypair_valid(bytes@) && kept@ == bytes@,
            None => !ed25519_keypair_valid(bytes@),
        },
{
    match solana_sdk::signer::keypair::Keypair::from_bytes(bytes) {
        Ok(keypair) => Some(keypair.to_bytes()),
        Err(_) => None,
    }
}

/// Calls `pubkey` of a `Keypair` rebuilt from `keypair`. Trusted: the public
/// key is the second half of the serialized keypair.
#[verifier::external_body]
fn ed25519_public_key(keypair: &[u8; 64]) -> (public_key: [u8; 32])
    requires
        ed25519_keypair_valid(keypair@),
    ensures
        public_key@ == keypair@.subrange(32, 64),
{
    solana_sdk::signer::keypair::Keypair::from_bytes(keypair).unwrap().pubkey().to_bytes()
}

/// Calls `sign_message` of a `Keypair` rebuilt from `keypair`. Trusted: the
/// signature depends on the keypair and the message alone.
#[verifier::external_body]
fn ed25519_sign(keypair: &[u8; 64], message: &[u8]) -> (signature: [u8; 64])
    requires
        ed25519_keypair_valid(keypair@),
    ensures
        signature@ == ed25519_signature(keypair@, message@),
{
    solana_sdk::signer::keypair::Keypair::from_bytes(keypair).unwrap().sign_message(message).into()
}

/// Calls `Signature::try_from` on a byte slice. Trusted: it succeeds exactly
/// on slices of 64 bytes and keeps the bytes.
#[verifier::external_body]
fn signature_from_slice(bytes: &[u8]) -> (signature: Option<[u8; 64]>)
    ensures
        match signature {
            Some(kept) => bytes@.len() == SIGNATURE_LENGTH && kept@ == bytes@,
            None => bytes@.len() != SIGNATURE_LENGTH,
        },
{
    match solana_sdk::signature::Signature::try_from(bytes) {
        Ok(signature) => Some(signature.into()),
        Err(_) => None,
    }
}

/// Calls `verify` of `Signature`. Trusted: the verdict depends on the
/// signature, the public key bytes and the message alone.
#[verifier::external_body]
fn ed25519_verify(signature: &[u8; 64], public_key: &[u8], message: &[u8]) -> (valid: bool)
    ensures
        valid == ed25519_verifies(signature@, public_key@, message@),
{
    solana_sdk::signature::Signature::from(*signature).verify(public_key, message)
}

/// A 32-byte public key, which also serves as an account address.
#[derive(Debug, Clone, Copy, PartialEq, Eq)]
pub struct PublicKey {
    pub bytes: [u8; 32],
}

impl View for PublicKey {
    type V = Seq<u8>;

    open spec fn view(&self) -> Seq<u8> {
        self.bytes@
    }
}

impl PublicKey {
    /// Reads a public key from its base58 text.
    pub fn parse(text: &str) -> (parsed: Result<PublicKey, ApiError>)
        ensures
            match parsed {
                Ok(key) => spec_parse_public_key(text@) == Some(key@),
                Err(e) => spec_parse_public_key(text@) is None && e
                    == ApiError::InvalidPubkeyFormat,
            },
    {
        match pubkey_from_str(text) {
            Ok(bytes) => Ok(PublicKey { bytes }),
            Err(_) => Err(ApiError::InvalidPubkeyFormat),
        }
    }

    /// The base58 text of this key. Parsing the text gives the key back.
    pub fn to_text(&self) -> (text: String)
        ensures
            text@ == base58_encoding(self@),
            text@.len() > 0,
            spec_parse_public_key(text@) == Some(self@),
    {
        pubkey_to_string(&self.bytes)
    }

    /// The key's 32 bytes.
    pub fn to_bytes(&self) -> (bytes: Vec<u8>)
        ensures
            bytes@ == self@,
            bytes@.len() == PUBLIC_KEY_LENGTH,
    {
        slice_to_vec(self.bytes.as_slice())
    }
}

/// A 64-byte signature. Whether it is valid for a message and a key is
/// decided by verification, not by the value itself.
#[derive(Debug, Clone, Copy, PartialEq, Eq)]
pub struct Signature {
    pub bytes: [u8; 64],
}

impl View for Signature {
    type V = Seq<u8>;

    open spec fn view(&self) -> Seq<u8> {
        self.bytes@
    }
}

impl Signature {
    /// Reads a signature from raw bytes: exactly 64 of them are required.
    pub fn from_bytes(bytes: &[u8]) -> (parsed: Result<Signature, ApiError>)
        ensures
            match parsed {
                Ok(signature) => bytes@.len() == SIGNATURE_LENGTH && signature@ == bytes@,
                Err(e) => bytes@.len() != SIGNATURE_LENGTH && e == ApiError::InvalidSignature,
            },
    {
        match signature_from_slice(bytes) {
            Some(kept) => Ok(Signature { bytes: kept }),
            None => Err(ApiError::InvalidSignature),
        }
    }

    /// Whether this signature is valid for `message` under `public_key`.
    pub fn verify(&self, public_key: &PublicKey, message: &[u8]) -> (valid: bool)
        ensures
            valid == ed25519_verifies(self@, public_key@, message@),
    {
        ed25519_verify(&self.bytes, public_key.bytes.as_slice(), message)
    }

    /// The signature's 64 bytes.
    pub fn to_bytes(&self) -> (bytes: Vec<u8>)
        ensures
            bytes@ == self@,
            bytes@.len() == SIGNATURE_LENGTH,
    {
        slice_to_vec(self.bytes.as_slice())
    }
}

/// A keypair in serialized form: the 32-byte secret seed followed by the
/// 32-byte public key that belongs to it.
pub struct Keypair {
    bytes: [u8; 64],
}

impl View for Keypair {
    type V = Seq<u8>;

    closed spec fn view(&self) -> Seq<u8> {
        self.bytes@
    }
}

impl Keypair {
    #[verifier::type_invariant]
    spec fn accepted(self) -> bool {
        ed25519_keypair_valid(self.bytes@)
    }

    /// Draws a fresh keypair from the secure random source.
    pub fn generate() -> (keypair: Keypair)
        ensures
            ed25519_keypair_valid(keypair@),
            keypair@.len() == KEYPAIR_LENGTH,
    {
        Keypair { bytes: ed25519_generate() }
    }

    /// Rebuilds a keypair from its 64 serialized bytes.
    pub fn from_bytes(bytes: &[u8]) -> (parsed: Result<Keypair, ApiError>)
        ensures
            match parsed {
                Ok(keypair) => ed25519_keypair_valid(bytes@) && keypair@ == bytes@ && bytes@.len()
                    == KEYPAIR_LENGTH,
                Err(e) => !ed25519_keypair_valid(bytes@) && e == ApiError::InvalidSecretKey,
            },
    {
        match ed25519_keypair_from_bytes(bytes) {
            Some(kept) => Ok(Keypair { bytes: kept }),
            None => Err(ApiError::InvalidSecretKey),
        }
    }

    /// The public half of the keypair.
    pub fn pubkey(&self) -> (public_key: PublicKey)
        ensures
            public_key@ == self@.subrange(32, 64),
    {
        proof {
            use_type_invariant(self);
        }
        PublicKey { bytes: ed25519_public_key(&self.bytes) }
    }

    /// Signs `message` with the secret half of the keypair.
    pub fn sign_message(&self, message: &[u8]) -> (signature: Signature)
        ensures
            signature@ == ed25519_signature(self@, message@),
    {
        proof {
            use_type_invariant(self);
        }
        Signature { bytes: ed25519_sign(&self.bytes, message) }
    }

    /// The keypair's 64 serialized bytes.
    pub fn to_bytes(&self) -> (bytes: Vec<u8>)
        ensures
            bytes@ == self@,
            bytes@.len() == KEYPAIR_LENGTH,
    {
        slice_to_vec(self.bytes.as_slice())
    }
}

} // verus!
