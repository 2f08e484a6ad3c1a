use base64::Engine;
use vstd::prelude::*;

use crate::error::ApiError;

verus! {

/// The base58 text (default alphabet) that `bs58` produces for `bytes`.
pub uninterp spec fn base58_encoding(bytes: Seq<u8>) -> Seq<char>;

/// The bytes that `bs58` reads from `text`, or `None` where it rejects the text.
pub uninterp spec fn base58_decoding(text: Seq<char>) -> Option<Seq<u8>>;

/// The padded, standard-alphabet base64 text that `base64` produces for `bytes`.
pub uninterp spec fn base64_encoding(bytes: Seq<u8>) -> Seq<char>;

/// The bytes that `base64` reads from padded, standard-alphabet `text`, or
/// `None` where it rejects the text.
pub uninterp spec fn base64_decoding(text: Seq<char>) -> Option<Seq<u8>>;

#[verifier::external_type_specification]
#[verifier::external_body]
pub struct ExBase58DecodeError(bs58::decode::Error);

#[verifier::external_type_specification]
#[verifier::external_body]
pub struct ExBase64DecodeError(base64::DecodeError);

/// Calls `bs58::encode(..).into_string()`. Trusted: the result is the base58
/// encoding of `bytes`, and decoding that text gives `bytes` back.
#[verifier::external_body]
pub(crate) fn base58_encode(bytes: &[u8]) -> (text: String)
    ensures
        text@ == base58_encoding(bytes@),
        base58_decoding(text@) == Some(bytes@),
{
    bs58::encode(bytes).into_string()
}

/// Calls `bs58::decode(..).into_vec()`. Trusted: it succeeds exactly on the
/// texts that have a base58 decoding, and then returns that decoding.
#[verifier::external_body]
pub(crate) fn base58_decode(text: &str) -> (decoded: Result<Vec<u8>, bs58::decode::Error>)
    ensures
        match decoded {
            Ok(bytes) => base58_decoding(text@) == Some(bytes@),
            Err(_) => base58_decoding(text@) is None,
        },
{
    bs58::decode(text).into_vec()
}

/// Calls `encode` of `base64::engine::general_purpose::STANDARD`. Trusted: the
/// result is the base64 encoding of `bytes`, four characters for every three
/// bytes begun, and decoding that text gives `bytes` back.
#[verifier::external_body]
pub(crate) fn base64_encode(bytes: &[u8]) -> (text: String)
    ensures
        text@ == base64_encoding(bytes@),
        text@.len() == 4 * ((bytes@.len() + 2) / 3),
        base64_decoding(text@) == Some(bytes@),
{
    base64::engine::general_purpose::STANDARD.encode(bytes)
}

/// Calls `decode` of `base64::engine::general_purpose::STANDARD`. Trusted: it
/// succeeds exactly on the texts that have a base64 decoding, and then returns
/// that decoding.
#[verifier::external_body]
pub(crate) fn base64_decode(text: &str) -> (decoded: Result<Vec<u8>, base64::DecodeError>)
    ensures
        match decoded {
            Ok(bytes) => base64_decoding(text@) == Some(bytes@),
            Err(_) => base64_decoding(text@) is None,
        },
{
    base64::engine::general_purpose::STANDARD.decode(text)
}

/// Base58 text for `bytes`. Decoding the text returns `bytes`.
pub fn encode_base58(bytes: &[u8]) -> (text: String)
    ensures
        text@ == base58_encoding(bytes@),
        base58_decoding(text@) == Some(bytes@),
{
    base58_encode(bytes)
}

/// Base64 text for `bytes`, padded to a multiple of four characters.
/// Decoding the text returns `bytes`.
pub fn encode_base64(bytes: &[u8]) -> (text: String)
    ensures
        text@ == base64_encoding(bytes@),
        text@.len() == 4 * ((bytes@.len() + 2) / 3),
        base64_decoding(text@) == Some(bytes@),
{
    base64_encode(bytes)
}

/// What decoding `text` as base58 yields: the bytes, or the format error.
pub open spec fn spec_decode_base58_bytes(text: Seq<char>) -> Result<Seq<u8>, ApiError> {
    match base58_decoding(text) {
        Some(bytes) => Ok(bytes),
        None => Err(ApiError::InvalidSecretFormat),
    }
}

/// What decoding `text` as base64 yields: the bytes, or the format error.
pub open spec fn spec_decode_base64_bytes(text: Seq<char>) -> Result<Seq<u8>, ApiError> {
    match base64_decoding(text) {
        Some(bytes) => Ok(bytes),
        None => Err(ApiError::InvalidSignatureFormat),
    }
}

/// Decodes base58 text into bytes.
pub fn decode_base58_bytes(text: &str) -> (decoded: Result<Vec<u8>, ApiError>)
    ensures
        match decoded {
            Ok(bytes) => spec_decode_base58_bytes(text@) == Ok::<Seq<u8>, ApiError>(bytes@),
            Err(e) => spec_decode_base58_bytes(text@) == Err::<Seq<u8>, ApiError>(e),
        },
{
    match base58_decode(text) {
        Ok(bytes) => Ok(bytes),
        Err(_) => Err(ApiError::InvalidSecretFormat),
    }
}

/// Decodes padded, standard-alphabet base64 text into bytes.
pub fn decode_base64_bytes(text: &str) -> (decoded: Result<Vec<u8>, ApiError>)
    ensures
        match decoded {
            Ok(bytes) => spec_decode_base64_bytes(text@) == Ok::<Seq<u8>, ApiError>(bytes@),
            Err(e) => spec_decode_base64_bytes(text@) == Err::<Seq<u8>, ApiError>(e),
        },
{
    match base64_decode(text) {
        Ok(bytes) => Ok(bytes),
        Err(_) => Err(ApiError::InvalidSignatureFormat),
    }
}

} // verus!
