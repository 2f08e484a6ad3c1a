use vstd::prelude::*;

use crate::codec::{base58_decoding, decode_base58_bytes, spec_decode_base58_bytes};
use crate::error::ApiError;
use crate::keys::{spec_parse_public_key, PublicKey, PUBLIC_KEY_LENGTH};

verus! {

/// Largest number of decimals a mint may have.
pub const MAX_DECIMALS: u8 = 9;

/// What validating `text` as a public key yields: its 32 bytes, or the
/// format error.
pub open spec fn spec_validate_pubkey(text: Seq<char>) -> Result<Seq<u8>, ApiError> {
    match spec_parse_public_key(text) {
        Some(bytes) => Ok(bytes),
        None => Err(ApiError::InvalidPubkeyFormat),
    }
}

/// What validating `decimals` yields: nothing to report up to nine, the
/// decimals error above.
pub open spec fn spec_validate_decimals(decimals: u8) -> Result<(), ApiError> {
    if decimals <= MAX_DECIMALS {
        Ok(())
    } else {
        Err(ApiError::InvalidDecimals)
    }
}

/// Reads a public key from base58 text. The text has to decode to exactly
/// 32 bytes.
pub fn validate_pubkey(pubkey_str: &str) -> (validated: Result<PublicKey, ApiError>)
    ensures
        match validated {
            Ok(key) => spec_validate_pubkey(pubkey_str@) == Ok::<Seq<u8>, ApiError>(key@),
            Err(failure) => spec_validate_pubkey(pubkey_str@) == Err::<Seq<u8>, ApiError>(failure),
        },
        validated is Ok ==> validated->Ok_0@.len() == PUBLIC_KEY_LENGTH,
{
    PublicKey::parse(pubkey_str)
}

/// Reads the bytes of a secret from base58 text.
pub fn validate_base58_secret(secret: &str) -> (validated: Result<Vec<u8>, ApiError>)
    ensures
        match validated {
            Ok(bytes) => spec_decode_base58_bytes(secret@) == Ok::<Seq<u8>, ApiError>(bytes@),
            Err(failure) => spec_decode_base58_bytes(secret@) == Err::<Seq<u8>, ApiError>(failure),
        },
{
    decode_base58_bytes(secret)
}

/// Every amount is valid, zero included.
pub fn validate_amount(amount: u64) -> (validated: Result<(), ApiError>)
    ensures
        validated is Ok,
{
    Ok(())
}

/// The number of decimals of a mint has to lie between 0 and 9.
pub fn validate_decimals(decimals: u8) -> (validated: Result<(), ApiError>)
    ensures
        validated == spec_validate_decimals(decimals),
        validated is Ok <==> decimals <= 9,
{
    if decimals > MAX_DECIMALS {
        return Err(ApiError::InvalidDecimals);
    }
    Ok(())
}

/// A text that is base58 for any number of bytes other than 32 is refused as
/// a public key, and so is a text that is not base58 at all.
pub proof fn lemma_public_key_has_32_bytes(text: Seq<char>)
    ensures
        base58_decoding(text) is Some && base58_decoding(text)->0.len() != 32
            ==> spec_validate_pubkey(text) == Err::<Seq<u8>, ApiError>(
            ApiError::InvalidPubkeyFormat,
        ),
        base58_decoding(text) is None ==> spec_validate_pubkey(text) == Err::<Seq<u8>, ApiError>(
            ApiError::InvalidPubkeyFormat,
        ),
        spec_validate_pubkey(text) is Ok ==> spec_validate_pubkey(text)->Ok_0.len() == 32,
{
}

} // verus!
