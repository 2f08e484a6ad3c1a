use vstd::prelude::*;

use crate::codec::{base58_decoding, base58_encoding, encode_base58};
use crate::keys::{ed25519_keypair_valid, spec_parse_public_key, Keypair};
use crate::models::responses::{ApiResponse, KeypairResponse};

verus! {

/// Whether `response` shows one keypair that the curve library accepts: the
/// secret is base58 for its 64 bytes, and the public key is base58 for the
/// last 32 of them.
pub open spec fn shows_keypair(response: KeypairResponse) -> bool {
    &&& base58_decoding(response.secret@) is Some
    &&& ed25519_keypair_valid(base58_decoding(response.secret@)->0)
    &&& base58_decoding(response.secret@)->0.len() == 64
    &&& response.secret@ == base58_encoding(base58_decoding(response.secret@)->0)
    &&& response.pubkey@ == base58_encoding(base58_decoding(response.secret@)->0.subrange(32, 64))
    &&& spec_parse_public_key(response.pubkey@) == Some(
        base58_decoding(response.secret@)->0.subrange(32, 64),
    )
}

/// Draws a fresh keypair from the secure random source and shows both halves
/// in base58.
pub fn new_keypair() -> (response: KeypairResponse)
    ensures
        shows_keypair(response),
{
    let keypair = Keypair::generate();
    let keypair_bytes = keypair.to_bytes();
    KeypairResponse {
        pubkey: keypair.pubkey().to_text(),
        secret: encode_base58(keypair_bytes.as_slice()),
    }
}

/// Answers a keypair request. It always succeeds.
pub fn generate_keypair() -> (response: ApiResponse<KeypairResponse>)
    ensures
        response.success,
        response.error is None,
        response.data is Some,
        shows_keypair(response.data->0),
{
    ApiResponse::success(new_keypair())
}

} // verus!
