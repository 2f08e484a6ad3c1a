use vstd::prelude::*;
use vstd::utf8::encode_utf8;

use crate::codec::{
    base58_decoding, base58_encoding, base64_decoding, base64_encoding, decode_base64_bytes,
    encode_base64,
};
use crate::error::ApiError;
use crate::keys::{
    ed25519_keypair_valid, ed25519_signature, ed25519_verifies, spec_parse_public_key, Keypair,
    Signature, SIGNATURE_LENGTH,
};
use crate::models::requests::{SignMessageRequest, VerifyMessageRequest};
use crate::models::responses::{
    ApiResponse, SignatureResponse, SignatureResponseView, VerificationResponse,
    VerificationResponseView,
};
use crate::utils::validation::{validate_base58_secret, validate_pubkey};

verus! {

/// Why signing `message` with `secret` fails, if it does. An empty field is
/// reported before anything is decoded, then a secret that is not base58,
/// then bytes that are no keypair.
pub open spec fn spec_sign_failure(message: Seq<char>, secret: Seq<char>) -> Option<ApiError> {
    if message.len() == 0 || secret.len() == 0 {
        Some(ApiError::MissingFields)
    } else {
        match base58_decoding(secret) {
            None => Some(ApiError::InvalidSecretFormat),
            Some(keypair) => if ed25519_keypair_valid(keypair) {
                None
            } else {
                Some(ApiError::InvalidSecretKey)
            },
        }
    }
}

/// What signing `message` with `secret` yields: the signature of the
/// message's UTF-8 bytes in base64, the keypair's public half in base58, and
/// the message itself.
pub open spec fn spec_sign(message: Seq<char>, secret: Seq<char>) -> Result<
    SignatureResponseView,
    ApiError,
> {
    match spec_sign_failure(message, secret) {
        Some(failure) => Err(failure),
        None => {
            let keypair = base58_decoding(secret)->0;
            Ok(
                SignatureResponseView {
                    signature: base64_encoding(ed25519_signature(keypair, encode_utf8(message))),
                    public_key: base58_encoding(keypair.subrange(32, 64)),
                    message,
                },
            )
        },
    }
}

/// Why verifying fails, if it does. An empty field is reported first, then a
/// public key that does not parse, then a signature that is not base64, then
/// one that is not 64 bytes long. A signature of the right shape that does
/// not fit the message is no failure.
pub open spec fn spec_verify_failure(
    message: Seq<char>,
    signature: Seq<char>,
    pubkey: Seq<char>,
) -> Option<ApiError> {
    if message.len() == 0 || signature.len() == 0 || pubkey.len() == 0 {
        Some(ApiError::MissingFields)
    } else if spec_parse_public_key(pubkey) is None {
        Some(ApiError::InvalidPubkeyFormat)
    } else {
        match base64_decoding(signature) {
            None => Some(ApiError::InvalidSignatureFormat),
            Some(bytes) => if bytes.len() == SIGNATURE_LENGTH {
                None
            } else {
                Some(ApiError::InvalidSignature)
            },
        }
    }
}

/// What verifying yields: the verdict of ed25519 verification on the decoded
/// signature, the decoded public key and the message's UTF-8 bytes, with the
/// message and the public key text as given.
pub open spec fn spec_verify(message: Seq<char>, signature: Seq<char>, pubkey: Seq<char>) -> Result<
    VerificationResponseView,
    ApiError,
> {
    match spec_verify_failure(message, signature, pubkey) {
        Some(failure) => Err(failure),
        None => Ok(
            VerificationResponseView {
                valid: ed25519_verifies(
                    base64_decoding(signature)->0,
                    spec_parse_public_key(pubkey)->0,
                    encode_utf8(message),
                ),
                message,
                pubkey,
            },
        ),
    }
}

/// Verification yields a verdict exactly when no field is empty, the public
/// key parses and the signature text decodes to 64 bytes. In particular a
/// signature of the right shape is judged and never refused, whatever its
/// bits are.
pub proof fn lemma_well_formed_signature_is_judged(
    message: Seq<char>,
    signature: Seq<char>,
    pubkey: Seq<char>,
)
    ensures
        spec_verify(message, signature, pubkey) is Ok <==> {
            &&& message.len() > 0
            &&& signature.len() > 0
            &&& pubkey.len() > 0
            &&& spec_parse_public_key(pubkey) is Some
            &&& base64_decoding(signature) is Some
            &&& base64_decoding(signature)->0.len() == 64
        },
{
}

/// Signs the UTF-8 bytes of `message` with the keypair that `secret` holds in
/// base58.
///
/// What comes out can be handed to [`verify`] as it is: verification then
/// does not fail, and its verdict is that of the curve library on the
/// signature it has just made.
pub fn sign(message: &str, secret: &str) -> (signed: Result<SignatureResponse, ApiError>)
    ensures
        match signed {
            Ok(response) => spec_sign(message@, secret@) == Ok::<SignatureResponseView, ApiError>(
                response@,
            ),
            Err(failure) => spec_sign(message@, secret@) == Err::<SignatureResponseView, ApiError>(
                failure,
            ),
        },
        signed is Ok ==> spec_verify(message@, signed->Ok_0.signature@, signed->Ok_0.public_key@)
            == Ok::<VerificationResponseView, ApiError>(
            VerificationResponseView {
                valid: ed25519_verifies(
                    ed25519_signature(base58_decoding(secret@)->0, encode_utf8(message@)),
                    base58_decoding(secret@)->0.subrange(32, 64),
                    encode_utf8(message@),
                ),
                message: message@,
                pubkey: signed->Ok_0.public_key@,
            },
        ),
{
    if message.is_empty() || secret.is_empty() {
        return Err(ApiError::MissingFields);
    }
    let keypair_bytes = match validate_base58_secret(secret) {
        Ok(bytes) => bytes,
        Err(failure) => {
            return Err(failure);
        },
    };
    let keypair = match Keypair::from_bytes(keypair_bytes.as_slice()) {
        Ok(keypair) => keypair,
        Err(failure) => {
            return Err(failure);
        },
    };
    let signature = keypair.sign_message(message.as_bytes());
    let signature_bytes = signature.to_bytes();
    let response = SignatureResponse {
        signature: encode_base64(signature_bytes.as_slice()),
        public_key: keypair.pubkey().to_text(),
        message: message.to_owned(),
    };
    Ok(response)
}

/// Verifies the base64 `signature` of the UTF-8 bytes of `message` under the
/// base58 public key `pubkey`.
pub fn verify(message: &str, signature: &str, pubkey: &str) -> (verified: Result<
    VerificationResponse,
    ApiError,
>)
    ensures
        match verified {
            Ok(response) => spec_verify(message@, signature@, pubkey@) == Ok::<
                VerificationResponseView,
                ApiError,
            >(response@),
            Err(failure) => spec_verify(message@, signature@, pubkey@) == Err::<
                VerificationResponseView,
                ApiError,
            >(failure),
        },
{
    if message.is_empty() || signature.is_empty() || pubkey.is_empty() {
        return Err(ApiError::MissingFields);
    }
    let public_key = match validate_pubkey(pubkey) {
        Ok(key) => key,
        Err(failure) => {
            return Err(failure);
        },
    };
    let signature_bytes = match decode_base64_bytes(signature) {
        Ok(bytes) => bytes,
        Err(failure) => {
            return Err(failure);
        },
    };
    let parsed = match Signature::from_bytes(signature_bytes.as_slice()) {
        Ok(parsed) => parsed,
        Err(failure) => {
            return Err(failure);
        },
    };
    let valid = parsed.verify(&public_key, message.as_bytes());
    Ok(VerificationResponse { valid, message: message.to_owned(), pubkey: pubkey.to_owned() })
}

/// Answers a signing request.
pub fn sign_message(request: SignMessageRequest) -> (response: ApiResponse<SignatureResponse>)
    ensures
        response.is_envelope_of(spec_sign(request.message@, request.secret@)),
{
    ApiResponse::from_result(sign(request.message.as_str(), request.secret.as_str()))
}

/// Answers a verification request.
pub fn verify_message(request: VerifyMessageRequest) -> (response: ApiResponse<
    VerificationResponse,
>)
    ensures
        response.is_envelope_of(
            spec_verify(request.message@, request.signature@, request.pubkey@),
        ),
{
    ApiResponse::from_result(
        verify(request.message.as_str(), request.signature.as_str(), request.pubkey.as_str()),
    )
}

} // verus!
