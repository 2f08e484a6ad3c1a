use vstd::prelude::*;

use crate::codec::base58_encoding;
use crate::error::ApiError;
use crate::handlers::token::{instruction_to_response, spec_instruction_response};
use crate::instruction::{
    spec_system_transfer, spec_token_transfer, system_transfer, token_program, token_transfer,
};
use crate::keys::spec_parse_public_key;
use crate::models::requests::{SendSolRequest, SendTokenRequest};
use crate::models::responses::{
    AccountMetaView, ApiResponse, InstructionResponse, InstructionResponseView,
};
use crate::utils::validation::{validate_amount, validate_pubkey};

verus! {

/// Why a value transfer request fails, if it does: the first of sender and
/// recipient key that is invalid decides. No amount is refused.
pub open spec fn spec_send_sol_failure(from: Seq<char>, to: Seq<char>) -> Option<ApiError> {
    if spec_parse_public_key(from) is None {
        Some(ApiError::InvalidPubkeyFormat)
    } else if spec_parse_public_key(to) is None {
        Some(ApiError::InvalidPubkeyFormat)
    } else {
        None
    }
}

/// What a value transfer request yields: the native value transfer in
/// textual shape.
pub open spec fn spec_send_sol(from: Seq<char>, to: Seq<char>, lamports: u64) -> Result<
    InstructionResponseView,
    ApiError,
> {
    match spec_send_sol_failure(from, to) {
        Some(failure) => Err(failure),
        None => Ok(
            spec_instruction_response(
                spec_system_transfer(
                    spec_parse_public_key(from)->0,
                    spec_parse_public_key(to)->0,
                    lamports,
                ),
            ),
        ),
    }
}

/// Why a token transfer request fails, if it does: the first of
/// destination, mint and owner key that is invalid decides. No amount is
/// refused.
pub open spec fn spec_send_token_failure(
    destination: Seq<char>,
    mint: Seq<char>,
    owner: Seq<char>,
) -> Option<ApiError> {
    if spec_parse_public_key(destination) is None {
        Some(ApiError::InvalidPubkeyFormat)
    } else if spec_parse_public_key(mint) is None {
        Some(ApiError::InvalidPubkeyFormat)
    } else if spec_parse_public_key(owner) is None {
        Some(ApiError::InvalidPubkeyFormat)
    } else {
        None
    }
}

/// What a token transfer request yields: the token transfer from the owner's
/// own address to the destination, signed by the owner, in textual shape. The
/// mint has to be a public key and is otherwise unused.
pub open spec fn spec_send_token(
    destination: Seq<char>,
    mint: Seq<char>,
    owner: Seq<char>,
    amount: u64,
) -> Result<InstructionResponseView, ApiError> {
    match spec_send_token_failure(destination, mint, owner) {
        Some(failure) => Err(failure),
        None => {
            let owner_key = spec_parse_public_key(owner)->0;
            Ok(
                spec_instruction_response(
                    spec_token_transfer(
                        owner_key,
                        spec_parse_public_key(destination)->0,
                        owner_key,
                        amount,
                    ),
                ),
            )
        },
    }
}

/// A value transfer between two valid keys succeeds for every amount, zero
/// included, and names two accounts, sender then recipient, both writable;
/// the sender alone signs.
pub proof fn lemma_value_transfer_names_two_writable_accounts(
    from: Seq<char>,
    to: Seq<char>,
    lamports: u64,
)
    ensures
        spec_parse_public_key(from) is Some && spec_parse_public_key(to) is Some ==> {
            &&& spec_send_sol(from, to, lamports) is Ok
            &&& spec_send_sol(from, to, lamports)->Ok_0.accounts.len() == 2
            &&& spec_send_sol(from, to, lamports)->Ok_0.accounts[0] == (AccountMetaView {
                pubkey: base58_encoding(spec_parse_public_key(from)->0),
                is_signer: true,
                is_writable: true,
            })
            &&& spec_send_sol(from, to, lamports)->Ok_0.accounts[1] == (AccountMetaView {
                pubkey: base58_encoding(spec_parse_public_key(to)->0),
                is_signer: false,
                is_writable: true,
            })
        },
{
}

/// Builds the instruction that moves `lamports` of native value from `from`
/// to `to`.
pub fn transfer_value(from: &str, to: &str, lamports: u64) -> (sent: Result<
    InstructionResponse,
    ApiError,
>)
    ensures
        match sent {
            Ok(response) => spec_send_sol(from@, to@, lamports) == Ok::<
                InstructionResponseView,
                ApiError,
            >(response@),
            Err(failure) => spec_send_sol(from@, to@, lamports) == Err::<
                InstructionResponseView,
                ApiError,
            >(failure),
        },
{
    let from_key = match validate_pubkey(from) {
        Ok(key) => key,
        Err(failure) => {
            return Err(failure);
        },
    };
    let to_key = match validate_pubkey(to) {
        Ok(key) => key,
        Err(failure) => {
            return Err(failure);
        },
    };
    if let Err(failure) = validate_amount(lamports) {
        return Err(failure);
    }
    let instruction = system_transfer(&from_key, &to_key, lamports);
    Ok(instruction_to_response(instruction))
}

/// Builds the instruction that moves `amount` of a token from `owner` to
/// `destination`. The owner's address stands in for the owner's token
/// account.
pub fn transfer_tokens(destination: &str, mint: &str, owner: &str, amount: u64) -> (sent: Result<
    InstructionResponse,
    ApiError,
>)
    ensures
        match sent {
            Ok(response) => spec_send_token(destination@, mint@, owner@, amount) == Ok::<
                InstructionResponseView,
                ApiError,
            >(response@),
            Err(failure) => spec_send_token(destination@, mint@, owner@, amount) == Err::<
                InstructionResponseView,
                ApiError,
            >(failure),
        },
{
    let destination_key = match validate_pubkey(destination) {
        Ok(key) => key,
        Err(failure) => {
            return Err(failure);
        },
    };
    let _mint_key = match validate_pubkey(mint) {
        Ok(key) => key,
        Err(failure) => {
            return Err(failure);
        },
    };
    let owner_key = match validate_pubkey(owner) {
        Ok(key) => key,
        Err(failure) => {
            return Err(failure);
        },
    };
    if let Err(failure) = validate_amount(amount) {
        return Err(failure);
    }
    let source_key = owner_key;
    let instruction = match token_transfer(
        &token_program(),
        &source_key,
        &destination_key,
        &owner_key,
        amount,
    ) {
        Ok(instruction) => instruction,
        Err(failure) => {
            return Err(failure);
        },
    };
    Ok(instruction_to_response(instruction))
}

/// Answers a value transfer request.
pub fn send_sol(request: SendSolRequest) -> (response: ApiResponse<InstructionResponse>)
    ensures
        response.is_envelope_of(spec_send_sol(request.from@, request.to@, request.lamports)),
{
    ApiResponse::from_result(
        transfer_value(request.from.as_str(), request.to.as_str(), request.lamports),
    )
}

/// Answers a token transfer request.
pub fn send_token(request: SendTokenRequest) -> (response: ApiResponse<InstructionResponse>)
    ensures
        response.is_envelope_of(
            spec_send_token(request.destination@, request.mint@, request.owner@, request.amount),
        ),
{
    ApiResponse::from_result(
        transfer_tokens(
            request.destination.as_str(),
            request.mint.as_str(),
            request.owner.as_str(),
            request.amount,
        ),
    )
}

} // verus!
