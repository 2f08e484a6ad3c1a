use vstd::prelude::*;

use crate::codec::{base58_encoding, base64_encoding, encode_base64};
use crate::error::ApiError;
use crate::instruction::{
    initialize_mint, mint_to, spec_initialize_mint, spec_mint_to, token_program,
    AccountReference, AccountReferenceView, Instruction, InstructionView,
};
use crate::keys::spec_parse_public_key;
use crate::models::requests::{CreateTokenRequest, MintTokenRequest};
use crate::models::responses::{
    AccountMeta, AccountMetaView, ApiResponse, InstructionResponse, InstructionResponseView,
    TokenCreateResponse, TokenCreateResponseView,
};
use crate::utils::validation::{
    spec_validate_decimals, validate_amount, validate_decimals, validate_pubkey,
};

verus! {

/// An account in textual shape: its address in base58, its flags unchanged.
pub open spec fn spec_account_meta(account: AccountReferenceView) -> AccountMetaView {
    AccountMetaView {
        pubkey: base58_encoding(account.pubkey),
        is_signer: account.is_signer,
        is_writable: account.is_writable,
    }
}

/// An instruction in textual shape: the program's address in base58, every
/// account in its place, the payload in base64.
pub open spec fn spec_instruction_response(instruction: InstructionView) -> InstructionResponseView {
    InstructionResponseView {
        program_id: base58_encoding(instruction.program_id),
        accounts: Seq::new(
            instruction.accounts.len(),
            |k: int| spec_account_meta(instruction.accounts[k]),
        ),
        instruction_data: base64_encoding(instruction.data),
    }
}

/// The account shown for an instruction that names none: the all-zero
/// address, writable, not a signer.
pub open spec fn spec_placeholder_account() -> AccountMetaView {
    AccountMetaView {
        pubkey: "11111111111111111111111111111111"@,
        is_signer: false,
        is_writable: true,
    }
}

/// An instruction in the textual shape that shows its first account alone.
pub open spec fn spec_token_create_response(
    instruction: InstructionView,
) -> TokenCreateResponseView {
    TokenCreateResponseView {
        program_id: base58_encoding(instruction.program_id),
        accounts: if instruction.accounts.len() > 0 {
            spec_account_meta(instruction.accounts[0])
        } else {
            spec_placeholder_account()
        },
        instruction_data: base64_encoding(instruction.data),
    }
}

/// Why a "create mint" request fails, if it does: the first of authority
/// key, mint key and decimals that is invalid decides.
pub open spec fn spec_create_token_failure(
    payer: Seq<char>,
    mint: Seq<char>,
    decimals: u8,
) -> Option<ApiError> {
    if spec_parse_public_key(payer) is None {
        Some(ApiError::InvalidPubkeyFormat)
    } else if spec_parse_public_key(mint) is None {
        Some(ApiError::InvalidPubkeyFormat)
    } else if spec_validate_decimals(decimals) is Err {
        Some(ApiError::InvalidDecimals)
    } else {
        None
    }
}

/// What a "create mint" request yields: the "initialize mint" instruction
/// with the given authority as mint authority and as freeze authority, in the
/// shape that shows the mint account alone.
pub open spec fn spec_create_token(payer: Seq<char>, mint: Seq<char>, decimals: u8) -> Result<
    TokenCreateResponseView,
    ApiError,
> {
    match spec_create_token_failure(payer, mint, decimals) {
        Some(failure) => Err(failure),
        None => {
            let authority = spec_parse_public_key(payer)->0;
            Ok(
                spec_token_create_response(
                    spec_initialize_mint(
                        spec_parse_public_key(mint)->0,
                        authority,
                        Some(authority),
                        decimals,
                    ),
                ),
            )
        },
    }
}

/// Why a "mint to" request fails, if it does: the first of mint,
/// destination and authority key that is invalid decides. No amount is
/// refused.
pub open spec fn spec_mint_token_failure(
    mint: Seq<char>,
    destination: Seq<char>,
    authority: Seq<char>,
) -> Option<ApiError> {
    if spec_parse_public_key(mint) is None {
        Some(ApiError::InvalidPubkeyFormat)
    } else if spec_parse_public_key(destination) is None {
        Some(ApiError::InvalidPubkeyFormat)
    } else if spec_parse_public_key(authority) is None {
        Some(ApiError::InvalidPubkeyFormat)
    } else {
        None
    }
}

/// What a "mint to" request yields: the "mint to" instruction in textual
/// shape.
pub open spec fn spec_mint_token(
    mint: Seq<char>,
    destination: Seq<char>,
    authority: Seq<char>,
    amount: u64,
) -> Result<InstructionResponseView, ApiError> {
    match spec_mint_token_failure(mint, destination, authority) {
        Some(failure) => Err(failure),
        None => Ok(
            spec_instruction_response(
                spec_mint_to(
                    spec_parse_public_key(mint)->0,
                    spec_parse_public_key(destination)->0,
                    spec_parse_public_key(authority)->0,
                    amount,
                ),
            ),
        ),
    }
}

/// Renders one account: its address becomes base58 text.
pub fn account_to_meta(account: &AccountReference) -> (meta: AccountMeta)
    ensures
        meta@ == spec_account_meta(account@),
{
    AccountMeta {
        pubkey: account.pubkey.to_text(),
        is_signer: account.is_signer,
        is_writable: account.is_writable,
    }
}

/// Renders an instruction in the uniform shape. The accounts keep their
/// order.
pub fn instruction_to_response(instruction: Instruction) -> (response: InstructionResponse)
    ensures
        response@ == spec_instruction_response(instruction@),
{
    let mut accounts: Vec<AccountMeta> = Vec::new();
    let mut k: usize = 0;
    while k < instruction.accounts.len()
        invariant
            k <= instruction.accounts@.len(),
            accounts@.len() == k,
            forall|j: int|
                0 <= j < k ==> (#[trigger] accounts@[j])@ == spec_account_meta(
                    instruction.accounts@[j]@,
                ),
        decreases instruction.accounts@.len() - k,
    {
        accounts.push(account_to_meta(&instruction.accounts[k]));
        k += 1;
    }
    let response = InstructionResponse {
        program_id: instruction.program_id.to_text(),
        accounts,
        instruction_data: encode_base64(instruction.data.as_slice()),
    };
    assert(response@.accounts =~= spec_instruction_response(instruction@).accounts);
    response
}

/// Renders an instruction in the shape that shows its first account alone,
/// or the placeholder account where it names none.
pub fn token_create_instruction_to_response(instruction: Instruction) -> (response:
    TokenCreateResponse)
    ensures
        response@ == spec_token_create_response(instruction@),
{
    let mint_account = if instruction.accounts.len() > 0 {
        account_to_meta(&instruction.accounts[0])
    } else {
        AccountMeta {
            pubkey: "11111111111111111111111111111111".to_owned(),
            is_signer: false,
            is_writable: true,
        }
    };
    TokenCreateResponse {
        program_id: instruction.program_id.to_text(),
        accounts: mint_account,
        instruction_data: encode_base64(instruction.data.as_slice()),
    }
}

/// Builds the instruction that initializes the mint `mint` with `decimals`
/// decimals and with `payer` as its mint authority and freeze authority.
pub fn create_mint(payer: &str, mint: &str, decimals: u8) -> (created: Result<
    TokenCreateResponse,
    ApiError,
>)
    ensures
        match created {
            Ok(response) => spec_create_token(payer@, mint@, decimals) == Ok::<
                TokenCreateResponseView,
                ApiError,
            >(response@),
            Err(failure) => spec_create_token(payer@, mint@, decimals) == Err::<
                TokenCreateResponseView,
                ApiError,
            >(failure),
        },
{
    let mint_authority = match validate_pubkey(payer) {
        Ok(key) => key,
        Err(failure) => {
            return Err(failure);
        },
    };
    let mint_key = match validate_pubkey(mint) {
        Ok(key) => key,
        Err(failure) => {
            return Err(failure);
        },
    };
    if let Err(failure) = validate_decimals(decimals) {
        return Err(failure);
    }
    let instruction = match initialize_mint(
        &token_program(),
        &mint_key,
        &mint_authority,
        Some(&mint_authority),
        decimals,
    ) {
        Ok(instruction) => instruction,
        Err(failure) => {
            return Err(failure);
        },
    };
    Ok(token_create_instruction_to_response(instruction))
}

/// Builds the instruction that mints `amount` of the mint `mint` to
/// `destination` on the word of `authority`.
pub fn mint_tokens(mint: &str, destination: &str, authority: &str, amount: u64) -> (minted: Result<
    InstructionResponse,
    ApiError,
>)
    ensures
        match minted {
            Ok(response) => spec_mint_token(mint@, destination@, authority@, amount) == Ok::<
                InstructionResponseView,
                ApiError,
            >(response@),
            Err(failure) => spec_mint_token(mint@, destination@, authority@, amount) == Err::<
                InstructionResponseView,
                ApiError,
            >(failure),
        },
{
    let mint_key = match validate_pubkey(mint) {
        Ok(key) => key,
        Err(failure) => {
            return Err(failure);
        },
    };
    let destination_key = match validate_pubkey(destination) {
        Ok(key) => key,
        Err(failure) => {
            return Err(failure);
        },
    };
    let authority_key = match validate_pubkey(authority) {
        Ok(key) => key,
        Err(failure) => {
            return Err(failure);
        },
    };
    if let Err(failure) = validate_amount(amount) {
        return Err(failure);
    }
    let instruction = match mint_to(
        &token_program(),
        &mint_key,
        &destination_key,
        &authority_key,
        amount,
    ) {
        Ok(instruction) => instruction,
        Err(failure) => {
            return Err(failure);
        },
    };
    Ok(instruction_to_response(instruction))
}

/// Answers a "create mint" request.
pub fn create_token(request: CreateTokenRequest) -> (response: ApiResponse<TokenCreateResponse>)
    ensures
        response.is_envelope_of(spec_create_token(request.payer@, request.mint@, request.decimals)),
{
    ApiResponse::from_result(
        create_mint(request.payer.as_str(), request.mint.as_str(), request.decimals),
    )
}

/// Answers a "mint to" request.
pub fn mint_token(request: MintTokenRequest) -> (response: ApiResponse<InstructionResponse>)
    ensures
        response.is_envelope_of(
            spec_mint_token(
                request.mint@,
                request.destination@,
                request.authority@,
                request.amount,
            ),
        ),
{
    ApiResponse::from_result(
        mint_tokens(
            request.mint.as_str(),
            request.destination.as_str(),
            request.authority.as_str(),
            request.amount,
        ),
    )
}

} // verus!
