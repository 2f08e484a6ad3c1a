use solana_artifacts::error::ApiError;
use solana_artifacts::handlers::token::{
    account_to_meta, create_mint, create_token, instruction_to_response, mint_token, mint_tokens,
    token_create_instruction_to_response,
};
use solana_artifacts::handlers::transfer::{send_sol, send_token, transfer_tokens, transfer_value};
use solana_artifacts::instruction::{
    initialize_mint, mint_to, system_transfer, token_program, token_transfer, AccountReference,
    Instruction,
};
use solana_artifacts::keys::PublicKey;
use solana_artifacts::models::requests::{
    CreateTokenRequest, MintTokenRequest, SendSolRequest, SendTokenRequest,
};
use solana_artifacts::models::responses::{AccountMeta, InstructionResponse, TokenCreateResponse};

const TOKEN_PROGRAM: &str = "TokenkegQfeZyiNwAJbNbGKPFXCWuBvf9Ss623VQ5DA";
const SYSTEM_PROGRAM: &str = "11111111111111111111111111111111";
const RENT_SYSVAR: &str = "SysvarRent111111111111111111111111111111111";
const MINT: &str = "4wBqpZM9xaSheZzJSMawUKKwhdpChKbZ5eu5ky4Vigw";
const DESTINATION: &str = "3ELeRTTg5W5hAYaEFznzFV1jknNFkjHqS8ytwvQEQP1Z";
const AUTHORITY: &str = "5Pk716N113awdSaUDZEPZVi9Zs6hJmG5KCJtp5qQK3LB";

fn key(first: u8) -> PublicKey {
    let mut bytes = [0u8; 32];
    for (offset, byte) in bytes.iter_mut().enumerate() {
        *byte = first + offset as u8;
    }
    PublicKey { bytes }
}

fn meta(pubkey: &str, is_signer: bool, is_writable: bool) -> AccountMeta {
    AccountMeta { pubkey: pubkey.to_string(), is_signer, is_writable }
}

fn reference(pubkey: PublicKey, is_signer: bool, is_writable: bool) -> AccountReference {
    AccountReference { pubkey, is_signer, is_writable }
}

#[test]
fn token_program_has_the_known_address() {
    assert_eq!(token_program().to_text(), TOKEN_PROGRAM);
    assert_eq!(
        token_program().bytes,
        [
            6, 221, 246, 225, 215, 101, 161, 147, 217, 203, 225, 70, 206, 235, 121, 172, 28, 180,
            133, 237, 95, 91, 55, 145, 58, 140, 245, 133, 126, 255, 0, 169
        ]
    );
}

#[test]
fn initialize_mint_names_mint_and_rent() {
    let built = initialize_mint(&token_program(), &key(1), &key(65), Some(&key(65)), 6).unwrap();
    let mut data = vec![0u8, 6];
    data.extend_from_slice(&key(65).bytes);
    data.push(1);
    data.extend_from_slice(&key(65).bytes);
    assert_eq!(data.len(), 67);
    let rent = PublicKey {
        bytes: [
            6, 167, 213, 23, 25, 44, 92, 81, 33, 140, 201, 76, 61, 74, 241, 127, 88, 218, 238, 8,
            155, 161, 253, 68, 227, 219, 217, 138, 0, 0, 0, 0,
        ],
    };
    assert_eq!(rent.to_text(), RENT_SYSVAR);
    assert_eq!(
        built,
        Instruction {
            program_id: token_program(),
            accounts: vec![reference(key(1), false, true), reference(rent, false, false)],
            data,
        }
    );
}

#[test]
fn initialize_mint_without_freeze_authority() {
    let built = initialize_mint(&token_program(), &key(1), &key(65), None, 9).unwrap();
    let mut data = vec![0u8, 9];
    data.extend_from_slice(&key(65).bytes);
    data.push(0);
    assert_eq!(built.data, data);
    assert_eq!(built.accounts.len(), 2);
    let other = initialize_mint(&token_program(), &key(1), &key(65), Some(&key(33)), 0).unwrap();
    let mut data = vec![0u8, 0];
    data.extend_from_slice(&key(65).bytes);
    data.push(1);
    data.extend_from_slice(&key(33).bytes);
    assert_eq!(other.data, data);
}

#[test]
fn mint_to_names_mint_destination_authority() {
    let built = mint_to(&token_program(), &key(1), &key(33), &key(65), 1000).unwrap();
    assert_eq!(
        built,
        Instruction {
            program_id: token_program(),
            accounts: vec![
                reference(key(1), false, true),
                reference(key(33), false, true),
                reference(key(65), true, false),
            ],
            data: vec![7, 0xe8, 0x03, 0, 0, 0, 0, 0, 0],
        }
    );
}

#[test]
fn token_transfer_names_source_destination_authority() {
    let built = token_transfer(&token_program(), &key(65), &key(33), &key(65), 42).unwrap();
    assert_eq!(
        built,
        Instruction {
            program_id: token_program(),
            accounts: vec![
                reference(key(65), false, true),
                reference(key(33), false, true),
                reference(key(65), true, false),
            ],
            data: vec![3, 42, 0, 0, 0, 0, 0, 0, 0],
        }
    );
    let most = token_transfer(&token_program(), &key(1), &key(33), &key(65), u64::MAX).unwrap();
    assert_eq!(most.data, vec![3, 255, 255, 255, 255, 255, 255, 255, 255]);
}

#[test]
fn system_transfer_names_sender_and_recipient() {
    let built = system_transfer(&key(1), &key(33), 1_000_000);
    assert_eq!(
        built,
        Instruction {
            program_id: PublicKey { bytes: [0u8; 32] },
            accounts: vec![reference(key(1), true, true), reference(key(33), false, true)],
            data: vec![2, 0, 0, 0, 0x40, 0x42, 0x0f, 0, 0, 0, 0, 0],
        }
    );
    let sixteen_bits = system_transfer(&key(1), &key(33), 0x0102);
    assert_eq!(sixteen_bits.data, vec![2, 0, 0, 0, 2, 1, 0, 0, 0, 0, 0, 0]);
}

#[test]
fn another_program_cannot_be_asked_for_token_instructions() {
    let stranger = key(100);
    let reason = "The account did not have the expected program id".to_string();
    assert_eq!(
        initialize_mint(&stranger, &key(1), &key(65), Some(&key(65)), 6),
        Err(ApiError::InstructionBuildFailed(reason.clone()))
    );
    assert_eq!(
        mint_to(&stranger, &key(1), &key(33), &key(65), 1),
        Err(ApiError::InstructionBuildFailed(reason.clone()))
    );
    assert_eq!(
        token_transfer(&PublicKey { bytes: [0u8; 32] }, &key(1), &key(33), &key(65), 1),
        Err(ApiError::InstructionBuildFailed(reason.clone()))
    );
    assert_eq!(
        ApiError::InstructionBuildFailed(reason).message(),
        "Failed to create instruction: The account did not have the expected program id"
    );
}

#[test]
fn instruction_keeps_the_order_of_its_accounts() {
    let instruction = Instruction {
        program_id: key(1),
        accounts: vec![
            reference(key(65), true, false),
            reference(key(33), false, false),
            reference(key(1), false, true),
            reference(key(65), true, true),
        ],
        data: b"hello".to_vec(),
    };
    assert_eq!(
        instruction_to_response(instruction),
        InstructionResponse {
            program_id: MINT.to_string(),
            accounts: vec![
                meta(AUTHORITY, true, false),
                meta(DESTINATION, false, false),
                meta(MINT, false, true),
                meta(AUTHORITY, true, true),
            ],
            instruction_data: "aGVsbG8=".to_string(),
        }
    );
}

#[test]
fn instruction_without_accounts_or_data() {
    let empty = Instruction { program_id: key(33), accounts: vec![], data: vec![] };
    assert_eq!(
        instruction_to_response(empty.clone()),
        InstructionResponse {
            program_id: DESTINATION.to_string(),
            accounts: vec![],
            instruction_data: String::new(),
        }
    );
    assert_eq!(
        token_create_instruction_to_response(empty),
        TokenCreateResponse {
            program_id: DESTINATION.to_string(),
            accounts: meta(SYSTEM_PROGRAM, false, true),
            instruction_data: String::new(),
        }
    );
}

#[test]
fn create_shape_shows_the_first_account_alone() {
    let instruction = Instruction {
        program_id: key(1),
        accounts: vec![reference(key(65), true, false), reference(key(33), false, true)],
        data: b"abc".to_vec(),
    };
    assert_eq!(
        token_create_instruction_to_response(instruction),
        TokenCreateResponse {
            program_id: MINT.to_string(),
            accounts: meta(AUTHORITY, true, false),
            instruction_data: "YWJj".to_string(),
        }
    );
    assert_eq!(account_to_meta(&reference(key(33), true, true)), meta(DESTINATION, true, true));
}

#[test]
fn create_mint_gives_the_initialize_mint_instruction() {
    assert_eq!(
        create_mint(AUTHORITY, MINT, 6),
        Ok(TokenCreateResponse {
            program_id: TOKEN_PROGRAM.to_string(),
            accounts: meta(MINT, false, true),
            instruction_data: "AAZBQkNERUZHSElKS0xNTk9QUVJTVFVWV1hZWltcXV5fYAFBQkNERUZHSElKS0xNTk9QUVJTVFVWV1hZWltcXV5fYA=="
                .to_string(),
        })
    );
    assert!(create_mint(AUTHORITY, MINT, 0).is_ok());
    assert!(create_mint(AUTHORITY, MINT, 9).is_ok());
}

#[test]
fn create_mint_reports_the_first_invalid_field() {
    assert_eq!(create_mint("bad", MINT, 6), Err(ApiError::InvalidPubkeyFormat));
    assert_eq!(create_mint(AUTHORITY, "bad", 6), Err(ApiError::InvalidPubkeyFormat));
    assert_eq!(create_mint(AUTHORITY, MINT, 10), Err(ApiError::InvalidDecimals));
    assert_eq!(create_mint(AUTHORITY, MINT, 255), Err(ApiError::InvalidDecimals));
    assert_eq!(create_mint("bad", MINT, 10), Err(ApiError::InvalidPubkeyFormat));
    assert_eq!(create_mint(AUTHORITY, "", 10), Err(ApiError::InvalidPubkeyFormat));
}

#[test]
fn create_token_with_ten_decimals_is_refused() {
    let response = create_token(CreateTokenRequest {
        payer: AUTHORITY.to_string(),
        mint: MINT.to_string(),
        decimals: 10,
    });
    assert_eq!(response.success, false);
    assert_eq!(response.data, None);
    assert_eq!(response.error, Some("Decimals must be between 0 and 9".to_string()));
}

#[test]
fn create_token_answers_with_the_single_account_shape() {
    let response = create_token(CreateTokenRequest {
        payer: AUTHORITY.to_string(),
        mint: MINT.to_string(),
        decimals: 9,
    });
    assert!(response.success);
    assert_eq!(response.error, None);
    let data = response.data.unwrap();
    assert_eq!(data.program_id, TOKEN_PROGRAM);
    assert_eq!(data.accounts, meta(MINT, false, true));
}

#[test]
fn mint_tokens_gives_the_mint_to_instruction() {
    assert_eq!(
        mint_tokens(MINT, DESTINATION, AUTHORITY, 1000),
        Ok(InstructionResponse {
            program_id: TOKEN_PROGRAM.to_string(),
            accounts: vec![
                meta(MINT, false, true),
                meta(DESTINATION, false, true),
                meta(AUTHORITY, true, false),
            ],
            instruction_data: "B+gDAAAAAAAA".to_string(),
        })
    );
    assert_eq!(
        mint_tokens(MINT, DESTINATION, AUTHORITY, 0).unwrap().instruction_data,
        "BwAAAAAAAAAA"
    );
    assert_eq!(
        mint_tokens(MINT, DESTINATION, AUTHORITY, u64::MAX).unwrap().instruction_data,
        "B///////////"
    );
}

#[test]
fn mint_token_with_an_invalid_mint_is_refused() {
    let response = mint_token(MintTokenRequest {
        mint: "not-a-key".to_string(),
        destination: DESTINATION.to_string(),
        authority: AUTHORITY.to_string(),
        amount: 5,
    });
    assert_eq!(response.success, false);
    assert_eq!(response.data, None);
    assert_eq!(response.error, Some("Invalid public key format".to_string()));
    assert_eq!(mint_tokens(MINT, "x", AUTHORITY, 5), Err(ApiError::InvalidPubkeyFormat));
    assert_eq!(mint_tokens(MINT, DESTINATION, "x", 5), Err(ApiError::InvalidPubkeyFormat));
    assert_eq!(mint_tokens("Cn8eVZg", DESTINATION, AUTHORITY, 5), Err(ApiError::InvalidPubkeyFormat));
}

#[test]
fn send_sol_with_zero_lamports_succeeds() {
    let response = send_sol(SendSolRequest {
        from: MINT.to_string(),
        to: DESTINATION.to_string(),
        lamports: 0,
    });
    assert!(response.success);
    assert_eq!(response.error, None);
    assert_eq!(
        response.data,
        Some(InstructionResponse {
            program_id: SYSTEM_PROGRAM.to_string(),
            accounts: vec![meta(MINT, true, true), meta(DESTINATION, false, true)],
            instruction_data: "AgAAAAAAAAAAAAAA".to_string(),
        })
    );
}

#[test]
fn transfer_value_encodes_the_amount() {
    let sent = transfer_value(MINT, DESTINATION, 1_000_000).unwrap();
    assert_eq!(sent.instruction_data, "AgAAAEBCDwAAAAAA");
    assert_eq!(sent.accounts.len(), 2);
    assert_eq!(transfer_value("x", DESTINATION, 1), Err(ApiError::InvalidPubkeyFormat));
    assert_eq!(transfer_value(MINT, "x", 1), Err(ApiError::InvalidPubkeyFormat));
}

#[test]
fn transfer_tokens_uses_the_owner_as_source() {
    assert_eq!(
        transfer_tokens(DESTINATION, MINT, AUTHORITY, 42),
        Ok(InstructionResponse {
            program_id: TOKEN_PROGRAM.to_string(),
            accounts: vec![
                meta(AUTHORITY, false, true),
                meta(DESTINATION, false, true),
                meta(AUTHORITY, true, false),
            ],
            instruction_data: "AyoAAAAAAAAA".to_string(),
        })
    );
}

#[test]
fn transfer_tokens_validates_every_key() {
    assert_eq!(transfer_tokens("x", MINT, AUTHORITY, 42), Err(ApiError::InvalidPubkeyFormat));
    assert_eq!(transfer_tokens(DESTINATION, "x", AUTHORITY, 42), Err(ApiError::InvalidPubkeyFormat));
    assert_eq!(transfer_tokens(DESTINATION, MINT, "x", 42), Err(ApiError::InvalidPubkeyFormat));
    let response = send_token(SendTokenRequest {
        destination: DESTINATION.to_string(),
        mint: String::new(),
        owner: AUTHORITY.to_string(),
        amount: 0,
    });
    assert!(!response.success);
    assert_eq!(response.data, None);
    assert_eq!(response.error, Some("Invalid public key format".to_string()));
    let sent = send_token(SendTokenRequest {
        destination: DESTINATION.to_string(),
        mint: MINT.to_string(),
        owner: AUTHORITY.to_string(),
        amount: 0,
    });
    assert!(sent.success);
    assert_eq!(sent.data.unwrap().instruction_data, "AwAAAAAAAAAA");
}
