use solana_sdk::pubkey::Pubkey;
use vstd::bytes::spec_u64_to_le_bytes;
use vstd::prelude::*;

use crate::error::ApiError;
use crate::keys::PublicKey;

verus! {

/// An account together with the way the executing program may treat it.
#[derive(Debug, Clone, Copy, PartialEq, Eq)]
pub struct AccountReference {
    pub pubkey: PublicKey,
    pub is_signer: bool,
    pub is_writable: bool,
}

/// The mathematical content of an [`AccountReference`].
pub struct AccountReferenceView {
    pub pubkey: Seq<u8>,
    pub is_signer: bool,
    pub is_writable: bool,
}

impl View for AccountReference {
    type V = AccountReferenceView;

    open spec fn view(&self) -> AccountReferenceView {
        AccountReferenceView {
            pubkey: self.pubkey@,
            is_signer: self.is_signer,
            is_writable: self.is_writable,
        }
    }
}

impl AccountReference {
    /// A reference to the account with address `pubkey`.
    pub fn new(pubkey: [u8; 32], is_signer: bool, is_writable: bool) -> (account: AccountReference)
        ensures
            account@ == account_reference(pubkey@, is_signer, is_writable),
    {
        AccountReference { pubkey: PublicKey { bytes: pubkey }, is_signer, is_writable }
    }
}

/// An unsigned instruction: the program it addresses, the accounts it names,
/// in the order the program expects them, and the program's opaque payload.
#[derive(Debug, Clone, PartialEq, Eq)]
pub struct Instruction {
    pub program_id: PublicKey,
    pub accounts: Vec<AccountReference>,
    pub data: Vec<u8>,
}

/// The mathematical content of an [`Instruction`].
pub struct InstructionView {
    pub program_id: Seq<u8>,
    pub accounts: Seq<AccountReferenceView>,
    pub data: Seq<u8>,
}

impl View for Instruction {
    type V = InstructionView;

    open spec fn view(&self) -> InstructionView {
        InstructionView {
            program_id: self.program_id@,
            accounts: Seq::new(self.accounts@.len(), |k: int| self.accounts@[k]@),
            data: self.data@,
        }
    }
}

impl Instruction {
    /// An instruction for the program with address `program_id`.
    pub fn new(program_id: [u8; 32], accounts: Vec<AccountReference>, data: Vec<u8>) -> (made:
        Instruction)
        ensures
            made.program_id@ == program_id@,
            made.accounts == accounts,
            made.data == data,
    {
        Instruction { program_id: PublicKey { bytes: program_id }, accounts, data }
    }
}

/// An account reference with the given address and flags.
pub open spec fn account_reference(
    pubkey: Seq<u8>,
    is_signer: bool,
    is_writable: bool,
) -> AccountReferenceView {
    AccountReferenceView { pubkey, is_signer, is_writable }
}

/// Address of the token program.
pub open spec fn token_program_id() -> Seq<u8> {
    seq![
        6u8, 221u8, 246u8, 225u8, 215u8, 101u8, 161u8, 147u8, 217u8, 203u8, 225u8, 70u8, 206u8,
        235u8, 121u8, 172u8, 28u8, 180u8, 133u8, 237u8, 95u8, 91u8, 55u8, 145u8, 58u8, 140u8,
        245u8, 133u8, 126u8, 255u8, 0u8, 169u8,
    ]
}

/// Address of the rent sysvar account.
pub open spec fn rent_sysvar_id() -> Seq<u8> {
    seq![
        6u8, 167u8, 213u8, 23u8, 25u8, 44u8, 92u8, 81u8, 33u8, 140u8, 201u8, 76u8, 61u8, 74u8,
        241u8, 127u8, 88u8, 218u8, 238u8, 8u8, 155u8, 161u8, 253u8, 68u8, 227u8, 219u8, 217u8,
        138u8, 0u8, 0u8, 0u8, 0u8,
    ]
}

/// Address of the system program: 32 zero bytes.
pub open spec fn system_program_id() -> Seq<u8> {
    Seq::new(32, |k: int| 0u8)
}

/// The reason given when an instruction is requested of a program other than
/// the token program.
pub open spec fn incorrect_program_reason() -> Seq<char> {
    "The account did not have the expected program id"@
}

/// The "initialize mint" instruction: the mint is writable, the rent sysvar
/// read-only, neither signs. The payload is the tag 0, the decimals, the mint
/// authority, and the freeze authority behind a presence byte.
pub open spec fn spec_initialize_mint(
    mint: Seq<u8>,
    mint_authority: Seq<u8>,
    freeze_authority: Option<Seq<u8>>,
    decimals: u8,
) -> InstructionView {
    InstructionView {
        program_id: token_program_id(),
        accounts: seq![
            account_reference(mint, false, true),
            account_reference(rent_sysvar_id(), false, false),
        ],
        data: seq![0u8, decimals] + mint_authority + match freeze_authority {
            Some(freeze) => seq![1u8] + freeze,
            None => seq![0u8],
        },
    }
}

/// The "mint to" instruction with a single signing authority: mint and
/// destination are writable, the authority signs. The payload is the tag 7
/// and the amount as eight little-endian bytes.
pub open spec fn spec_mint_to(
    mint: Seq<u8>,
    destination: Seq<u8>,
    authority: Seq<u8>,
    amount: u64,
) -> InstructionView {
    InstructionView {
        program_id: token_program_id(),
        accounts: seq![
            account_reference(mint, false, true),
            account_reference(destination, false, true),
            account_reference(authority, true, false),
        ],
        data: seq![7u8] + spec_u64_to_le_bytes(amount),
    }
}

/// The token "transfer" instruction with a single signing authority: source
/// and destination are writable, the authority signs. The payload is the tag
/// 3 and the amount as eight little-endian bytes.
pub open spec fn spec_token_transfer(
    source: Seq<u8>,
    destination: Seq<u8>,
    authority: Seq<u8>,
    amount: u64,
) -> InstructionView {
    InstructionView {
        program_id: token_program_id(),
        accounts: seq![
            account_reference(source, false, true),
            account_reference(destination, false, true),
            account_reference(authority, true, false),
        ],
        data: seq![3u8] + spec_u64_to_le_bytes(amount),
    }
}

/// The native value transfer: the sender is writable and signs, the recipient
/// is writable. The payload is the tag 2 as four little-endian bytes and the
/// amount as eight.
pub open spec fn spec_system_transfer(from: Seq<u8>, to: Seq<u8>, lamports: u64) -> InstructionView {
    InstructionView {
        program_id: system_program_id(),
        accounts: seq![
            account_reference(from, true, true),
            account_reference(to, false, true),
        ],
        data: seq![2u8, 0u8, 0u8, 0u8] + spec_u64_to_le_bytes(lamports),
    }
}

/// Calls `spl_token::id`. Trusted: the 32 bytes of the token program's address.
#[verifier::external_body]
fn spl_token_id() -> (id: [u8; 32])
    ensures
        id@ == token_program_id(),
{
    spl_token::id().to_bytes()
}

/// Calls `spl_token::instruction::initialize_mint`. Trusted: for any program
/// but the token program it fails with the library's "incorrect program id"
/// text; otherwise it returns the "initialize mint" instruction.
#[verifier::external_body]
fn spl_initialize_mint(
    program: &PublicKey,
    mint: &PublicKey,
    mint_authority: &PublicKey,
    freeze_authority: Option<&PublicKey>,
    decimals: u8,
) -> (built: Result<Instruction, String>)
    ensures
        match built {
            Ok(made) => program@ == token_program_id() && made@ == spec_initialize_mint(
                mint@,
                mint_authority@,
                match freeze_authority {
                    Some(freeze) => Some(freeze@),
                    None => None,
                },
                decimals,
            ),
            Err(reason) => program@ != token_program_id() && reason@ == incorrect_program_reason(),
        },
{
    let freeze = freeze_authority.map(|key| Pubkey::new_from_array(key.bytes));
    match spl_token::instruction::initialize_mint(
        &Pubkey::new_from_array(program.bytes), &Pubkey::new_from_array(mint.bytes),
        &Pubkey::new_from_array(mint_authority.bytes), freeze.as_ref(), decimals,
    ) {
        Ok(i) => Ok(Instruction::new(
            i.program_id.to_bytes(),
            i.accounts.iter().map(|a| AccountReference::new(a.pubkey.to_bytes(), a.is_signer, a.is_writable)).collect(),
            i.data,
        )),
        Err(e) => Err(e.to_string()),
    }
}

/// Calls `spl_token::instruction::mint_to` with no signers beside the
/// authority. Trusted: for any program but the token program it fails with
/// the library's "incorrect program id" text; otherwise it returns the "mint
/// to" instruction.
#[verifier::external_body]
fn spl_mint_to(
    program: &PublicKey,
    mint: &PublicKey,
    destination: &PublicKey,
    authority: &PublicKey,
    amount: u64,
) -> (built: Result<Instruction, String>)
    ensures
        match built {
            Ok(made) => program@ == token_program_id() && made@ == spec_mint_to(
                mint@,
                destination@,
                authority@,
                amount,
            ),
            Err(reason) => program@ != token_program_id() && reason@ == incorrect_program_reason(),
        },
{
    match spl_token::instruction::mint_to(
        &Pubkey::new_from_array(program.bytes), &Pubkey::new_from_array(mint.bytes),
        &Pubkey::new_from_array(destination.bytes), &Pubkey::new_from_array(authority.bytes), &[], amount,
    ) {
        Ok(i) => Ok(Instruction::new(
            i.program_id.to_bytes(),
            i.accounts.iter().map(|a| AccountReference::new(a.pubkey.to_bytes(), a.is_signer, a.is_writable)).collect(),
            i.data,
        )),
        Err(e) => Err(e.to_string()),
    }
}

/// Calls `spl_token::instruction::transfer` with no signers beside the
/// authority. Trusted: for any program but the token program it fails with
/// the library's "incorrect program id" text; otherwise it returns the token
/// "transfer" instruction.
#[verifier::external_body]
fn spl_transfer(
    program: &PublicKey,
    source: &PublicKey,
    destination: &PublicKey,
    authority: &PublicKey,
    amount: u64,
) -> (built: Result<Instruction, String>)
    ensures
        match built {
            Ok(made) => program@ == token_program_id() && made@ == spec_token_transfer(
                source@,
                destination@,
                authority@,
                amount,
            ),
            Err(reason) => program@ != token_program_id() && reason@ == incorrect_program_reason(),
        },
{
    match spl_token::instruction::transfer(
        &Pubkey::new_from_array(program.bytes), &Pubkey::new_from_array(source.bytes),
        &Pubkey::new_from_array(destination.bytes), &Pubkey::new_from_array(authority.bytes), &[], amount,
    ) {
        Ok(i) => Ok(Instruction::new(
            i.program_id.to_bytes(),
            i.accounts.iter().map(|a| AccountReference::new(a.pubkey.to_bytes(), a.is_signer, a.is_writable)).collect(),
            i.data,
        )),
        Err(e) => Err(e.to_string()),
    }
}

/// Calls `solana_sdk::system_instruction::transfer`. Trusted: it returns the
/// native value transfer.
#[verifier::external_body]
fn system_program_transfer(from: &PublicKey, to: &PublicKey, lamports: u64) -> (made: Instruction)
    ensures
        made@ == spec_system_transfer(from@, to@, lamports),
{
    let i = solana_sdk::system_instruction::transfer(
        &Pubkey::new_from_array(from.bytes), &Pubkey::new_from_array(to.bytes), lamports,
    );
    Instruction::new(
        i.program_id.to_bytes(),
        i.accounts.iter().map(|a| AccountReference::new(a.pubkey.to_bytes(), a.is_signer, a.is_writable)).collect(),
        i.data,
    )
}

/// The token program's address.
pub fn token_program() -> (program: PublicKey)
    ensures
        program@ == token_program_id(),
{
    PublicKey { bytes: spl_token_id() }
}

/// Whether `failure` is the build failure that any program but the token
/// program gets.
pub open spec fn is_incorrect_program_failure(failure: ApiError) -> bool {
    failure matches ApiError::InstructionBuildFailed(reason) && reason@
        == incorrect_program_reason()
}

/// Builds the "initialize mint" instruction for `program`, which has to be
/// the token program.
pub fn initialize_mint(
    program: &PublicKey,
    mint: &PublicKey,
    mint_authority: &PublicKey,
    freeze_authority: Option<&PublicKey>,
    decimals: u8,
) -> (built: Result<Instruction, ApiError>)
    ensures
        match built {
            Ok(made) => program@ == token_program_id() && made@ == spec_initialize_mint(
                mint@,
                mint_authority@,
                match freeze_authority {
                    Some(freeze) => Some(freeze@),
                    None => None,
                },
                decimals,
            ),
            Err(failure) => program@ != token_program_id() && is_incorrect_program_failure(
                failure,
            ),
        },
{
    match spl_initialize_mint(program, mint, mint_authority, freeze_authority, decimals) {
        Ok(made) => Ok(made),
        Err(reason) => Err(ApiError::InstructionBuildFailed(reason)),
    }
}

/// Builds the "mint to" instruction for `program`, which has to be the token
/// program.
pub fn mint_to(
    program: &PublicKey,
    mint: &PublicKey,
    destination: &PublicKey,
    authority: &PublicKey,
    amount: u64,
) -> (built: Result<Instruction, ApiError>)
    ensures
        match built {
            Ok(made) => program@ == token_program_id() && made@ == spec_mint_to(
                mint@,
                destination@,
                authority@,
                amount,
            ),
            Err(failure) => program@ != token_program_id() && is_incorrect_program_failure(
                failure,
            ),
        },
{
    match spl_mint_to(program, mint, destination, authority, amount) {
        Ok(made) => Ok(made),
        Err(reason) => Err(ApiError::InstructionBuildFailed(reason)),
    }
}

/// Builds the token "transfer" instruction for `program`, which has to be the
/// token program.
pub fn token_transfer(
    program: &PublicKey,
    source: &PublicKey,
    destination: &PublicKey,
    authority: &PublicKey,
    amount: u64,
) -> (built: Result<Instruction, ApiError>)
    ensures
        match built {
            Ok(made) => program@ == token_program_id() && made@ == spec_token_transfer(
                source@,
                destination@,
                authority@,
                amount,
            ),
            Err(failure) => program@ != token_program_id() && is_incorrect_program_failure(
                failure,
            ),
        },
{
    match spl_transfer(program, source, destination, authority, amount) {
        Ok(made) => Ok(made),
        Err(reason) => Err(ApiError::InstructionBuildFailed(reason)),
    }
}

/// Builds the native value transfer of `lamports` from `from` to `to`.
pub fn system_transfer(from: &PublicKey, to: &PublicKey, lamports: u64) -> (made: Instruction)
    ensures
        made@ == spec_system_transfer(from@, to@, lamports),
{
    system_program_transfer(from, to, lamports)
}

} // verus!
