use vstd::prelude::*;

use crate::error::ApiError;

verus! {

/// The envelope of every response: on success the payload and no error text,
/// on failure the error text and no payload.
#[derive(Debug, Clone, PartialEq, Eq)]
pub struct ApiResponse<T> {
    pub success: bool,
    pub data: Option<T>,
    pub error: Option<String>,
}

impl<T> ApiResponse<T> {
    /// Whether this is the successful envelope around `data`.
    pub open spec fn is_success_with(self, data: T) -> bool {
        self.success && self.data == Some(data) && self.error is None
    }

    /// Whether this is the failed envelope with the error text `text`.
    pub open spec fn is_error_with(self, text: Seq<char>) -> bool {
        !self.success && self.data is None && self.error is Some && self.error->0@ == text
    }

    /// The successful envelope around `data`.
    pub fn success(data: T) -> (response: Self)
        ensures
            response.is_success_with(data),
    {
        Self { success: true, data: Some(data), error: None }
    }

    /// The failed envelope with the error text `error`.
    pub fn error(error: String) -> (response: Self)
        ensures
            response.is_error_with(error@),
            response.error == Some(error),
    {
        Self { success: false, data: None, error: Some(error) }
    }

    /// The envelope for the outcome of an operation: its payload, or else the
    /// text of its failure.
    pub fn from_result(outcome: Result<T, ApiError>) -> (response: Self)
        ensures
            match outcome {
                Ok(data) => response.is_success_with(data),
                Err(failure) => response.is_error_with(failure.spec_message()),
            },
    {
        match outcome {
            Ok(data) => Self::success(data),
            Err(failure) => Self::error(failure.message()),
        }
    }
}

impl<T: View> ApiResponse<T> {
    /// Whether this is the envelope for `outcome`: on success the payload
    /// with that content, on failure the text of the failure.
    pub open spec fn is_envelope_of(self, outcome: Result<T::V, ApiError>) -> bool {
        match outcome {
            Ok(content) => self.success && self.error is None && self.data is Some
                && self.data->0@ == content,
            Err(failure) => self.is_error_with(failure.spec_message()),
        }
    }
}

/// A fresh keypair: the public key and the 64-byte keypair, both base58.
#[derive(Debug, Clone, PartialEq, Eq)]
pub struct KeypairResponse {
    pub pubkey: String,
    pub secret: String,
}

/// The mathematical content of a [`KeypairResponse`].
pub struct KeypairResponseView {
    pub pubkey: Seq<char>,
    pub secret: Seq<char>,
}

impl View for KeypairResponse {
    type V = KeypairResponseView;

    open spec fn view(&self) -> KeypairResponseView {
        KeypairResponseView { pubkey: self.pubkey@, secret: self.secret@ }
    }
}

/// One account of an instruction, with its address as base58 text.
#[derive(Debug, Clone, PartialEq, Eq)]
pub struct AccountMeta {
    pub pubkey: String,
    pub is_signer: bool,
    pub is_writable: bool,
}

/// The mathematical content of an [`AccountMeta`].
pub struct AccountMetaView {
    pub pubkey: Seq<char>,
    pub is_signer: bool,
    pub is_writable: bool,
}

impl View for AccountMeta {
    type V = AccountMetaView;

    open spec fn view(&self) -> AccountMetaView {
        AccountMetaView {
            pubkey: self.pubkey@,
            is_signer: self.is_signer,
            is_writable: self.is_writable,
        }
    }
}

/// An instruction in its uniform textual shape: the program's address in
/// base58, the accounts in order, the payload in base64.
#[derive(Debug, Clone, PartialEq, Eq)]
pub struct InstructionResponse {
    pub program_id: String,
    pub accounts: Vec<AccountMeta>,
    pub instruction_data: String,
}

/// The mathematical content of an [`InstructionResponse`].
pub struct InstructionResponseView {
    pub program_id: Seq<char>,
    pub accounts: Seq<AccountMetaView>,
    pub instruction_data: Seq<char>,
}

impl View for InstructionResponse {
    type V = InstructionResponseView;

    open spec fn view(&self) -> InstructionResponseView {
        InstructionResponseView {
            program_id: self.program_id@,
            accounts: Seq::new(self.accounts@.len(), |k: int| self.accounts@[k]@),
            instruction_data: self.instruction_data@,
        }
    }
}

/// A signature in base64, the signer's public key in base58, and the message
/// that was signed.
#[derive(Debug, Clone, PartialEq, Eq)]
pub struct SignatureResponse {
    pub signature: String,
    pub public_key: String,
    pub message: String,
}

/// The mathematical content of a [`SignatureResponse`].
pub struct SignatureResponseView {
    pub signature: Seq<char>,
    pub public_key: Seq<char>,
    pub message: Seq<char>,
}

impl View for SignatureResponse {
    type V = SignatureResponseView;

    open spec fn view(&self) -> SignatureResponseView {
        SignatureResponseView {
            signature: self.signature@,
            public_key: self.public_key@,
            message: self.message@,
        }
    }
}

/// The verdict on a signature, with the message and the public key text as
/// they were given.
#[derive(Debug, Clone, PartialEq, Eq)]
pub struct VerificationResponse {
    pub valid: bool,
    pub message: String,
    pub pubkey: String,
}

/// The mathematical content of a [`VerificationResponse`].
pub struct VerificationResponseView {
    pub valid: bool,
    pub message: Seq<char>,
    pub pubkey: Seq<char>,
}

impl View for VerificationResponse {
    type V = VerificationResponseView;

    open spec fn view(&self) -> VerificationResponseView {
        VerificationResponseView { valid: self.valid, message: self.message@, pubkey: self.pubkey@ }
    }
}

/// A value transfer whose accounts are given by address alone.
#[derive(Debug, Clone, PartialEq, Eq)]
pub struct SolTransferResponse {
    pub program_id: String,
    pub accounts: Vec<String>,
    pub instruction_data: String,
}

/// One account of a token transfer: its address and whether it signs.
#[derive(Debug, Clone, PartialEq, Eq)]
pub struct TokenAccountMeta {
    pub pubkey: String,
    pub is_signer: bool,
}

/// A token transfer whose accounts carry only the signer flag.
#[derive(Debug, Clone, PartialEq, Eq)]
pub struct TokenTransferResponse {
    pub program_id: String,
    pub accounts: Vec<TokenAccountMeta>,
    pub instruction_data: String,
}

/// The "initialize mint" instruction in the shape that exposes the mint
/// account alone, as a single object in place of the account list.
#[derive(Debug, Clone, PartialEq, Eq)]
pub struct TokenCreateResponse {
    pub program_id: String,
    pub accounts: AccountMeta,
    pub instruction_data: String,
}

/// The mathematical content of a [`TokenCreateResponse`].
pub struct TokenCreateResponseView {
    pub program_id: Seq<char>,
    pub accounts: AccountMetaView,
    pub instruction_data: Seq<char>,
}

impl View for TokenCreateResponse {
    type V = TokenCreateResponseView;

    open spec fn view(&self) -> TokenCreateResponseView {
        TokenCreateResponseView {
            program_id: self.program_id@,
            accounts: self.accounts@,
            instruction_data: self.instruction_data@,
        }
    }
}

} // verus!
