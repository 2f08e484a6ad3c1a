use vstd::prelude::*;

verus! {

/// Request for an "initialize mint" instruction. `payer` is the mint
/// authority; on the wire it is also accepted under the key `mintAuthority`.
#[derive(Debug, Clone, PartialEq, Eq)]
pub struct CreateTokenRequest {
    pub payer: String,
    pub mint: String,
    pub decimals: u8,
}

/// Request for a "mint to" instruction.
#[derive(Debug, Clone, PartialEq, Eq)]
pub struct MintTokenRequest {
    pub mint: String,
    pub destination: String,
    pub authority: String,
    pub amount: u64,
}

/// Request to sign `message` with the base58 keypair `secret`.
#[derive(Debug, Clone, PartialEq, Eq)]
pub struct SignMessageRequest {
    pub message: String,
    pub secret: String,
}

/// Request to verify the base64 `signature` of `message` under the base58
/// public key `pubkey`.
#[derive(Debug, Clone, PartialEq, Eq)]
pub struct VerifyMessageRequest {
    pub message: String,
    pub signature: String,
    pub pubkey: String,
}

/// Request for a native value transfer.
#[derive(Debug, Clone, PartialEq, Eq)]
pub struct SendSolRequest {
    pub from: String,
    pub to: String,
    pub lamports: u64,
}

/// Request for a token transfer. The mint is validated but is not one of the
/// instruction's accounts.
#[derive(Debug, Clone, PartialEq, Eq)]
pub struct SendTokenRequest {
    pub destination: String,
    pub mint: String,
    pub owner: String,
    pub amount: u64,
}

} // verus!
