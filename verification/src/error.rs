use vstd::prelude::*;

verus! {

/// Every way a request can fail. Each failure is terminal for its request.
#[derive(Debug, Clone, PartialEq, Eq)]
pub enum ApiError {
    /// A required text field was empty.
    MissingFields,
    /// A public key was not base58 text for exactly 32 bytes.
    InvalidPubkeyFormat,
    /// A secret was not base58 text.
    InvalidSecretFormat,
    /// The decoded secret is not a well-formed 64-byte keypair.
    InvalidSecretKey,
    /// A signature was not padded standard base64 text.
    InvalidSignatureFormat,
    /// The decoded signature is not 64 bytes long.
    InvalidSignature,
    /// The number of decimals exceeds nine.
    InvalidDecimals,
    /// The instruction could not be assembled; carries the reason.
    InstructionBuildFailed(String),
    /// The request body could not be read as a request at all.
    MalformedRequestBody,
}

impl ApiError {
    /// The human-readable text that accompanies this failure.
    pub open spec fn spec_message(self) -> Seq<char> {
        match self {
            ApiError::MissingFields => "Missing required fields"@,
            ApiError::InvalidPubkeyFormat => "Invalid public key format"@,
            ApiError::InvalidSecretFormat => "Invalid secret key format"@,
            ApiError::InvalidSecretKey => "Invalid secret key"@,
            ApiError::InvalidSignatureFormat => "Invalid signature format"@,
            ApiError::InvalidSignature => "Invalid signature"@,
            ApiError::InvalidDecimals => "Decimals must be between 0 and 9"@,
            ApiError::InstructionBuildFailed(reason) => "Failed to create instruction: "@
                + reason@,
            ApiError::MalformedRequestBody => "Invalid JSON or missing required fields"@,
        }
    }

    /// Renders the failure as the text shown to the caller.
    pub fn message(&self) -> (text: String)
        ensures
            text@ == self.spec_message(),
    {
        match self {
            ApiError::MissingFields => "Missing required fields".to_owned(),
            ApiError::InvalidPubkeyFormat => "Invalid public key format".to_owned(),
            ApiError::InvalidSecretFormat => "Invalid secret key format".to_owned(),
            ApiError::InvalidSecretKey => "Invalid secret key".to_owned(),
            ApiError::InvalidSignatureFormat => "Invalid signature format".to_owned(),
            ApiError::InvalidSignature => "Invalid signature".to_owned(),
            ApiError::InvalidDecimals => "Decimals must be between 0 and 9".to_owned(),
            ApiError::InstructionBuildFailed(reason) => {
                "Failed to create instruction: ".to_owned().concat(reason.as_str())
            },
            ApiError::MalformedRequestBody => "Invalid JSON or missing required fields".to_owned(),
        }
    }
}

} // verus!
