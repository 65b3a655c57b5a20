//! Request bodies, the response envelope, and the data each endpoint answers with.
use vstd::prelude::*;
use vstd::string::StringExecFns;

verus! {

pub struct CreateTokenRequest {
    pub mint_authority: Option<String>,
    pub mint: Option<String>,
    pub decimals: Option<u8>,
}

pub struct MintTokenRequest {
    pub mint: Option<String>,
    pub destination: Option<String>,
    pub authority: Option<String>,
    pub amount: Option<u64>,
}

pub struct SignMessageRequest {
    pub message: Option<String>,
    pub secret: Option<String>,
}

pub struct VerifyMessageRequest {
    pub message: Option<String>,
    pub signature: Option<String>,
    pub pubkey: Option<String>,
}

pub struct SendSolRequest {
    pub from: Option<String>,
    pub to: Option<String>,
    pub lamports: Option<u64>,
}

pub struct SendTokenRequest {
    pub destination: Option<String>,
    pub mint: Option<String>,
    pub owner: Option<String>,
    pub amount: Option<u64>,
}

/// The uniform envelope: `data` on success, `error` on failure, never both.
pub struct ApiResponse<T> {
    pub success: bool,
    pub data: Option<T>,
    pub error: Option<String>,
}

impl<T> ApiResponse<T> {
    pub open spec fn wf(&self) -> bool {
        &&& self.data is Some <==> self.success
        &&& self.error is Some <==> !self.success
    }

    pub fn success(data: T) -> (r: Self)
        ensures
            r.wf(),
            r.success,
            r.data == Some(data),
            r.error is None,
    {
        ApiResponse { success: true, data: Some(data), error: None }
    }

    pub fn error(message: String) -> (r: Self)
        ensures
            r.wf(),
            !r.success,
            r.data is None,
            r.error == Some(message),
    {
        ApiResponse { success: false, data: None, error: Some(message) }
    }
}

pub struct KeypairData {
    pub pubkey: String,
    pub secret: String,
}

pub struct SignMessageData {
    pub signature: String,
    pub public_key: String,
    pub message: String,
}

pub struct VerifyMessageData {
    pub valid: bool,
    pub message: String,
    pub pubkey: String,
}

pub struct InstructionData {
    pub program_id: String,
    pub accounts: Vec<AccountInfo>,
    pub instruction_data: String,
}

pub struct AccountInfo {
    pub pubkey: String,
    pub is_signer: bool,
    pub is_writable: bool,
}

pub struct SolTransferData {
    pub program_id: String,
    pub accounts: Vec<String>,
    pub instruction_data: String,
}

pub struct TokenTransferData {
    pub program_id: String,
    pub accounts: Vec<TokenAccountInfo>,
    pub instruction_data: String,
}

pub struct TokenAccountInfo {
    pub pubkey: String,
    pub is_signer: bool,
}

/// Which reason a secret keypair string was refused for.
#[derive(Clone, Copy, Debug, PartialEq, Eq)]
pub enum SecretKeyIssue {
    NotBase58,
    WrongLength,
    BadKeyBytes,
}

/// Which instruction the backend refused to build.
#[derive(Clone, Copy, Debug, PartialEq, Eq)]
pub enum BuildStep {
    InitializeMint,
    MintTo,
    Transfer,
}

/// The kinds of failure a request can meet, as the contracts speak of them.
pub enum Failure {
    MissingFields,
    InvalidPublicKey(Seq<char>),
    InvalidSecretKey(SecretKeyIssue),
    InvalidEncoding,
    InvalidSignatureFormat,
    InstructionBuildFailed(BuildStep),
}

/// The message that the error envelope carries for each failure.
pub open spec fn failure_text(f: Failure) -> Seq<char> {
    match f {
        Failure::MissingFields => "Missing required fields"@,
        Failure::InvalidPublicKey(s) => "Invalid public key: "@ + s,
        Failure::InvalidSecretKey(SecretKeyIssue::NotBase58) => "Invalid base58 secret key"@,
        Failure::InvalidSecretKey(SecretKeyIssue::WrongLength) => "Secret key must be 64 bytes"@,
        Failure::InvalidSecretKey(SecretKeyIssue::BadKeyBytes) => "Invalid keypair bytes"@,
        Failure::InvalidEncoding => "Invalid base64 signature"@,
        Failure::InvalidSignatureFormat => "Invalid signature format"@,
        Failure::InstructionBuildFailed(BuildStep::InitializeMint) => "Failed to create token instruction"@,
        Failure::InstructionBuildFailed(BuildStep::MintTo) => "Failed to create mint instruction"@,
        Failure::InstructionBuildFailed(BuildStep::Transfer) => "Failed to create transfer instruction"@,
    }
}

pub fn missing_fields_text() -> (r: String)
    ensures
        r@ == failure_text(Failure::MissingFields),
{
    String::from_str("Missing required fields")
}

pub fn invalid_public_key_text(key: &str) -> (r: String)
    ensures
        r@ == failure_text(Failure::InvalidPublicKey(key@)),
{
    String::from_str("Invalid public key: ").concat(key)
}

pub fn invalid_secret_key_text(issue: SecretKeyIssue) -> (r: String)
    ensures
        r@ == failure_text(Failure::InvalidSecretKey(issue)),
{
    match issue {
        SecretKeyIssue::NotBase58 => String::from_str("Invalid base58 secret key"),
        SecretKeyIssue::WrongLength => String::from_str("Secret key must be 64 bytes"),
        SecretKeyIssue::BadKeyBytes => String::from_str("Invalid keypair bytes"),
    }
}

pub fn invalid_encoding_text() -> (r: String)
    ensures
        r@ == failure_text(Failure::InvalidEncoding),
{
    String::from_str("Invalid base64 signature")
}

pub fn invalid_signature_format_text() -> (r: String)
    ensures
        r@ == failure_text(Failure::InvalidSignatureFormat),
{
    String::from_str("Invalid signature format")
}

pub fn build_failed_text(step: BuildStep) -> (r: String)
    ensures
        r@ == failure_text(Failure::InstructionBuildFailed(step)),
{
    match step {
        BuildStep::InitializeMint => String::from_str("Failed to create token instruction"),
        BuildStep::MintTo => String::from_str("Failed to create mint instruction"),
        BuildStep::Transfer => String::from_str("Failed to create transfer instruction"),
    }
}

/// Every failure message is non-empty.
pub proof fn lemma_failure_text_nonempty(f: Failure)
    ensures
        failure_text(f).len() > 0,
{
    reveal_strlit("Missing required fields");
    reveal_strlit("Invalid public key: ");
    reveal_strlit("Invalid base58 secret key");
    reveal_strlit("Secret key must be 64 bytes");
    reveal_strlit("Invalid keypair bytes");
    reveal_strlit("Invalid base64 signature");
    reveal_strlit("Invalid signature format");
    reveal_strlit("Failed to create token instruction");
    reveal_strlit("Failed to create mint instruction");
    reveal_strlit("Failed to create transfer instruction");
}

} // verus!
