//! Shared steps of the handlers: field checks, key parsing, keypair recovery
//! and the conversion of instructions into response data.
use crate::backend::{
    base64_text, encode_base64, Instruction,
    base58_bytes, base58_text, decode_base58, encode_base58, keypair_bytes_accepted,
    keypair_bytes_valid, keypair_pubkey, keypair_sign, new_keypair_bytes, pubkey_from_str,
    pubkey_of, public_half, signature_of,
};
use crate::models::{
    AccountInfo, InstructionData, SolTransferData, TokenAccountInfo, TokenTransferData,
    failure_text, invalid_public_key_text, invalid_secret_key_text, Failure, SecretKeyIssue,
};
use vstd::prelude::*;

verus! {

/// A field is filled when it is present and non-empty.
pub open spec fn filled(f: Option<String>) -> bool {
    f is Some && f->0@.len() > 0
}

/// An amount is usable when it is present and positive.
pub open spec fn positive(a: Option<u64>) -> bool {
    a is Some && a->0 > 0
}

/// The text of a field that is known to be present.
pub open spec fn text(f: Option<String>) -> Seq<char> {
    f->0@
}

/// The contents of a filled field, `None` for a missing or empty one.
pub fn required_field(f: &Option<String>) -> (r: Option<&str>)
    ensures
        r is Some <==> filled(*f),
        r is Some ==> r->0@ == text(*f),
{
    match f {
        Some(v) => {
            let s = v.as_str();
            if s.is_empty() {
                None
            } else {
                Some(s)
            }
        },
        None => None,
    }
}

/// A positive amount, `None` for a missing or zero one.
pub fn positive_amount(a: Option<u64>) -> (r: Option<u64>)
    ensures
        r is Some <==> positive(a),
        r is Some ==> r == a,
{
    match a {
        Some(v) => if v > 0 {
            Some(v)
        } else {
            None
        },
        None => None,
    }
}

/// Parses a base58 public key; the error names the offending string.
pub fn parse_pubkey(key_str: &str) -> (r: Result<[u8; 32], String>)
    ensures
        r is Ok <==> pubkey_of(key_str@) is Some,
        r is Ok ==> pubkey_of(key_str@) == Some(r->Ok_0@),
        r is Err ==> r->Err_0@ == failure_text(Failure::InvalidPublicKey(key_str@)),
{
    match pubkey_from_str(key_str) {
        Some(k) => Ok(k),
        None => Err(invalid_public_key_text(key_str)),
    }
}

/// A keypair as its 64 bytes: the secret half, then the public half.
pub struct Keypair {
    bytes: [u8; 64],
}

impl Keypair {
    pub closed spec fn spec_bytes(&self) -> Seq<u8> {
        self.bytes@
    }

    pub open spec fn wf(&self) -> bool {
        self.spec_bytes().len() == 64 && keypair_bytes_valid(self.spec_bytes())
    }

    /// A fresh random keypair.
    pub fn generate() -> (r: Keypair)
        ensures
            r.wf(),
    {
        Keypair { bytes: new_keypair_bytes() }
    }

    pub fn pubkey(&self) -> (r: [u8; 32])
        requires
            self.wf(),
        ensures
            r@ == public_half(self.spec_bytes()),
    {
        keypair_pubkey(&self.bytes)
    }

    pub fn sign_message(&self, message: &[u8]) -> (r: [u8; 64])
        requires
            self.wf(),
        ensures
            r@ == signature_of(self.spec_bytes(), message@),
    {
        keypair_sign(&self.bytes, message)
    }

    /// The 64 bytes in base58.
    pub fn to_base58(&self) -> (r: String)
        ensures
            r@ == base58_text(self.spec_bytes()),
            base58_bytes(r@) == Some(self.spec_bytes()),
    {
        encode_base58(self.bytes.as_slice())
    }
}

/// How a base58 secret is read: its bytes, or the first reason it is refused.
pub open spec fn secret_outcome(s: Seq<char>) -> Result<Seq<u8>, SecretKeyIssue> {
    match base58_bytes(s) {
        None => Err(SecretKeyIssue::NotBase58),
        Some(b) => if b.len() != 64 {
            Err(SecretKeyIssue::WrongLength)
        } else if !keypair_bytes_valid(b) {
            Err(SecretKeyIssue::BadKeyBytes)
        } else {
            Ok(b)
        },
    }
}

/// Recovers a keypair from its base58 text.
pub fn keypair_from_base58(secret_str: &str) -> (r: Result<Keypair, String>)
    ensures
        r is Ok <==> secret_outcome(secret_str@) is Ok,
        r is Ok ==> r->Ok_0.wf() && secret_outcome(secret_str@) == Ok::<Seq<u8>, SecretKeyIssue>(r->Ok_0.spec_bytes()),
        r is Err ==> r->Err_0@ == failure_text(Failure::InvalidSecretKey(secret_outcome(secret_str@)->Err_0)),
{
    let secret_bytes = match decode_base58(secret_str) {
        Some(b) => b,
        None => return Err(invalid_secret_key_text(SecretKeyIssue::NotBase58)),
    };
    if secret_bytes.len() != 64 {
        return Err(invalid_secret_key_text(SecretKeyIssue::WrongLength));
    }
    let mut bytes = [0u8; 64];
    let mut i: usize = 0;
    while i < 64
        invariant
            0 <= i <= 64,
            secret_bytes@.len() == 64,
            forall|j: int| 0 <= j < i ==> bytes@[j] == secret_bytes@[j],
        decreases 64 - i,
    {
        bytes[i] = secret_bytes[i];
        i = i + 1;
    }
    assert(bytes@ =~= secret_bytes@);
    if !keypair_bytes_accepted(&bytes) {
        return Err(invalid_secret_key_text(SecretKeyIssue::BadKeyBytes));
    }
    Ok(Keypair { bytes })
}

/// `d` renders `ix`: program and account keys in base58, data in base64,
/// every account with its signer and writable flags.
pub open spec fn describes_instruction(d: InstructionData, ix: Instruction) -> bool {
    &&& d.program_id@ == base58_text(ix.program_id@)
    &&& d.accounts@.len() == ix.accounts@.len()
    &&& forall|i: int|
        0 <= i < d.accounts@.len() ==> {
            &&& (#[trigger] d.accounts@[i]).pubkey@ == base58_text(ix.accounts@[i].pubkey@)
            &&& d.accounts@[i].is_signer == ix.accounts@[i].is_signer
            &&& d.accounts@[i].is_writable == ix.accounts@[i].is_writable
        }
    &&& d.instruction_data@ == base64_text(ix.data@)
}

/// `d` renders `ix` with the accounts as bare base58 keys.
pub open spec fn describes_sol_transfer(d: SolTransferData, ix: Instruction) -> bool {
    &&& d.program_id@ == base58_text(ix.program_id@)
    &&& d.accounts@.len() == ix.accounts@.len()
    &&& forall|i: int|
        0 <= i < d.accounts@.len() ==> (#[trigger] d.accounts@[i])@ == base58_text(
            ix.accounts@[i].pubkey@,
        )
    &&& d.instruction_data@ == base64_text(ix.data@)
}

/// `d` renders `ix` with each account as its base58 key and signer flag.
pub open spec fn describes_token_transfer(d: TokenTransferData, ix: Instruction) -> bool {
    &&& d.program_id@ == base58_text(ix.program_id@)
    &&& d.accounts@.len() == ix.accounts@.len()
    &&& forall|i: int|
        0 <= i < d.accounts@.len() ==> {
            &&& (#[trigger] d.accounts@[i]).pubkey@ == base58_text(ix.accounts@[i].pubkey@)
            &&& d.accounts@[i].is_signer == ix.accounts@[i].is_signer
        }
    &&& d.instruction_data@ == base64_text(ix.data@)
}

pub fn instruction_to_response(instruction: Instruction) -> (r: InstructionData)
    ensures
        describes_instruction(r, instruction),
{
    let mut accounts: Vec<AccountInfo> = Vec::new();
    let mut i: usize = 0;
    while i < instruction.accounts.len()
        invariant
            0 <= i <= instruction.accounts@.len(),
            accounts@.len() == i,
            forall|j: int|
                0 <= j < i ==> {
                    &&& (#[trigger] accounts@[j]).pubkey@ == base58_text(instruction.accounts@[j].pubkey@)
                    &&& accounts@[j].is_signer == instruction.accounts@[j].is_signer
                    &&& accounts@[j].is_writable == instruction.accounts@[j].is_writable
                },
        decreases instruction.accounts@.len() - i,
    {
        let meta = instruction.accounts[i];
        accounts.push(
            AccountInfo {
                pubkey: encode_base58(meta.pubkey.as_slice()),
                is_signer: meta.is_signer,
                is_writable: meta.is_writable,
            },
        );
        i = i + 1;
    }
    InstructionData {
        program_id: encode_base58(instruction.program_id.as_slice()),
        accounts,
        instruction_data: encode_base64(instruction.data.as_slice()),
    }
}

pub fn sol_transfer_to_response(instruction: Instruction) -> (r: SolTransferData)
    ensures
        describes_sol_transfer(r, instruction),
{
    let mut accounts: Vec<String> = Vec::new();
    let mut i: usize = 0;
    while i < instruction.accounts.len()
        invariant
            0 <= i <= instruction.accounts@.len(),
            accounts@.len() == i,
            forall|j: int|
                0 <= j < i ==> (#[trigger] accounts@[j])@ == base58_text(
                    instruction.accounts@[j].pubkey@,
                ),
        decreases instruction.accounts@.len() - i,
    {
        let meta = instruction.accounts[i];
        accounts.push(encode_base58(meta.pubkey.as_slice()));
        i = i + 1;
    }
    SolTransferData {
        program_id: encode_base58(instruction.program_id.as_slice()),
        accounts,
        instruction_data: encode_base64(instruction.data.as_slice()),
    }
}

pub fn token_transfer_to_response(instruction: Instruction) -> (r: TokenTransferData)
    ensures
        describes_token_transfer(r, instruction),
{
    let mut accounts: Vec<TokenAccountInfo> = Vec::new();
    let mut i: usize = 0;
    while i < instruction.accounts.len()
        invariant
            0 <= i <= instruction.accounts@.len(),
            accounts@.len() == i,
            forall|j: int|
                0 <= j < i ==> {
                    &&& (#[trigger] accounts@[j]).pubkey@ == base58_text(instruction.accounts@[j].pubkey@)
                    &&& accounts@[j].is_signer == instruction.accounts@[j].is_signer
                },
        decreases instruction.accounts@.len() - i,
    {
        let meta = instruction.accounts[i];
        accounts.push(
            TokenAccountInfo { pubkey: encode_base58(meta.pubkey.as_slice()), is_signer: meta.is_signer },
        );
        i = i + 1;
    }
    TokenTransferData {
        program_id: encode_base58(instruction.program_id.as_slice()),
        accounts,
        instruction_data: encode_base64(instruction.data.as_slice()),
    }
}

} // verus!
