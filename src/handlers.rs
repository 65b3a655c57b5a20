//! The six endpoints and keypair generation: validate the request in a fixed
//! order, call the backend, and answer with a status and an envelope.
use crate::backend::{
    associated_token_account, associated_token_address, base58_bytes, base58_text, base64_bytes,
    base64_text, decode_base64, encode_base58, encode_base64, is_initialize_mint,
    is_system_transfer, is_token_amount_ix, keypair_bytes_valid, pubkey_of, public_half,
    signature_from_slice, signature_of, signature_verifies, signature_verify, system_transfer,
    token_initialize_mint, token_mint_to, token_transfer, Instruction,
};
use crate::helpers::{
    describes_instruction, describes_sol_transfer, describes_token_transfer, filled,
    instruction_to_response, keypair_from_base58, parse_pubkey, positive, positive_amount,
    required_field, secret_outcome, sol_transfer_to_response, text, token_transfer_to_response,
    Keypair,
};
use crate::models::{
    build_failed_text, failure_text, invalid_encoding_text, invalid_signature_format_text,
    missing_fields_text, ApiResponse, BuildStep, CreateTokenRequest,
    Failure, InstructionData, KeypairData, MintTokenRequest, SendSolRequest, SendTokenRequest,
    SignMessageData, SignMessageRequest, SolTransferData, TokenTransferData, VerifyMessageData,
    VerifyMessageRequest,
};
use vstd::utf8::encode_utf8;
use vstd::prelude::*;

verus! {

pub const STATUS_OK: u16 = 200;

pub const STATUS_BAD_REQUEST: u16 = 400;

/// `r` is a 400 answer carrying the message of `f`.
pub open spec fn rejects<T>(r: (u16, ApiResponse<T>), f: Failure) -> bool {
    &&& r.0 == STATUS_BAD_REQUEST
    &&& r.1.wf()
    &&& !r.1.success
    &&& r.1.error->0@ == failure_text(f)
}

/// `r` is a 200 answer carrying data.
pub open spec fn accepts<T>(r: (u16, ApiResponse<T>)) -> bool {
    &&& r.0 == STATUS_OK
    &&& r.1.wf()
    &&& r.1.success
}

fn reject<T>(message: String) -> (r: (u16, ApiResponse<T>))
    ensures
        r.0 == STATUS_BAD_REQUEST,
        r.1.wf(),
        !r.1.success,
        r.1.error == Some(message),
{
    (STATUS_BAD_REQUEST, ApiResponse::error(message))
}

fn accept<T>(data: T) -> (r: (u16, ApiResponse<T>))
    ensures
        accepts(r),
        r.1.data == Some(data),
{
    (STATUS_OK, ApiResponse::success(data))
}

/// The first check a SOL transfer request fails, if any.
pub open spec fn send_sol_failure(req: SendSolRequest) -> Option<Failure> {
    if !(filled(req.from) && filled(req.to) && positive(req.lamports)) {
        Some(Failure::MissingFields)
    } else if pubkey_of(text(req.from)) is None {
        Some(Failure::InvalidPublicKey(text(req.from)))
    } else if pubkey_of(text(req.to)) is None {
        Some(Failure::InvalidPublicKey(text(req.to)))
    } else {
        None
    }
}

/// The answer to a SOL transfer request.
pub open spec fn send_sol_answers(req: SendSolRequest, r: (u16, ApiResponse<SolTransferData>)) -> bool {
    match send_sol_failure(req) {
        Some(f) => rejects(r, f),
        None => accepts(r) && exists|ix: Instruction|
            is_system_transfer(
                ix,
                pubkey_of(text(req.from))->0,
                pubkey_of(text(req.to))->0,
                req.lamports->0,
            ) && #[trigger] describes_sol_transfer(r.1.data->0, ix),
    }
}

pub fn send_sol(req: SendSolRequest) -> (r: (u16, ApiResponse<SolTransferData>))
    ensures
        send_sol_answers(req, r),
{
    let from = required_field(&req.from);
    let to = required_field(&req.to);
    let lamports = positive_amount(req.lamports);
    if from.is_none() || to.is_none() || lamports.is_none() {
        return reject(missing_fields_text());
    }
    let (from, to, lamports) = (from.unwrap(), to.unwrap(), lamports.unwrap());
    let from_key = match parse_pubkey(from) {
        Ok(k) => k,
        Err(e) => return reject(e),
    };
    let to_key = match parse_pubkey(to) {
        Ok(k) => k,
        Err(e) => return reject(e),
    };
    let instruction = system_transfer(&from_key, &to_key, lamports);
    let ghost ix = instruction;
    let data = sol_transfer_to_response(instruction);
    let r = accept(data);
    assert(describes_sol_transfer(r.1.data->0, ix));
    r
}

/// The first check an SPL token transfer request fails, if any.
pub open spec fn send_token_failure(req: SendTokenRequest) -> Option<Failure> {
    if !(filled(req.destination) && filled(req.mint) && filled(req.owner) && positive(req.amount)) {
        Some(Failure::MissingFields)
    } else if pubkey_of(text(req.mint)) is None {
        Some(Failure::InvalidPublicKey(text(req.mint)))
    } else if pubkey_of(text(req.owner)) is None {
        Some(Failure::InvalidPublicKey(text(req.owner)))
    } else if pubkey_of(text(req.destination)) is None {
        Some(Failure::InvalidPublicKey(text(req.destination)))
    } else {
        None
    }
}

/// The answer to an SPL token transfer request: a transfer between the
/// owner's and the destination's associated token accounts, signed by the owner.
pub open spec fn send_token_answers(req: SendTokenRequest, r: (u16, ApiResponse<TokenTransferData>)) -> bool {
    match send_token_failure(req) {
        Some(f) => rejects(r, f),
        None => {
            let mint = pubkey_of(text(req.mint))->0;
            let owner = pubkey_of(text(req.owner))->0;
            let dest = pubkey_of(text(req.destination))->0;
            accepts(r) && exists|ix: Instruction|
                is_token_amount_ix(
                    ix,
                    3u8,
                    associated_token_address(owner, mint),
                    associated_token_address(dest, mint),
                    owner,
                    req.amount->0,
                ) && #[trigger] describes_token_transfer(r.1.data->0, ix)
        },
    }
}

pub fn send_token(req: SendTokenRequest) -> (r: (u16, ApiResponse<TokenTransferData>))
    ensures
        send_token_answers(req, r),
{
    let destination = required_field(&req.destination);
    let mint = required_field(&req.mint);
    let owner = required_field(&req.owner);
    let amount = positive_amount(req.amount);
    if destination.is_none() || mint.is_none() || owner.is_none() || amount.is_none() {
        return reject(missing_fields_text());
    }
    let (destination, mint, owner) = (destination.unwrap(), mint.unwrap(), owner.unwrap());
    let amount = amount.unwrap();
    let mint_key = match parse_pubkey(mint) {
        Ok(k) => k,
        Err(e) => return reject(e),
    };
    let owner_key = match parse_pubkey(owner) {
        Ok(k) => k,
        Err(e) => return reject(e),
    };
    let destination_key = match parse_pubkey(destination) {
        Ok(k) => k,
        Err(e) => return reject(e),
    };
    let source_ata = associated_token_account(&owner_key, &mint_key);
    let dest_ata = associated_token_account(&destination_key, &mint_key);
    let instruction = match token_transfer(&source_ata, &dest_ata, &owner_key, amount) {
        Some(ix) => ix,
        None => return reject(build_failed_text(BuildStep::Transfer)),
    };
    let ghost ix = instruction;
    let data = token_transfer_to_response(instruction);
    let r = accept(data);
    assert(describes_token_transfer(r.1.data->0, ix));
    r
}

/// `d` holds a keypair `kp` that the backend accepts: its public half and
/// its 64 bytes, both in base58.
pub open spec fn holds_keypair(d: KeypairData, kp: Seq<u8>) -> bool {
    &&& kp.len() == 64
    &&& keypair_bytes_valid(kp)
    &&& d.pubkey@ == base58_text(public_half(kp))
    &&& d.secret@ == base58_text(kp)
    &&& base58_bytes(d.secret@) == Some(kp)
}

/// A fresh random keypair: its public key and its secret in base58.
pub fn generate_keypair() -> (r: ApiResponse<KeypairData>)
    ensures
        r.wf(),
        r.success,
        exists|kp: Seq<u8>| holds_keypair(r.data->0, kp),
{
    let keypair = Keypair::generate();
    let public = keypair.pubkey();
    let pubkey = encode_base58(public.as_slice());
    let secret = keypair.to_base58();
    let data = KeypairData { pubkey, secret };
    let r = ApiResponse::success(data);
    assert(holds_keypair(r.data->0, keypair.spec_bytes()));
    r
}

/// The first check a signing request fails, if any.
pub open spec fn sign_message_failure(req: SignMessageRequest) -> Option<Failure> {
    if !(filled(req.message) && filled(req.secret)) {
        Some(Failure::MissingFields)
    } else if secret_outcome(text(req.secret)) is Err {
        Some(Failure::InvalidSecretKey(secret_outcome(text(req.secret))->Err_0))
    } else {
        None
    }
}

/// The answer to a signing request: the signature of the message's UTF-8
/// bytes in base64, the signer's public key in base58, and the message.
pub open spec fn sign_message_answers(req: SignMessageRequest, r: (u16, ApiResponse<SignMessageData>)) -> bool {
    match sign_message_failure(req) {
        Some(f) => rejects(r, f),
        None => {
            let kp = secret_outcome(text(req.secret))->Ok_0;
            let d = r.1.data->0;
            &&& accepts(r)
            &&& d.signature@ == base64_text(signature_of(kp, encode_utf8(text(req.message))))
            &&& d.public_key@ == base58_text(public_half(kp))
            &&& d.message@ == text(req.message)
        },
    }
}

pub fn sign_message(req: SignMessageRequest) -> (r: (u16, ApiResponse<SignMessageData>))
    ensures
        sign_message_answers(req, r),
{
    let message = required_field(&req.message);
    let secret = required_field(&req.secret);
    if message.is_none() || secret.is_none() {
        return reject(missing_fields_text());
    }
    let (message, secret) = (message.unwrap(), secret.unwrap());
    let keypair = match keypair_from_base58(secret) {
        Ok(kp) => kp,
        Err(e) => return reject(e),
    };
    let signature = keypair.sign_message(message.as_bytes());
    let public = keypair.pubkey();
    accept(
        SignMessageData {
            signature: encode_base64(signature.as_slice()),
            public_key: encode_base58(public.as_slice()),
            message: message.to_owned(),
        },
    )
}

/// The first check a verification request fails, if any.
pub open spec fn verify_message_failure(req: VerifyMessageRequest) -> Option<Failure> {
    if !(filled(req.message) && filled(req.signature) && filled(req.pubkey)) {
        Some(Failure::MissingFields)
    } else if pubkey_of(text(req.pubkey)) is None {
        Some(Failure::InvalidPublicKey(text(req.pubkey)))
    } else if base64_bytes(text(req.signature)) is None {
        Some(Failure::InvalidEncoding)
    } else if base64_bytes(text(req.signature))->0.len() != 64 {
        Some(Failure::InvalidSignatureFormat)
    } else {
        None
    }
}

/// The answer to a verification request: whether the signature verifies
/// against the key and the message's UTF-8 bytes, with the inputs echoed.
pub open spec fn verify_message_answers(req: VerifyMessageRequest, r: (u16, ApiResponse<VerifyMessageData>)) -> bool {
    match verify_message_failure(req) {
        Some(f) => rejects(r, f),
        None => {
            let d = r.1.data->0;
            &&& accepts(r)
            &&& d.valid == signature_verifies(
                base64_bytes(text(req.signature))->0,
                pubkey_of(text(req.pubkey))->0,
                encode_utf8(text(req.message)),
            )
            &&& d.message@ == text(req.message)
            &&& d.pubkey@ == text(req.pubkey)
        },
    }
}

pub fn verify_message(req: VerifyMessageRequest) -> (r: (u16, ApiResponse<VerifyMessageData>))
    ensures
        verify_message_answers(req, r),
{
    let message = required_field(&req.message);
    let signature = required_field(&req.signature);
    let pubkey = required_field(&req.pubkey);
    if message.is_none() || signature.is_none() || pubkey.is_none() {
        return reject(missing_fields_text());
    }
    let (message, signature, pubkey_str) = (message.unwrap(), signature.unwrap(), pubkey.unwrap());
    let key = match parse_pubkey(pubkey_str) {
        Ok(k) => k,
        Err(e) => return reject(e),
    };
    let signature_bytes = match decode_base64(signature) {
        Some(b) => b,
        None => return reject(invalid_encoding_text()),
    };
    let sig = match signature_from_slice(signature_bytes.as_slice()) {
        Some(s) => s,
        None => return reject(invalid_signature_format_text()),
    };
    let valid = signature_verify(&sig, &key, message.as_bytes());
    accept(VerifyMessageData { valid, message: message.to_owned(), pubkey: pubkey_str.to_owned() })
}

/// The first check a mint creation request fails, if any.
pub open spec fn create_token_failure(req: CreateTokenRequest) -> Option<Failure> {
    if !(filled(req.mint_authority) && filled(req.mint) && req.decimals is Some) {
        Some(Failure::MissingFields)
    } else if pubkey_of(text(req.mint_authority)) is None {
        Some(Failure::InvalidPublicKey(text(req.mint_authority)))
    } else if pubkey_of(text(req.mint)) is None {
        Some(Failure::InvalidPublicKey(text(req.mint)))
    } else {
        None
    }
}

/// The answer to a mint creation request: an `InitializeMint` of the mint,
/// with the mint authority also as freeze authority.
pub open spec fn create_token_answers(req: CreateTokenRequest, r: (u16, ApiResponse<InstructionData>)) -> bool {
    match create_token_failure(req) {
        Some(f) => rejects(r, f),
        None => accepts(r) && exists|ix: Instruction|
            is_initialize_mint(
                ix,
                pubkey_of(text(req.mint))->0,
                pubkey_of(text(req.mint_authority))->0,
                req.decimals->0,
            ) && #[trigger] describes_instruction(r.1.data->0, ix),
    }
}

pub fn create_token(req: CreateTokenRequest) -> (r: (u16, ApiResponse<InstructionData>))
    ensures
        create_token_answers(req, r),
{
    let mint_authority = required_field(&req.mint_authority);
    let mint = required_field(&req.mint);
    if mint_authority.is_none() || mint.is_none() || req.decimals.is_none() {
        return reject(missing_fields_text());
    }
    let (mint_authority, mint) = (mint_authority.unwrap(), mint.unwrap());
    let decimals = req.decimals.unwrap();
    let authority_key = match parse_pubkey(mint_authority) {
        Ok(k) => k,
        Err(e) => return reject(e),
    };
    let mint_key = match parse_pubkey(mint) {
        Ok(k) => k,
        Err(e) => return reject(e),
    };
    let instruction = match token_initialize_mint(&mint_key, &authority_key, decimals) {
        Some(ix) => ix,
        None => return reject(build_failed_text(BuildStep::InitializeMint)),
    };
    let ghost ix = instruction;
    let data = instruction_to_response(instruction);
    let r = accept(data);
    assert(describes_instruction(r.1.data->0, ix));
    r
}

/// The first check a mint-to request fails, if any.
pub open spec fn mint_token_failure(req: MintTokenRequest) -> Option<Failure> {
    if !(filled(req.mint) && filled(req.destination) && filled(req.authority) && positive(req.amount)) {
        Some(Failure::MissingFields)
    } else if pubkey_of(text(req.mint)) is None {
        Some(Failure::InvalidPublicKey(text(req.mint)))
    } else if pubkey_of(text(req.destination)) is None {
        Some(Failure::InvalidPublicKey(text(req.destination)))
    } else if pubkey_of(text(req.authority)) is None {
        Some(Failure::InvalidPublicKey(text(req.authority)))
    } else {
        None
    }
}

/// The answer to a mint-to request: a `MintTo` of `amount` into the
/// destination, signed by the authority alone.
pub open spec fn mint_token_answers(req: MintTokenRequest, r: (u16, ApiResponse<InstructionData>)) -> bool {
    match mint_token_failure(req) {
        Some(f) => rejects(r, f),
        None => accepts(r) && exists|ix: Instruction|
            is_token_amount_ix(
                ix,
                7u8,
                pubkey_of(text(req.mint))->0,
                pubkey_of(text(req.destination))->0,
                pubkey_of(text(req.authority))->0,
                req.amount->0,
            ) && #[trigger] describes_instruction(r.1.data->0, ix),
    }
}

pub fn mint_token(req: MintTokenRequest) -> (r: (u16, ApiResponse<InstructionData>))
    ensures
        mint_token_answers(req, r),
{
    let mint = required_field(&req.mint);
    let destination = required_field(&req.destination);
    let authority = required_field(&req.authority);
    let amount = positive_amount(req.amount);
    if mint.is_none() || destination.is_none() || authority.is_none() || amount.is_none() {
        return reject(missing_fields_text());
    }
    let (mint, destination, authority) = (mint.unwrap(), destination.unwrap(), authority.unwrap());
    let amount = amount.unwrap();
    let mint_key = match parse_pubkey(mint) {
        Ok(k) => k,
        Err(e) => return reject(e),
    };
    let destination_key = match parse_pubkey(destination) {
        Ok(k) => k,
        Err(e) => return reject(e),
    };
    let authority_key = match parse_pubkey(authority) {
        Ok(k) => k,
        Err(e) => return reject(e),
    };
    let instruction = match token_mint_to(&mint_key, &destination_key, &authority_key, amount) {
        Some(ix) => ix,
        None => return reject(build_failed_text(BuildStep::MintTo)),
    };
    let ghost ix = instruction;
    let data = instruction_to_response(instruction);
    let r = accept(data);
    assert(describes_instruction(r.1.data->0, ix));
    r
}

} // verus!
