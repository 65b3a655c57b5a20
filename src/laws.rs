//! Properties that hold across the endpoints, proved from their contracts.
use crate::backend::{base58_text, pubkey_of, public_half, Instruction};
use crate::handlers::{
    accepts, create_token_answers, holds_keypair, mint_token_answers, rejects,
    send_sol_answers, send_token_answers, sign_message_answers, verify_message_answers,
    STATUS_BAD_REQUEST,
};
use crate::helpers::{
    describes_sol_transfer, describes_token_transfer, filled, secret_outcome, text,
};
use crate::models::{
    lemma_failure_text_nonempty, ApiResponse, CreateTokenRequest, Failure,
    InstructionData, KeypairData, MintTokenRequest, SendSolRequest, SendTokenRequest,
    SignMessageData, SignMessageRequest, SolTransferData, TokenTransferData, VerifyMessageData,
    VerifyMessageRequest,
};
use vstd::prelude::*;

verus! {

/// A 400 answer with no data and a non-empty error message.
pub open spec fn refused<T>(r: (u16, ApiResponse<T>)) -> bool {
    &&& r.0 == STATUS_BAD_REQUEST
    &&& !r.1.success
    &&& r.1.data is None
    &&& r.1.error is Some
    &&& r.1.error->0@.len() > 0
}

proof fn lemma_missing_refused<T>(r: (u16, ApiResponse<T>))
    requires
        rejects(r, Failure::MissingFields),
    ensures
        refused(r),
{
    lemma_failure_text_nonempty(Failure::MissingFields);
}

/// Omitting a required field of a signing request is refused.
pub proof fn missing_field_refused_sign_message(req: SignMessageRequest, r: (u16, ApiResponse<SignMessageData>))
    requires
        sign_message_answers(req, r),
        req.message is None || req.secret is None,
    ensures
        refused(r),
{
    lemma_missing_refused(r);
}

/// Omitting a required field of a verification request is refused.
pub proof fn missing_field_refused_verify_message(req: VerifyMessageRequest, r: (u16, ApiResponse<VerifyMessageData>))
    requires
        verify_message_answers(req, r),
        req.message is None || req.signature is None || req.pubkey is None,
    ensures
        refused(r),
{
    lemma_missing_refused(r);
}

/// Omitting a required field of a mint creation request is refused.
pub proof fn missing_field_refused_create_token(req: CreateTokenRequest, r: (u16, ApiResponse<InstructionData>))
    requires
        create_token_answers(req, r),
        req.mint_authority is None || req.mint is None || req.decimals is None,
    ensures
        refused(r),
{
    lemma_missing_refused(r);
}

/// Omitting a required field of a mint-to request is refused.
pub proof fn missing_field_refused_mint_token(req: MintTokenRequest, r: (u16, ApiResponse<InstructionData>))
    requires
        mint_token_answers(req, r),
        req.mint is None || req.destination is None || req.authority is None || req.amount is None,
    ensures
        refused(r),
{
    lemma_missing_refused(r);
}

/// Omitting a required field of a SOL transfer request is refused.
pub proof fn missing_field_refused_send_sol(req: SendSolRequest, r: (u16, ApiResponse<SolTransferData>))
    requires
        send_sol_answers(req, r),
        req.from is None || req.to is None || req.lamports is None,
    ensures
        refused(r),
{
    lemma_missing_refused(r);
}

/// Omitting a required field of a token transfer request is refused.
pub proof fn missing_field_refused_send_token(req: SendTokenRequest, r: (u16, ApiResponse<TokenTransferData>))
    requires
        send_token_answers(req, r),
        req.destination is None || req.mint is None || req.owner is None || req.amount is None,
    ensures
        refused(r),
{
    lemma_missing_refused(r);
}

/// The secret of a generated keypair reads back as a keypair whose public
/// key is the one generated with it.
pub proof fn generated_keypair_round_trip(r: ApiResponse<KeypairData>, kp: Seq<u8>)
    requires
        r.success,
        holds_keypair(r.data->0, kp),
    ensures
        secret_outcome(r.data->0.secret@) == Ok::<Seq<u8>, crate::models::SecretKeyIssue>(kp),
        base58_text(public_half(secret_outcome(r.data->0.secret@)->Ok_0)) == r.data->0.pubkey@,
{
}

/// Two SOL transfer answers carry the same rendering: same program, same
/// accounts in the same order, same instruction data.
pub open spec fn same_sol_transfer(a: SolTransferData, b: SolTransferData) -> bool {
    &&& a.program_id@ == b.program_id@
    &&& a.accounts@.len() == b.accounts@.len()
    &&& forall|i: int| 0 <= i < a.accounts@.len() ==> (#[trigger] a.accounts@[i])@ == b.accounts@[i]@
    &&& a.instruction_data@ == b.instruction_data@
}

/// Two token transfer answers carry the same rendering.
pub open spec fn same_token_transfer(a: TokenTransferData, b: TokenTransferData) -> bool {
    &&& a.program_id@ == b.program_id@
    &&& a.accounts@.len() == b.accounts@.len()
    &&& forall|i: int|
        0 <= i < a.accounts@.len() ==> {
            &&& (#[trigger] a.accounts@[i]).pubkey@ == b.accounts@[i].pubkey@
            &&& a.accounts@[i].is_signer == b.accounts@[i].is_signer
        }
    &&& a.instruction_data@ == b.instruction_data@
}

/// Two answers with the same status, outcome and error message.
pub open spec fn same_outcome<T>(a: (u16, ApiResponse<T>), b: (u16, ApiResponse<T>)) -> bool {
    &&& a.0 == b.0
    &&& a.1.success == b.1.success
    &&& !a.1.success ==> a.1.error->0@ == b.1.error->0@
}

/// A SOL transfer request answers the same way every time.
pub proof fn send_sol_deterministic(
    req: SendSolRequest,
    r1: (u16, ApiResponse<SolTransferData>),
    r2: (u16, ApiResponse<SolTransferData>),
)
    requires
        send_sol_answers(req, r1),
        send_sol_answers(req, r2),
    ensures
        same_outcome(r1, r2),
        r1.1.success ==> same_sol_transfer(r1.1.data->0, r2.1.data->0),
{
    if r1.1.success {
        let ix1 = choose|ix: Instruction| crate::backend::is_system_transfer(
            ix,
            pubkey_of(text(req.from))->0,
            pubkey_of(text(req.to))->0,
            req.lamports->0,
        ) && #[trigger] describes_sol_transfer(r1.1.data->0, ix);
        let ix2 = choose|ix: Instruction| crate::backend::is_system_transfer(
            ix,
            pubkey_of(text(req.from))->0,
            pubkey_of(text(req.to))->0,
            req.lamports->0,
        ) && #[trigger] describes_sol_transfer(r2.1.data->0, ix);
        let (a, b) = (r1.1.data->0, r2.1.data->0);
        assert forall|i: int| 0 <= i < a.accounts@.len() implies (#[trigger] a.accounts@[i])@
            == b.accounts@[i]@ by {
            assert(a.accounts@[i]@ == base58_text(ix1.accounts@[i].pubkey@));
            assert(b.accounts@[i]@ == base58_text(ix2.accounts@[i].pubkey@));
        }
    }
}

/// A token transfer request answers the same way every time.
pub proof fn send_token_deterministic(
    req: SendTokenRequest,
    r1: (u16, ApiResponse<TokenTransferData>),
    r2: (u16, ApiResponse<TokenTransferData>),
)
    requires
        send_token_answers(req, r1),
        send_token_answers(req, r2),
    ensures
        same_outcome(r1, r2),
        r1.1.success ==> same_token_transfer(r1.1.data->0, r2.1.data->0),
{
    if r1.1.success {
        let mint = pubkey_of(text(req.mint))->0;
        let owner = pubkey_of(text(req.owner))->0;
        let dest = pubkey_of(text(req.destination))->0;
        let src_ata = crate::backend::associated_token_address(owner, mint);
        let dst_ata = crate::backend::associated_token_address(dest, mint);
        let ix1 = choose|ix: Instruction| crate::backend::is_token_amount_ix(
            ix, 3u8, src_ata, dst_ata, owner, req.amount->0,
        ) && #[trigger] describes_token_transfer(r1.1.data->0, ix);
        let ix2 = choose|ix: Instruction| crate::backend::is_token_amount_ix(
            ix, 3u8, src_ata, dst_ata, owner, req.amount->0,
        ) && #[trigger] describes_token_transfer(r2.1.data->0, ix);
        let (a, b) = (r1.1.data->0, r2.1.data->0);
        assert forall|i: int| 0 <= i < a.accounts@.len() implies {
            &&& (#[trigger] a.accounts@[i]).pubkey@ == b.accounts@[i].pubkey@
            &&& a.accounts@[i].is_signer == b.accounts@[i].is_signer
        } by {
            assert(a.accounts@[i].pubkey@ == base58_text(ix1.accounts@[i].pubkey@));
            assert(b.accounts@[i].pubkey@ == base58_text(ix2.accounts@[i].pubkey@));
        }
    }
}

/// A zero amount is refused as a missing field; an amount of one with
/// valid keys is accepted. For mint-to requests.
pub proof fn amount_boundary_mint_token(req: MintTokenRequest, r: (u16, ApiResponse<InstructionData>))
    requires
        mint_token_answers(req, r),
    ensures
        req.amount == Some(0u64) ==> rejects(r, Failure::MissingFields),
        req.amount == Some(1u64) && filled(req.mint) && filled(req.destination) && filled(req.authority)
            && pubkey_of(text(req.mint)) is Some && pubkey_of(text(req.destination)) is Some
            && pubkey_of(text(req.authority)) is Some ==> accepts(r),
{
}

/// A zero amount is refused as a missing field; an amount of one with
/// valid keys is accepted. For token transfer requests.
pub proof fn amount_boundary_send_token(req: SendTokenRequest, r: (u16, ApiResponse<TokenTransferData>))
    requires
        send_token_answers(req, r),
    ensures
        req.amount == Some(0u64) ==> rejects(r, Failure::MissingFields),
        req.amount == Some(1u64) && filled(req.destination) && filled(req.mint) && filled(req.owner)
            && pubkey_of(text(req.mint)) is Some && pubkey_of(text(req.owner)) is Some
            && pubkey_of(text(req.destination)) is Some ==> accepts(r),
{
}

/// A zero amount is refused as a missing field; an amount of one with
/// valid keys is accepted. For SOL transfer requests.
pub proof fn amount_boundary_send_sol(req: SendSolRequest, r: (u16, ApiResponse<SolTransferData>))
    requires
        send_sol_answers(req, r),
    ensures
        req.lamports == Some(0u64) ==> rejects(r, Failure::MissingFields),
        req.lamports == Some(1u64) && filled(req.from) && filled(req.to)
            && pubkey_of(text(req.from)) is Some && pubkey_of(text(req.to)) is Some ==> accepts(r),
{
}

} // verus!
