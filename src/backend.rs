//! The cryptographic and instruction-building backend: thin wrappers over
//! `bs58`, `base64`, `solana-sdk`, `solana-program`, `spl-token` and
//! `spl-associated-token-account`, each with the contract the wrapped code has.
use base64::Engine;
use solana_program::pubkey::Pubkey;
use solana_sdk::signature::{Keypair, Signature, Signer};
use std::str::FromStr;
use vstd::prelude::*;

verus! {

/// One account reference of an instruction.
#[derive(Clone, Copy, Debug, PartialEq, Eq)]
pub struct AccountMeta {
    pub pubkey: [u8; 32],
    pub is_signer: bool,
    pub is_writable: bool,
}

/// An instruction as plain values: program, accounts in order, opaque data.
#[derive(Clone, Debug)]
pub struct Instruction {
    pub program_id: [u8; 32],
    pub accounts: Vec<AccountMeta>,
    pub data: Vec<u8>,
}

/// What `bs58::encode` gives for a byte string.
pub uninterp spec fn base58_text(b: Seq<u8>) -> Seq<char>;

/// What `bs58::decode` gives for a string, `None` where it is not base58.
pub uninterp spec fn base58_bytes(s: Seq<char>) -> Option<Seq<u8>>;

/// What the standard padded base64 engine encodes a byte string to.
pub uninterp spec fn base64_text(b: Seq<u8>) -> Seq<char>;

/// What the standard padded base64 engine decodes a string to, `None` where
/// it is rejected.
pub uninterp spec fn base64_bytes(s: Seq<char>) -> Option<Seq<u8>>;

/// Whether 64 bytes (secret half, then public half) form a consistent ed25519 keypair.
pub uninterp spec fn keypair_bytes_valid(b: Seq<u8>) -> bool;

/// The ed25519 signature that a keypair gives a message.
pub uninterp spec fn signature_of(keypair: Seq<u8>, message: Seq<u8>) -> Seq<u8>;

/// Whether a signature verifies (strictly) against a public key and a message.
pub uninterp spec fn signature_verifies(signature: Seq<u8>, pubkey: Seq<u8>, message: Seq<u8>) -> bool;

/// The associated token account of a wallet for a mint.
pub uninterp spec fn associated_token_address(wallet: Seq<u8>, mint: Seq<u8>) -> Seq<u8>;

/// The public key a string denotes: at most 44 characters of base58 that
/// decode to exactly 32 bytes.
pub open spec fn pubkey_of(s: Seq<char>) -> Option<Seq<u8>> {
    if s.len() <= 44 && base58_bytes(s) is Some && base58_bytes(s)->0.len() == 32 {
        base58_bytes(s)
    } else {
        None
    }
}

/// The public half of 64 keypair bytes.
pub open spec fn public_half(keypair: Seq<u8>) -> Seq<u8> {
    keypair.subrange(32, 64)
}

/// The system program's id: 32 zero bytes.
pub open spec fn system_program_id() -> Seq<u8> {
    Seq::new(32, |i: int| 0u8)
}

/// The SPL token program's id, `TokenkegQfeZyiNwAJbNbGKPFXCWuBvf9Ss623VQ5DA`.
pub open spec fn token_program_id() -> Seq<u8> {
    seq![
        6u8, 221, 246, 225, 215, 101, 161, 147, 217, 203, 225, 70, 206, 235, 121, 172,
        28, 180, 133, 237, 95, 91, 55, 145, 58, 140, 245, 133, 126, 255, 0, 169,
    ]
}

/// The rent sysvar's id, `SysvarRent111111111111111111111111111111111`.
pub open spec fn rent_sysvar_id() -> Seq<u8> {
    seq![
        6u8, 167, 213, 23, 25, 44, 92, 81, 33, 140, 201, 76, 61, 74, 241, 127,
        88, 218, 238, 8, 155, 161, 253, 68, 227, 219, 217, 138, 0, 0, 0, 0,
    ]
}

/// The little-endian bytes of a `u64`.
pub open spec fn le_bytes(n: u64) -> Seq<u8> {
    Seq::new(8, |i: int| ((n as int / pow256(i)) % 256) as u8)
}

pub open spec fn pow256(i: int) -> int
    decreases i,
{
    if i <= 0 {
        1
    } else {
        256 * pow256(i - 1)
    }
}

pub open spec fn meta_is(m: AccountMeta, key: Seq<u8>, signer: bool, writable: bool) -> bool {
    m.pubkey@ == key && m.is_signer == signer && m.is_writable == writable
}

/// The system program's transfer of `lamports` from `from` to `to`.
pub open spec fn is_system_transfer(ix: Instruction, from: Seq<u8>, to: Seq<u8>, lamports: u64) -> bool {
    &&& ix.program_id@ == system_program_id()
    &&& ix.accounts@.len() == 2
    &&& meta_is(ix.accounts@[0], from, true, true)
    &&& meta_is(ix.accounts@[1], to, false, true)
    &&& ix.data@ == seq![2u8, 0, 0, 0] + le_bytes(lamports)
}

/// The token program's `InitializeMint`, with `authority` as mint and freeze authority.
pub open spec fn is_initialize_mint(ix: Instruction, mint: Seq<u8>, authority: Seq<u8>, decimals: u8) -> bool {
    &&& ix.program_id@ == token_program_id()
    &&& ix.accounts@.len() == 2
    &&& meta_is(ix.accounts@[0], mint, false, true)
    &&& meta_is(ix.accounts@[1], rent_sysvar_id(), false, false)
    &&& ix.data@ == seq![0u8, decimals] + authority + seq![1u8] + authority
}

/// The token program's single-signer instruction with tag `tag`, moving or
/// minting `amount` between `first` and `second` under `authority`.
pub open spec fn is_token_amount_ix(
    ix: Instruction,
    tag: u8,
    first: Seq<u8>,
    second: Seq<u8>,
    authority: Seq<u8>,
    amount: u64,
) -> bool {
    &&& ix.program_id@ == token_program_id()
    &&& ix.accounts@.len() == 3
    &&& meta_is(ix.accounts@[0], first, false, true)
    &&& meta_is(ix.accounts@[1], second, false, true)
    &&& meta_is(ix.accounts@[2], authority, true, false)
    &&& ix.data@ == seq![tag] + le_bytes(amount)
}

/// Relies on `bs58::encode(..).into_string()`: the base58 text of the bytes,
/// which `bs58::decode` turns back into the same bytes.
#[verifier::external_body]
pub(crate) fn encode_base58(b: &[u8]) -> (r: String)
    ensures
        r@ == base58_text(b@),
        base58_bytes(r@) == Some(b@),
{
    bs58::encode(b).into_string()
}

/// Relies on `bs58::decode(..).into_vec()`: the decoded bytes, or `None` on
/// a character outside the alphabet.
#[verifier::external_body]
pub(crate) fn decode_base58(s: &str) -> (r: Option<Vec<u8>>)
    ensures
        r is Some <==> base58_bytes(s@) is Some,
        r is Some ==> base58_bytes(s@) == Some(r->0@),
{
    bs58::decode(s).into_vec().ok()
}

/// Relies on `Pubkey::from_str`: at most 44 characters, base58, 32 bytes.
#[verifier::external_body]
pub(crate) fn pubkey_from_str(s: &str) -> (r: Option<[u8; 32]>)
    ensures
        r is Some <==> pubkey_of(s@) is Some,
        r is Some ==> pubkey_of(s@) == Some(r->0@),
{
    Pubkey::from_str(s).ok().map(|k| k.to_bytes())
}

/// Relies on `base64::engine::general_purpose::STANDARD.encode`.
#[verifier::external_body]
pub(crate) fn encode_base64(b: &[u8]) -> (r: String)
    ensures
        r@ == base64_text(b@),
{
    base64::engine::general_purpose::STANDARD.encode(b)
}

/// Relies on `base64::engine::general_purpose::STANDARD.decode`.
#[verifier::external_body]
pub(crate) fn decode_base64(s: &str) -> (r: Option<Vec<u8>>)
    ensures
        r is Some <==> base64_bytes(s@) is Some,
        r is Some ==> base64_bytes(s@) == Some(r->0@),
{
    base64::engine::general_purpose::STANDARD.decode(s).ok()
}

/// Relies on `Keypair::new` and `Keypair::to_bytes`: a fresh random keypair,
/// whose bytes `Keypair::from_bytes` accepts.
#[verifier::external_body]
pub(crate) fn new_keypair_bytes() -> (r: [u8; 64])
    ensures
        keypair_bytes_valid(r@),
{
    Keypair::new().to_bytes()
}

/// Relies on `Keypair::from_bytes`: whether the bytes form a consistent keypair.
#[verifier::external_body]
pub(crate) fn keypair_bytes_accepted(b: &[u8; 64]) -> (r: bool)
    ensures
        r == keypair_bytes_valid(b@),
{
    Keypair::from_bytes(b).is_ok()
}

/// Relies on `Signer::pubkey` of a `Keypair`: the public half of its bytes.
#[verifier::external_body]
pub(crate) fn keypair_pubkey(b: &[u8; 64]) -> (r: [u8; 32])
    requires
        keypair_bytes_valid(b@),
    ensures
        r@ == public_half(b@),
{
    Keypair::from_bytes(b).unwrap().pubkey().to_bytes()
}

/// Relies on `Signer::sign_message` of a `Keypair`.
#[verifier::external_body]
pub(crate) fn keypair_sign(b: &[u8; 64], message: &[u8]) -> (r: [u8; 64])
    requires
        keypair_bytes_valid(b@),
    ensures
        r@ == signature_of(b@, message@),
{
    Keypair::from_bytes(b).unwrap().sign_message(message).into()
}

/// Relies on `Signature::try_from(&[u8])`: exactly 64 bytes, taken as they are.
#[verifier::external_body]
pub(crate) fn signature_from_slice(b: &[u8]) -> (r: Option<[u8; 64]>)
    ensures
        r is Some <==> b@.len() == 64,
        r is Some ==> r->0@ == b@,
{
    Signature::try_from(b).ok().map(|s| s.into())
}

/// Relies on `Signature::verify`.
#[verifier::external_body]
pub(crate) fn signature_verify(signature: &[u8; 64], pubkey: &[u8; 32], message: &[u8]) -> (r: bool)
    ensures
        r == signature_verifies(signature@, pubkey@, message@),
{
    Signature::from(*signature).verify(pubkey, message)
}

/// Relies on `spl_associated_token_account::get_associated_token_address`.
#[verifier::external_body]
pub(crate) fn associated_token_account(wallet: &[u8; 32], mint: &[u8; 32]) -> (r: [u8; 32])
    ensures
        r@ == associated_token_address(wallet@, mint@),
{
    let (w, m) = (Pubkey::new_from_array(*wallet), Pubkey::new_from_array(*mint));
    spl_associated_token_account::get_associated_token_address(&w, &m).to_bytes()
}

/// Relies on `solana_program::system_instruction::transfer`.
#[verifier::external_body]
pub(crate) fn system_transfer(from: &[u8; 32], to: &[u8; 32], lamports: u64) -> (r: Instruction)
    ensures
        is_system_transfer(r, from@, to@, lamports),
{
    let (f, t) = (Pubkey::new_from_array(*from), Pubkey::new_from_array(*to));
    let ix = solana_program::system_instruction::transfer(&f, &t, lamports);
    let accounts = ix.accounts.iter().map(|a| AccountMeta {
        pubkey: a.pubkey.to_bytes(), is_signer: a.is_signer, is_writable: a.is_writable,
    }).collect();
    Instruction { program_id: ix.program_id.to_bytes(), accounts, data: ix.data }
}

/// Relies on `spl_token::instruction::initialize_mint` under `spl_token::id()`,
/// which its program check accepts.
#[verifier::external_body]
pub(crate) fn token_initialize_mint(mint: &[u8; 32], authority: &[u8; 32], decimals: u8) -> (r: Option<Instruction>)
    ensures
        r is Some,
        is_initialize_mint(r->0, mint@, authority@, decimals),
{
    let (m, a) = (Pubkey::new_from_array(*mint), Pubkey::new_from_array(*authority));
    let ix = spl_token::instruction::initialize_mint(&spl_token::id(), &m, &a, Some(&a), decimals).ok()?;
    let accounts = ix.accounts.iter().map(|a| AccountMeta {
        pubkey: a.pubkey.to_bytes(), is_signer: a.is_signer, is_writable: a.is_writable,
    }).collect();
    Some(Instruction { program_id: ix.program_id.to_bytes(), accounts, data: ix.data })
}

/// Relies on `spl_token::instruction::mint_to` under `spl_token::id()`, with
/// no multisig signers.
#[verifier::external_body]
pub(crate) fn token_mint_to(mint: &[u8; 32], dest: &[u8; 32], authority: &[u8; 32], amount: u64) -> (r: Option<Instruction>)
    ensures
        r is Some,
        is_token_amount_ix(r->0, 7u8, mint@, dest@, authority@, amount),
{
    let (m, d, a) = (Pubkey::new_from_array(*mint), Pubkey::new_from_array(*dest), Pubkey::new_from_array(*authority));
    let ix = spl_token::instruction::mint_to(&spl_token::id(), &m, &d, &a, &[], amount).ok()?;
    let accounts = ix.accounts.iter().map(|a| AccountMeta {
        pubkey: a.pubkey.to_bytes(), is_signer: a.is_signer, is_writable: a.is_writable,
    }).collect();
    Some(Instruction { program_id: ix.program_id.to_bytes(), accounts, data: ix.data })
}

/// Relies on `spl_token::instruction::transfer` under `spl_token::id()`, with
/// no multisig signers.
#[verifier::external_body]
pub(crate) fn token_transfer(source: &[u8; 32], dest: &[u8; 32], authority: &[u8; 32], amount: u64) -> (r: Option<Instruction>)
    ensures
        r is Some,
        is_token_amount_ix(r->0, 3u8, source@, dest@, authority@, amount),
{
    let (s, d, a) = (Pubkey::new_from_array(*source), Pubkey::new_from_array(*dest), Pubkey::new_from_array(*authority));
    let ix = spl_token::instruction::transfer(&spl_token::id(), &s, &d, &a, &[], amount).ok()?;
    let accounts = ix.accounts.iter().map(|a| AccountMeta {
        pubkey: a.pubkey.to_bytes(), is_signer: a.is_signer, is_writable: a.is_writable,
    }).collect();
    Some(Instruction { program_id: ix.program_id.to_bytes(), accounts, data: ix.data })
}

} // verus!
