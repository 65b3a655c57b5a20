use base64::Engine;
use sol_gateway::handlers::{
    create_token, generate_keypair, mint_token, send_sol, send_token, sign_message,
    verify_message, STATUS_BAD_REQUEST, STATUS_OK,
};
use sol_gateway::helpers::{keypair_from_base58, parse_pubkey};
use sol_gateway::models::{
    CreateTokenRequest, MintTokenRequest, SendSolRequest, SendTokenRequest, SignMessageRequest,
    VerifyMessageRequest,
};

const KEY_A: &str = "4wBqpZM9xaSheZzJSMawUKKwhdpChKbZ5eu5ky4Vigw";
const KEY_B: &str = "cGfHiC6Kgg3FpFZvgwGcswsCRtp4aBP2fzuXRQPizuN";
const SYSTEM_PROGRAM: &str = "11111111111111111111111111111111";
const TOKEN_PROGRAM: &str = "TokenkegQfeZyiNwAJbNbGKPFXCWuBvf9Ss623VQ5DA";
const RENT_SYSVAR: &str = "SysvarRent111111111111111111111111111111111";
const MISSING: &str = "Missing required fields";

fn s(v: &str) -> Option<String> {
    Some(v.to_string())
}

fn sol(from: Option<String>, to: Option<String>, lamports: Option<u64>) -> SendSolRequest {
    SendSolRequest { from, to, lamports }
}

fn token(destination: Option<String>, mint: Option<String>, owner: Option<String>, amount: Option<u64>) -> SendTokenRequest {
    SendTokenRequest { destination, mint, owner, amount }
}

fn mint_req(mint: Option<String>, destination: Option<String>, authority: Option<String>, amount: Option<u64>) -> MintTokenRequest {
    MintTokenRequest { mint, destination, authority, amount }
}

fn assert_refused<T>(r: &(u16, sol_gateway::models::ApiResponse<T>), message: &str) {
    assert_eq!(r.0, STATUS_BAD_REQUEST);
    assert!(!r.1.success);
    assert!(r.1.data.is_none());
    assert_eq!(r.1.error.as_deref(), Some(message));
}

#[test]
fn send_sol_scenario_system_program_and_account_order() {
    let r = send_sol(sol(s(KEY_A), s(KEY_B), Some(1000)));
    assert_eq!(r.0, STATUS_OK);
    assert!(r.1.success);
    assert!(r.1.error.is_none());
    let d = r.1.data.unwrap();
    assert_eq!(d.program_id, SYSTEM_PROGRAM);
    assert_eq!(d.accounts, vec![KEY_A.to_string(), KEY_B.to_string()]);
    assert_eq!(d.instruction_data, "AgAAAOgDAAAAAAAA");
}

#[test]
fn send_sol_twice_gives_identical_data() {
    let a = send_sol(sol(s(KEY_A), s(KEY_B), Some(77))).1.data.unwrap();
    let b = send_sol(sol(s(KEY_A), s(KEY_B), Some(77))).1.data.unwrap();
    assert_eq!(a.accounts, b.accounts);
    assert_eq!(a.instruction_data, b.instruction_data);
    assert_eq!(a.program_id, b.program_id);
}

#[test]
fn send_token_twice_gives_identical_data() {
    let a = send_token(token(s(KEY_B), s(KEY_A), s(SYSTEM_PROGRAM), Some(5))).1.data.unwrap();
    let b = send_token(token(s(KEY_B), s(KEY_A), s(SYSTEM_PROGRAM), Some(5))).1.data.unwrap();
    assert_eq!(a.instruction_data, b.instruction_data);
    assert_eq!(a.accounts.len(), b.accounts.len());
    for (x, y) in a.accounts.iter().zip(b.accounts.iter()) {
        assert_eq!(x.pubkey, y.pubkey);
        assert_eq!(x.is_signer, y.is_signer);
    }
}

#[test]
fn send_token_builds_transfer_between_associated_accounts() {
    let r = send_token(token(s(KEY_B), s(KEY_A), s(SYSTEM_PROGRAM), Some(5)));
    assert_eq!(r.0, STATUS_OK);
    let d = r.1.data.unwrap();
    assert_eq!(d.program_id, TOKEN_PROGRAM);
    assert_eq!(d.instruction_data, "AwUAAAAAAAAA");
    assert_eq!(d.accounts.len(), 3);
    assert!(!d.accounts[0].is_signer);
    assert!(!d.accounts[1].is_signer);
    assert_eq!(d.accounts[2].pubkey, SYSTEM_PROGRAM);
    assert!(d.accounts[2].is_signer);
    assert_ne!(d.accounts[0].pubkey, d.accounts[1].pubkey);
    assert_ne!(d.accounts[0].pubkey, SYSTEM_PROGRAM);
    assert_ne!(d.accounts[1].pubkey, KEY_B);
}

#[test]
fn amount_zero_refused_and_one_accepted() {
    assert_refused(&send_sol(sol(s(KEY_A), s(KEY_B), Some(0))), MISSING);
    assert_refused(&send_token(token(s(KEY_B), s(KEY_A), s(KEY_A), Some(0))), MISSING);
    assert_refused(&mint_token(mint_req(s(KEY_A), s(KEY_B), s(KEY_A), Some(0))), MISSING);
    assert_eq!(send_sol(sol(s(KEY_A), s(KEY_B), Some(1))).0, STATUS_OK);
    assert_eq!(send_token(token(s(KEY_B), s(KEY_A), s(KEY_A), Some(1))).0, STATUS_OK);
    assert_eq!(mint_token(mint_req(s(KEY_A), s(KEY_B), s(KEY_A), Some(1))).0, STATUS_OK);
}

#[test]
fn missing_fields_refused_on_every_endpoint() {
    assert_refused(&send_sol(sol(None, s(KEY_B), Some(1))), MISSING);
    assert_refused(&send_sol(sol(s(KEY_A), s(""), Some(1))), MISSING);
    assert_refused(&send_sol(sol(s(KEY_A), s(KEY_B), None)), MISSING);
    assert_refused(&send_token(token(s(KEY_B), None, s(KEY_A), Some(1))), MISSING);
    assert_refused(&send_token(token(s(KEY_B), s(KEY_A), s(KEY_A), None)), MISSING);
    assert_refused(&mint_token(mint_req(s(KEY_A), s(KEY_B), None, Some(1))), MISSING);
    assert_refused(
        &create_token(CreateTokenRequest { mint_authority: s(KEY_A), mint: s(KEY_B), decimals: None }),
        MISSING,
    );
    assert_refused(
        &create_token(CreateTokenRequest { mint_authority: None, mint: s(KEY_B), decimals: Some(6) }),
        MISSING,
    );
    assert_refused(&sign_message(SignMessageRequest { message: s("hi"), secret: None }), MISSING);
    assert_refused(&sign_message(SignMessageRequest { message: s(""), secret: s("abc") }), MISSING);
    assert_refused(
        &verify_message(VerifyMessageRequest { message: s("hi"), signature: s("AAAA"), pubkey: None }),
        MISSING,
    );
}

#[test]
fn invalid_public_key_names_the_input() {
    assert_refused(&send_sol(sol(s("not-a-key"), s(KEY_B), Some(1))), "Invalid public key: not-a-key");
    assert_refused(&send_sol(sol(s(KEY_A), s("abc"), Some(1))), "Invalid public key: abc");
    assert_refused(&send_token(token(s("0OIl"), s(KEY_A), s(KEY_A), Some(1))), "Invalid public key: 0OIl");
    assert_refused(&mint_token(mint_req(s(KEY_A), s("xyz"), s(KEY_A), Some(1))), "Invalid public key: xyz");
    assert!(parse_pubkey(KEY_A).is_ok());
    assert_eq!(parse_pubkey("bad!").unwrap_err(), "Invalid public key: bad!");
}

#[test]
fn validation_order_first_failure_wins() {
    // mint is parsed before owner and destination
    assert_refused(&send_token(token(s("d"), s("m"), s("o"), Some(1))), "Invalid public key: m");
    assert_refused(&send_token(token(s("d"), s(KEY_A), s("o"), Some(1))), "Invalid public key: o");
    // emptiness is checked before any key is parsed
    assert_refused(&send_sol(sol(s("bad"), s(KEY_B), Some(0))), MISSING);
}

#[test]
fn create_token_initialize_mint_layout() {
    let r = create_token(CreateTokenRequest { mint_authority: s(KEY_A), mint: s(KEY_B), decimals: Some(6) });
    assert_eq!(r.0, STATUS_OK);
    let d = r.1.data.unwrap();
    assert_eq!(d.program_id, TOKEN_PROGRAM);
    assert_eq!(d.accounts.len(), 2);
    assert_eq!(d.accounts[0].pubkey, KEY_B);
    assert!(!d.accounts[0].is_signer && d.accounts[0].is_writable);
    assert_eq!(d.accounts[1].pubkey, RENT_SYSVAR);
    assert!(!d.accounts[1].is_signer && !d.accounts[1].is_writable);
    assert_eq!(
        d.instruction_data,
        "AAYBAgMEBQYHCAkKCwwNDg8QERITFBUWFxgZGhscHR4fIAEBAgMEBQYHCAkKCwwNDg8QERITFBUWFxgZGhscHR4fIA=="
    );
}

#[test]
fn create_token_accepts_zero_decimals() {
    let r = create_token(CreateTokenRequest { mint_authority: s(KEY_A), mint: s(KEY_B), decimals: Some(0) });
    assert_eq!(r.0, STATUS_OK);
}

#[test]
fn mint_token_mint_to_layout() {
    let r = mint_token(mint_req(s(KEY_A), s(KEY_B), s(SYSTEM_PROGRAM), Some(1)));
    assert_eq!(r.0, STATUS_OK);
    let d = r.1.data.unwrap();
    assert_eq!(d.program_id, TOKEN_PROGRAM);
    assert_eq!(d.instruction_data, "BwEAAAAAAAAA");
    let keys: Vec<&str> = d.accounts.iter().map(|a| a.pubkey.as_str()).collect();
    assert_eq!(keys, vec![KEY_A, KEY_B, SYSTEM_PROGRAM]);
    assert!(d.accounts[2].is_signer && !d.accounts[2].is_writable);
    assert!(!d.accounts[0].is_signer && d.accounts[0].is_writable);
}

#[test]
fn generated_keypair_round_trips() {
    let r = generate_keypair();
    assert!(r.success);
    let d = r.data.unwrap();
    let kp = keypair_from_base58(&d.secret).ok().unwrap();
    assert_eq!(bs58::encode(kp.pubkey()).into_string(), d.pubkey);
    assert_eq!(bs58::decode(&d.secret).into_vec().unwrap().len(), 64);
}

#[test]
fn sign_then_verify_holds_and_tampering_fails() {
    let kp = generate_keypair().data.unwrap();
    let signed = sign_message(SignMessageRequest { message: s("hello"), secret: s(&kp.secret) });
    assert_eq!(signed.0, STATUS_OK);
    let sd = signed.1.data.unwrap();
    assert_eq!(sd.public_key, kp.pubkey);
    assert_eq!(sd.message, "hello");
    let ok = verify_message(VerifyMessageRequest {
        message: s("hello"),
        signature: s(&sd.signature),
        pubkey: s(&kp.pubkey),
    });
    assert_eq!(ok.0, STATUS_OK);
    let od = ok.1.data.unwrap();
    assert!(od.valid);
    assert_eq!(od.pubkey, kp.pubkey);
    let bad = verify_message(VerifyMessageRequest {
        message: s("hellp"),
        signature: s(&sd.signature),
        pubkey: s(&kp.pubkey),
    });
    assert_eq!(bad.0, STATUS_OK);
    assert!(!bad.1.data.unwrap().valid);
}

#[test]
fn verify_malformed_base64_is_invalid_encoding() {
    let r = verify_message(VerifyMessageRequest { message: s("hi"), signature: s("!!not base64!!"), pubkey: s(KEY_A) });
    assert_refused(&r, "Invalid base64 signature");
}

#[test]
fn verify_short_signature_is_invalid_format() {
    let r = verify_message(VerifyMessageRequest { message: s("hi"), signature: s("AAAA"), pubkey: s(KEY_A) });
    assert_refused(&r, "Invalid signature format");
}

#[test]
fn verify_bad_pubkey_is_refused_before_signature() {
    let r = verify_message(VerifyMessageRequest { message: s("hi"), signature: s("!!"), pubkey: s("nope") });
    assert_refused(&r, "Invalid public key: nope");
}

#[test]
fn sign_with_bad_secrets() {
    let r = sign_message(SignMessageRequest { message: s("hi"), secret: s("0OIl") });
    assert_refused(&r, "Invalid base58 secret key");
    let short = bs58::encode([1u8; 10]).into_string();
    let r = sign_message(SignMessageRequest { message: s("hi"), secret: s(&short) });
    assert_refused(&r, "Secret key must be 64 bytes");
    let mismatched = bs58::encode([0u8; 64]).into_string();
    let r = sign_message(SignMessageRequest { message: s("hi"), secret: s(&mismatched) });
    assert_refused(&r, "Invalid keypair bytes");
}

#[test]
fn sign_signature_is_base64_of_64_bytes() {
    let kp = generate_keypair().data.unwrap();
    let sd = sign_message(SignMessageRequest { message: s("abc"), secret: s(&kp.secret) }).1.data.unwrap();
    let raw = base64::engine::general_purpose::STANDARD.decode(&sd.signature).unwrap();
    assert_eq!(raw.len(), 64);
}
