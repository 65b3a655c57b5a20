use sol_gateway::backend::{AccountMeta, Instruction};
use sol_gateway::helpers::{instruction_to_response, positive_amount, required_field};
use sol_gateway::models::ApiResponse;

#[test]
fn envelope_success_holds_data_only() {
    let r = ApiResponse::success(5u32);
    assert!(r.success);
    assert_eq!(r.data, Some(5));
    assert!(r.error.is_none());
}

#[test]
fn envelope_error_holds_message_only() {
    let r: ApiResponse<u32> = ApiResponse::error("boom".to_string());
    assert!(!r.success);
    assert!(r.data.is_none());
    assert_eq!(r.error.as_deref(), Some("boom"));
}

#[test]
fn required_field_rejects_absent_and_empty() {
    assert_eq!(required_field(&None), None);
    assert_eq!(required_field(&Some(String::new())), None);
    assert_eq!(required_field(&Some("x".to_string())), Some("x"));
}

#[test]
fn positive_amount_rejects_zero() {
    assert_eq!(positive_amount(None), None);
    assert_eq!(positive_amount(Some(0)), None);
    assert_eq!(positive_amount(Some(1)), Some(1));
    assert_eq!(positive_amount(Some(u64::MAX)), Some(u64::MAX));
}

#[test]
fn instruction_renders_keys_flags_and_data() {
    let mut key = [0u8; 32];
    key[31] = 1;
    let ix = Instruction {
        program_id: [0u8; 32],
        accounts: vec![
            AccountMeta { pubkey: key, is_signer: true, is_writable: false },
            AccountMeta { pubkey: [0u8; 32], is_signer: false, is_writable: true },
        ],
        data: vec![1, 2, 3],
    };
    let d = instruction_to_response(ix);
    assert_eq!(d.program_id, "11111111111111111111111111111111");
    assert_eq!(d.accounts.len(), 2);
    assert_eq!(d.accounts[0].pubkey, "11111111111111111111111111111112");
    assert!(d.accounts[0].is_signer && !d.accounts[0].is_writable);
    assert!(!d.accounts[1].is_signer && d.accounts[1].is_writable);
    assert_eq!(d.instruction_data, "AQID");
}

#[test]
fn instruction_with_no_accounts_and_no_data() {
    let ix = Instruction { program_id: [0u8; 32], accounts: vec![], data: vec![] };
    let d = instruction_to_response(ix);
    assert!(d.accounts.is_empty());
    assert_eq!(d.instruction_data, "");
}
