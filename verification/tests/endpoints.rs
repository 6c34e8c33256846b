use solana_gateway::create_token;
use solana_gateway::generate_keypair;
use solana_gateway::health_check;
use solana_gateway::mint_token;
use solana_gateway::send_sol;
use solana_gateway::send_token;
use solana_gateway::envelope;
use solana_gateway::validate_amount;
use solana_gateway::validate_base58_secret;
use solana_gateway::validate_decimals;
use solana_gateway::validate_pubkey;
use solana_gateway::ApiResponse;

const SPL_TOKEN_ID: &str = "TokenkegQfeZyiNwAJbNbGKPFXCWuBvf9Ss623VQ5DA";
const RENT_SYSVAR_ID: &str = "SysvarRent111111111111111111111111111111111";
const SYSTEM_PROGRAM_ID: &str = "11111111111111111111111111111111";

fn two_addresses() -> (String, String) {
    let a = generate_keypair();
    let b = generate_keypair();
    (a.pubkey, b.pubkey)
}

#[test]
fn health_check_reports_running() {
    let h = health_check();
    assert_eq!(h.status, "ok");
    assert_eq!(h.message, "Solana HTTP Server is running");
}

#[test]
fn envelope_success_holds_data_only() {
    let e = envelope(Ok(7u64));
    assert!(e.success);
    assert_eq!(e.data, Some(7u64));
    assert!(e.error.is_none());
}

#[test]
fn envelope_error_holds_message_only() {
    let e: ApiResponse<u64> = envelope(Err("boom".to_string()));
    assert!(!e.success);
    assert!(e.data.is_none());
    assert_eq!(e.error, Some("boom".to_string()));
}

#[test]
fn validate_amount_rejects_zero() {
    assert_eq!(
        validate_amount(0),
        Err("Amount must be greater than 0".to_string())
    );
    assert_eq!(validate_amount(1), Ok(()));
    assert_eq!(validate_amount(u64::MAX), Ok(()));
}

#[test]
fn validate_decimals_bounds() {
    assert_eq!(validate_decimals(0), Ok(()));
    assert_eq!(validate_decimals(9), Ok(()));
    assert_eq!(
        validate_decimals(10),
        Err("Decimals must be between 0 and 9".to_string())
    );
}

#[test]
fn validate_pubkey_accepts_valid_address() {
    let (a, _) = two_addresses();
    let addr = validate_pubkey(&a).unwrap();
    assert_eq!(addr.bytes.len(), 32);
    assert_eq!(bs58::encode(&addr.bytes).into_string(), a);
}

#[test]
fn validate_pubkey_rejects_bad_text() {
    assert_eq!(
        validate_pubkey("not-a-key!").unwrap_err(),
        "Invalid public key format"
    );
    // decodes, but not to 32 bytes
    assert_eq!(
        validate_pubkey("abc").unwrap_err(),
        "Invalid public key format"
    );
}

#[test]
fn validate_secret_errors_are_distinct() {
    assert_eq!(
        validate_base58_secret("0invalid!"),
        Err("Invalid base58 secret key format".to_string())
    );
    let short = bs58::encode(&[5u8; 10]).into_string();
    assert_eq!(
        validate_base58_secret(&short),
        Err("Secret key must be 64 bytes".to_string())
    );
    let sixty_four = bs58::encode(&[5u8; 64]).into_string();
    assert_eq!(validate_base58_secret(&sixty_four), Ok(vec![5u8; 64]));
}

#[test]
fn missing_fields_beat_other_validation() {
    let (a, _) = two_addresses();
    // an empty required field wins even when other fields are invalid
    assert_eq!(
        create_token("", "not-base58!", 99).unwrap_err(),
        "Missing required fields"
    );
    assert_eq!(
        create_token(&a, "", 6).unwrap_err(),
        "Missing required fields"
    );
    assert_eq!(
        mint_token("", "x", "y", 0).unwrap_err(),
        "Missing required fields"
    );
    assert_eq!(send_sol("", "x", 0).unwrap_err(), "Missing required fields");
    assert_eq!(
        send_token("x", "", "y", 5).unwrap_err(),
        "Missing required fields"
    );
}

#[test]
fn create_token_validation_order_is_first_field_first() {
    // both fields invalid: the mint authority is reported, the mint is not
    assert_eq!(
        create_token("bad-authority!", "bad-mint!", 6).unwrap_err(),
        "Invalid mint authority: Invalid public key format"
    );
}

#[test]
fn create_token_reports_invalid_mint() {
    let (a, _) = two_addresses();
    assert_eq!(
        create_token(&a, "bad-mint!", 6).unwrap_err(),
        "Invalid mint: Invalid public key format"
    );
}

#[test]
fn create_token_decimals_bounds() {
    let (authority, mint) = two_addresses();
    assert_eq!(
        create_token(&authority, &mint, 10).unwrap_err(),
        "Decimals must be between 0 and 9"
    );
    assert!(create_token(&authority, &mint, 0).is_ok());
    assert!(create_token(&authority, &mint, 9).is_ok());
}

#[test]
fn create_token_builds_initialize_mint() {
    let (authority, mint) = two_addresses();
    let resp = create_token(&authority, &mint, 6).unwrap();
    assert_eq!(resp.program_id, SPL_TOKEN_ID);
    assert_eq!(resp.accounts.len(), 2);
    assert_eq!(resp.accounts[0].pubkey, mint);
    assert!(!resp.accounts[0].is_signer);
    assert!(resp.accounts[0].is_writable);
    assert_eq!(resp.accounts[1].pubkey, RENT_SYSVAR_ID);
    assert!(!resp.accounts[1].is_signer);
    assert!(!resp.accounts[1].is_writable);
    let data = base64::Engine::decode(
        &base64::engine::general_purpose::STANDARD,
        &resp.instruction_data,
    )
    .unwrap();
    let authority_bytes = bs58::decode(&authority).into_vec().unwrap();
    let mut expected = vec![0u8, 6u8];
    expected.extend_from_slice(&authority_bytes);
    expected.push(0u8);
    assert_eq!(data, expected);
}

#[test]
fn mint_token_amount_zero_fails() {
    let (a, b) = two_addresses();
    let (c, _) = two_addresses();
    assert_eq!(
        mint_token(&a, &b, &c, 0).unwrap_err(),
        "Amount must be greater than 0"
    );
}

#[test]
fn mint_token_validation_order() {
    let (a, b) = two_addresses();
    assert_eq!(
        mint_token("bad!", "also-bad!", &a, 0).unwrap_err(),
        "Invalid mint: Invalid public key format"
    );
    assert_eq!(
        mint_token(&a, "also-bad!", "bad!", 0).unwrap_err(),
        "Invalid destination: Invalid public key format"
    );
    assert_eq!(
        mint_token(&a, &b, "bad!", 0).unwrap_err(),
        "Invalid authority: Invalid public key format"
    );
}

#[test]
fn mint_token_builds_mint_to() {
    let (mint, destination) = two_addresses();
    let (authority, _) = two_addresses();
    let resp = mint_token(&mint, &destination, &authority, 1_000_000).unwrap();
    assert_eq!(resp.program_id, SPL_TOKEN_ID);
    assert_eq!(resp.accounts.len(), 3);
    assert_eq!(resp.accounts[0].pubkey, mint);
    assert!(!resp.accounts[0].is_signer);
    assert!(resp.accounts[0].is_writable);
    assert_eq!(resp.accounts[1].pubkey, destination);
    assert!(!resp.accounts[1].is_signer);
    assert!(resp.accounts[1].is_writable);
    assert_eq!(resp.accounts[2].pubkey, authority);
    assert!(resp.accounts[2].is_signer);
    assert!(!resp.accounts[2].is_writable);
    let data = base64::Engine::decode(
        &base64::engine::general_purpose::STANDARD,
        &resp.instruction_data,
    )
    .unwrap();
    let mut expected = vec![7u8];
    expected.extend_from_slice(&1_000_000u64.to_le_bytes());
    assert_eq!(data, expected);
}

#[test]
fn send_sol_lamports_zero_fails() {
    let (a, b) = two_addresses();
    assert_eq!(
        send_sol(&a, &b, 0).unwrap_err(),
        "Amount must be greater than 0"
    );
}

#[test]
fn send_sol_reports_address_errors() {
    let (a, _) = two_addresses();
    assert_eq!(
        send_sol("bad!", &a, 10).unwrap_err(),
        "Invalid from address: Invalid public key format"
    );
    assert_eq!(
        send_sol(&a, "bad!", 10).unwrap_err(),
        "Invalid to address: Invalid public key format"
    );
}

#[test]
fn send_sol_builds_system_transfer() {
    let (a, b) = two_addresses();
    let resp = send_sol(&a, &b, 1000).unwrap();
    assert_eq!(resp.program_id, SYSTEM_PROGRAM_ID);
    assert_eq!(resp.accounts, vec![a.clone(), b.clone()]);
    let data = base64::Engine::decode(
        &base64::engine::general_purpose::STANDARD,
        &resp.instruction_data,
    )
    .unwrap();
    let mut expected = vec![2u8, 0u8, 0u8, 0u8];
    expected.extend_from_slice(&1000u64.to_le_bytes());
    assert_eq!(data, expected);
}

#[test]
fn send_token_amount_zero_fails() {
    let (a, b) = two_addresses();
    let (c, _) = two_addresses();
    assert_eq!(
        send_token(&a, &b, &c, 0).unwrap_err(),
        "Amount must be greater than 0"
    );
}

#[test]
fn send_token_builds_transfer_between_associated_accounts() {
    let (destination, mint) = two_addresses();
    let (owner, _) = two_addresses();
    let resp = send_token(&destination, &mint, &owner, 42).unwrap();
    assert_eq!(resp.program_id, SPL_TOKEN_ID);
    assert_eq!(resp.accounts.len(), 3);

    let owner_key = parse_pubkey(&owner);
    let mint_key = parse_pubkey(&mint);
    let destination_key = parse_pubkey(&destination);
    let source_ata =
        spl_associated_token_account::get_associated_token_address(&owner_key, &mint_key);
    let destination_ata =
        spl_associated_token_account::get_associated_token_address(&destination_key, &mint_key);
    assert_eq!(resp.accounts[0].pubkey, source_ata.to_string());
    assert!(!resp.accounts[0].is_signer);
    assert_eq!(resp.accounts[1].pubkey, destination_ata.to_string());
    assert!(!resp.accounts[1].is_signer);
    assert_eq!(resp.accounts[2].pubkey, owner);
    assert!(resp.accounts[2].is_signer);

    let data = base64::Engine::decode(
        &base64::engine::general_purpose::STANDARD,
        &resp.instruction_data,
    )
    .unwrap();
    let mut expected = vec![3u8];
    expected.extend_from_slice(&42u64.to_le_bytes());
    assert_eq!(data, expected);
}

fn parse_pubkey(s: &str) -> solana_sdk::pubkey::Pubkey {
    let bytes = bs58::decode(s).into_vec().unwrap();
    solana_sdk::pubkey::Pubkey::try_from(bytes.as_slice()).unwrap()
}
