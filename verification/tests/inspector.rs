use account_inspect::account::{
    require_present, well_known_label, AccountError, AccountId, AccountRecord,
    SYSTEM_PROGRAM_ID, TOKEN_PROGRAM_ID,
};
use account_inspect::decode::parse_account;
use account_inspect::render::{lamports_display, u64_to_decimal, LAMPORTS_PER_SOL};

fn id(bytes: [u8; 32]) -> AccountId {
    AccountId::from_bytes(bytes.to_vec()).unwrap()
}

fn record(owner: [u8; 32], lamports: u64, data: Vec<u8>) -> AccountRecord {
    AccountRecord { lamports, data, owner: id(owner), executable: false, rent_epoch: 361 }
}

/// An initialized token mint: no mint authority, supply zero, nine decimals,
/// no freeze authority.
fn mint_payload() -> Vec<u8> {
    let mut data = vec![0u8; 82];
    data[44] = 9;
    data[45] = 1;
    data
}

#[test]
fn empty_payload_decodes_without_parsed_data() {
    let pubkey = id([9; 32]);
    let rec = record([7; 32], 42, Vec::new());
    let parsed = parse_account(&pubkey, rec).unwrap();
    assert!(parsed.parsed_data.is_none());
    assert!(parsed.owner.name.is_none());
    assert_eq!(parsed.owner.pubkey.bytes, vec![7u8; 32]);
    assert_eq!(parsed.lamports, 42);
    assert!(!parsed.executable);
}

#[test]
fn unsupported_owner_fails() {
    let pubkey = id([9; 32]);
    let rec = record([7; 32], 42, vec![1, 2, 3]);
    let err = parse_account(&pubkey, rec).unwrap_err();
    assert_eq!(err, AccountError::UnsupportedOwner);
}

#[test]
fn token_mint_payload_decodes() {
    let pubkey = id([9; 32]);
    let rec = record(TOKEN_PROGRAM_ID, 1_461_600, mint_payload());
    let parsed = parse_account(&pubkey, rec).unwrap();
    assert!(parsed.parsed_data.is_some());
    assert_eq!(parsed.owner.name.as_deref(), Some("Token Program"));
}

#[test]
fn garbled_payload_of_known_owner_fails() {
    let pubkey = id([9; 32]);
    let rec = record(TOKEN_PROGRAM_ID, 42, vec![255u8; 5]);
    let err = parse_account(&pubkey, rec).unwrap_err();
    assert_eq!(err, AccountError::UnsupportedOwner);
}

#[test]
fn well_known_labels() {
    assert_eq!(
        well_known_label(&id(SYSTEM_PROGRAM_ID)).as_deref(),
        Some("System Program")
    );
    assert_eq!(
        well_known_label(&id(TOKEN_PROGRAM_ID)).as_deref(),
        Some("Token Program")
    );
    assert_eq!(well_known_label(&id([7; 32])), None);
}

#[test]
fn ids_match_decoding_library() {
    assert_eq!(SYSTEM_PROGRAM_ID, solana_sdk::system_program::ID.to_bytes());
    assert_eq!(TOKEN_PROGRAM_ID, spl_token::id().to_bytes());
    assert_eq!(LAMPORTS_PER_SOL, solana_sdk::native_token::LAMPORTS_PER_SOL);
}

#[test]
fn balance_formatting() {
    assert_eq!(lamports_display(1_500_000_000), "1.50");
    assert_eq!(lamports_display(0), "0.00");
    assert_eq!(lamports_display(5_000_000), "0.01");
    assert_eq!(lamports_display(4_999_999), "0.00");
    assert_eq!(lamports_display(999_999_999), "1.00");
    assert_eq!(lamports_display(1_234_567_890), "1.23");
    assert_eq!(lamports_display(123_456_789_012), "123.46");
    assert_eq!(lamports_display(u64::MAX), "18446744073.71");
}

#[test]
fn decimal_rendering() {
    assert_eq!(u64_to_decimal(0), "0");
    assert_eq!(u64_to_decimal(10), "10");
    assert_eq!(u64_to_decimal(907), "907");
    assert_eq!(u64_to_decimal(u64::MAX), "18446744073709551615");
}

#[test]
fn labeled_owner_renders_label_not_raw_text() {
    let pubkey = id([9; 32]);
    let rec = record(TOKEN_PROGRAM_ID, 1_500_000_000, Vec::new());
    let parsed = parse_account(&pubkey, rec).unwrap();
    let table = parsed.view();
    assert_eq!(table.owner_value, "Token Program");
    let raw = solana_sdk::pubkey::Pubkey::new_from_array(TOKEN_PROGRAM_ID).to_string();
    assert_ne!(table.owner_value, raw);
    assert_eq!(table.balance_value, "1.50");
}

#[test]
fn unlabeled_owner_renders_raw_identifier_text() {
    let pubkey = id([9; 32]);
    let rec = record([7; 32], 0, Vec::new());
    let parsed = parse_account(&pubkey, rec).unwrap();
    let table = parsed.view();
    assert_eq!(table.owner_value, "US517G5965aydkZ46HS38QLi7UQiSojurfbQfKCELFx");
    assert_eq!(
        table.owner_value,
        solana_sdk::pubkey::Pubkey::new_from_array([7; 32]).to_string()
    );
    assert_eq!(table.balance_value, "0.00");
}

#[test]
fn table_has_fixed_title_and_row_labels() {
    let pubkey = id([9; 32]);
    let rec = record(SYSTEM_PROGRAM_ID, 1, Vec::new());
    let table = parse_account(&pubkey, rec).unwrap().view();
    assert_eq!(table.title, "Account Overview");
    assert_eq!(table.owner_label, "Owner");
    assert_eq!(table.balance_label, "SOL Balance");
    assert_eq!(table.owner_value, "System Program");
}

#[test]
fn absent_account_is_not_found() {
    let err = require_present(None).unwrap_err();
    assert_eq!(err, AccountError::NotFound);

    let rec = record([7; 32], 5, Vec::new());
    let ok = require_present(Some(rec)).unwrap();
    assert_eq!(ok.lamports, 5);
}

#[test]
fn identifier_must_hold_thirty_two_bytes() {
    assert!(AccountId::from_bytes(vec![1u8; 31]).is_none());
    assert!(AccountId::from_bytes(vec![1u8; 33]).is_none());
    assert!(AccountId::from_bytes(vec![1u8; 32]).is_some());
}
