use ledger_core::pubkey::Pubkey;
use ledger_core::token_metadata::{burn_tokens, initialize_mint, mint_tokens, ErrorCode, TokenMetadata};

fn blank() -> TokenMetadata {
    TokenMetadata {
        name: "old".to_string(),
        symbol: "OLD".to_string(),
        decimals: 1,
        mint: Pubkey::new_from_array([0; 32]),
        authority: Pubkey::new_from_array([0; 32]),
        total_supply: 99,
    }
}

#[test]
fn initialize_fills_the_record_with_a_zero_total() {
    let mut record = blank();
    initialize_mint(
        &mut record,
        Pubkey::new_from_array([1; 32]),
        Pubkey::new_from_array([2; 32]),
        6,
        "Coin".to_string(),
        "CN".to_string(),
    );
    assert_eq!(record.name, "Coin");
    assert_eq!(record.symbol, "CN");
    assert_eq!(record.decimals, 6);
    assert_eq!(record.mint.to_bytes(), [1; 32]);
    assert_eq!(record.authority.to_bytes(), [2; 32]);
    assert_eq!(record.total_supply, 0);
}

#[test]
fn minting_adds_to_the_total() {
    let mut record = blank();
    assert_eq!(mint_tokens(&mut record, 1), Ok(()));
    assert_eq!(record.total_supply, 100);
    assert_eq!(mint_tokens(&mut record, u64::MAX - 100), Ok(()));
    assert_eq!(record.total_supply, u64::MAX);
    assert_eq!(record.name, "old");
}

#[test]
fn minting_past_64_bits_is_refused() {
    let mut record = blank();
    assert_eq!(mint_tokens(&mut record, u64::MAX - 98), Err(ErrorCode::ArithmeticOverflow));
    assert_eq!(record.total_supply, 99);
}

#[test]
fn burning_takes_from_the_total() {
    let mut record = blank();
    assert_eq!(burn_tokens(&mut record, 9), Ok(()));
    assert_eq!(record.total_supply, 90);
    assert_eq!(burn_tokens(&mut record, 90), Ok(()));
    assert_eq!(record.total_supply, 0);
}

#[test]
fn burning_more_than_the_total_is_refused() {
    let mut record = blank();
    assert_eq!(burn_tokens(&mut record, 100), Err(ErrorCode::ArithmeticUnderflow));
    assert_eq!(record.total_supply, 99);
}
