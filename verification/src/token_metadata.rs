//! Bookkeeping for a program that leaves minting, moving and burning to a
//! token program and keeps, beside the mint, a record of its own with the
//! asset's name and a running total of the supply.

use crate::pubkey::Pubkey;
use vstd::prelude::*;

verus! {

/// Why an update of the running total is refused.
#[derive(Clone, Copy, Debug, PartialEq, Eq, Structural)]
pub enum ErrorCode {
    /// The total would exceed 64 bits.
    ArithmeticOverflow,
    /// More would be burned than the total counts.
    ArithmeticUnderflow,
}

/// The record kept beside a mint.
#[derive(Clone, Debug)]
pub struct TokenMetadata {
    pub name: String,
    pub symbol: String,
    pub decimals: u8,
    pub mint: Pubkey,
    pub authority: Pubkey,
    pub total_supply: u64,
}

/// Mathematical content of a [`TokenMetadata`].
pub struct TokenMetadataView {
    pub name: Seq<char>,
    pub symbol: Seq<char>,
    pub decimals: u8,
    pub mint: Seq<u8>,
    pub authority: Seq<u8>,
    pub total_supply: u64,
}

impl View for TokenMetadata {
    type V = TokenMetadataView;

    open spec fn view(&self) -> TokenMetadataView {
        TokenMetadataView {
            name: self.name@,
            symbol: self.symbol@,
            decimals: self.decimals,
            mint: self.mint@,
            authority: self.authority@,
            total_supply: self.total_supply,
        }
    }
}

/// Fills the record of a new mint: the given name, symbol and decimals, the
/// mint and its authority, and a total of zero.
pub fn initialize_mint(
    token_metadata: &mut TokenMetadata,
    mint: Pubkey,
    authority: Pubkey,
    decimals: u8,
    name: String,
    symbol: String,
)
    ensures
        final(token_metadata)@ == (TokenMetadataView {
            name: name@,
            symbol: symbol@,
            decimals,
            mint: mint@,
            authority: authority@,
            total_supply: 0,
        }),
{
    token_metadata.name = name;
    token_metadata.symbol = symbol;
    token_metadata.decimals = decimals;
    token_metadata.mint = mint;
    token_metadata.authority = authority;
    token_metadata.total_supply = 0;
}

/// Counts `amount` newly minted units; refused, with the record as it was,
/// where the total would overflow.
pub fn mint_tokens(token_metadata: &mut TokenMetadata, amount: u64) -> (r: Result<(), ErrorCode>)
    ensures
        match r {
            Ok(()) => old(token_metadata)@.total_supply + amount <= u64::MAX && final(token_metadata)@ == (TokenMetadataView {
                total_supply: (old(token_metadata)@.total_supply + amount) as u64,
                ..old(token_metadata)@
            }),
            Err(e) => e == ErrorCode::ArithmeticOverflow && old(token_metadata)@.total_supply
                + amount > u64::MAX && *final(token_metadata) == *old(token_metadata),
        },
{
    match token_metadata.total_supply.checked_add(amount) {
        Some(total) => {
            token_metadata.total_supply = total;
            Ok(())
        },
        None => Err(ErrorCode::ArithmeticOverflow),
    }
}

/// Discounts `amount` burned units; refused, with the record as it was,
/// where the total is smaller than the amount.
pub fn burn_tokens(token_metadata: &mut TokenMetadata, amount: u64) -> (r: Result<(), ErrorCode>)
    ensures
        match r {
            Ok(()) => amount <= old(token_metadata)@.total_supply && final(token_metadata)@ == (
            TokenMetadataView {
                total_supply: (old(token_metadata)@.total_supply - amount) as u64,
                ..old(token_metadata)@
            }),
            Err(e) => e == ErrorCode::ArithmeticUnderflow && amount > old(token_metadata)@.total_supply && *final(token_metadata) == *old(token_metadata),
        },
{
    match token_metadata.total_supply.checked_sub(amount) {
        Some(total) => {
            token_metadata.total_supply = total;
            Ok(())
        },
        None => Err(ErrorCode::ArithmeticUnderflow),
    }
}

} // verus!
