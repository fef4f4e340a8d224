use crate::program_error::ProgramError;
use crate::token::state::{Mint, MintView, TokenAccount, TokenAccountView};
use vstd::prelude::*;

verus! {

/// The issuance record that initializing a slot writes.
pub open spec fn initial_mint(decimals: u8, mint_authority: Seq<u8>) -> MintView {
    MintView { is_initialized: true, mint_authority, supply: 0, decimals }
}

/// Issuing `amount` units: supply and balance both grow by `amount`, or
/// neither changes and the step is refused because one of them would overflow.
pub open spec fn mint_to(mint: MintView, destination: TokenAccountView, amount: u64) -> Result<
    (MintView, TokenAccountView),
    ProgramError,
> {
    if mint.supply + amount > u64::MAX || destination.amount + amount > u64::MAX {
        Err(ProgramError::InvalidArgument)
    } else {
        Ok(
            (
                MintView { supply: (mint.supply + amount) as u64, ..mint },
                TokenAccountView { amount: (destination.amount + amount) as u64, ..destination },
            ),
        )
    }
}

/// Moving `amount` units: refused where the source holds less, or where the
/// destination would overflow.
pub open spec fn transfer(
    source: TokenAccountView,
    destination: TokenAccountView,
    amount: u64,
) -> Result<(TokenAccountView, TokenAccountView), ProgramError> {
    if amount > source.amount {
        Err(ProgramError::InsufficientFunds)
    } else if destination.amount + amount > u64::MAX {
        Err(ProgramError::InvalidArgument)
    } else {
        Ok(
            (
                TokenAccountView { amount: (source.amount - amount) as u64, ..source },
                TokenAccountView { amount: (destination.amount + amount) as u64, ..destination },
            ),
        )
    }
}

/// Destroying `amount` units: refused where the source holds less, or where
/// the supply is smaller than the amount.
pub open spec fn burn(source: TokenAccountView, mint: MintView, amount: u64) -> Result<
    (TokenAccountView, MintView),
    ProgramError,
> {
    if amount > source.amount {
        Err(ProgramError::InsufficientFunds)
    } else if amount > mint.supply {
        Err(ProgramError::InvalidArgument)
    } else {
        Ok(
            (
                TokenAccountView { amount: (source.amount - amount) as u64, ..source },
                MintView { supply: (mint.supply - amount) as u64, ..mint },
            ),
        )
    }
}

/// How an executable result stands for a specified one.
pub open spec fn same_pair<A: View, B: View>(
    r: Result<(A, B), ProgramError>,
    expected: Result<(A::V, B::V), ProgramError>,
) -> bool {
    match r {
        Ok((a, b)) => expected == Ok::<(A::V, B::V), ProgramError>((a@, b@)),
        Err(e) => expected == Err::<(A::V, B::V), ProgramError>(e),
    }
}

/// Issues `amount` units of `mint` to `destination`.
pub fn apply_mint_to(mint: Mint, destination: TokenAccount, amount: u64) -> (r: Result<
    (Mint, TokenAccount),
    ProgramError,
>)
    ensures
        same_pair(r, mint_to(mint@, destination@, amount)),
{
    let supply = match mint.supply.checked_add(amount) {
        Some(s) => s,
        None => { return Err(ProgramError::InvalidArgument); },
    };
    let balance = match destination.amount.checked_add(amount) {
        Some(b) => b,
        None => { return Err(ProgramError::InvalidArgument); },
    };
    Ok(
        (
            Mint {
                is_initialized: mint.is_initialized,
                mint_authority: mint.mint_authority,
                supply,
                decimals: mint.decimals,
            },
            TokenAccount {
                is_initialized: destination.is_initialized,
                owner: destination.owner,
                amount: balance,
            },
        ),
    )
}

/// Moves `amount` units from `source` to `destination`.
pub fn apply_transfer(source: TokenAccount, destination: TokenAccount, amount: u64) -> (r: Result<
    (TokenAccount, TokenAccount),
    ProgramError,
>)
    ensures
        same_pair(r, transfer(source@, destination@, amount)),
{
    if amount > source.amount {
        return Err(ProgramError::InsufficientFunds);
    }
    let left = match source.amount.checked_sub(amount) {
        Some(l) => l,
        None => { return Err(ProgramError::InvalidArgument); },
    };
    let balance = match destination.amount.checked_add(amount) {
        Some(b) => b,
        None => { return Err(ProgramError::InvalidArgument); },
    };
    Ok(
        (
            TokenAccount { is_initialized: source.is_initialized, owner: source.owner, amount: left },
            TokenAccount {
                is_initialized: destination.is_initialized,
                owner: destination.owner,
                amount: balance,
            },
        ),
    )
}

/// Destroys `amount` units of `source`, which `mint` issued.
pub fn apply_burn(source: TokenAccount, mint: Mint, amount: u64) -> (r: Result<
    (TokenAccount, Mint),
    ProgramError,
>)
    ensures
        same_pair(r, burn(source@, mint@, amount)),
{
    if amount > source.amount {
        return Err(ProgramError::InsufficientFunds);
    }
    let left = match source.amount.checked_sub(amount) {
        Some(l) => l,
        None => { return Err(ProgramError::InvalidArgument); },
    };
    let supply = match mint.supply.checked_sub(amount) {
        Some(s) => s,
        None => { return Err(ProgramError::InvalidArgument); },
    };
    Ok(
        (
            TokenAccount { is_initialized: source.is_initialized, owner: source.owner, amount: left },
            Mint {
                is_initialized: mint.is_initialized,
                mint_authority: mint.mint_authority,
                supply,
                decimals: mint.decimals,
            },
        ),
    )
}

} // verus!
