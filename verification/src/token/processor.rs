use crate::account::{account_views, committed, store, with_data, AccountInfo, AccountView};
use crate::program_error::ProgramError;
use crate::pubkey::Pubkey;
use crate::rent::{rent_exempt, rent_exemption};
use crate::token::instruction::{TokenInstruction, TokenInstructionView};
use crate::token::ledger::{
    apply_burn, apply_mint_to, apply_transfer, burn, initial_mint, mint_to, transfer,
};
use crate::token::state::{Mint, MintView, TokenAccount, TokenAccountView, MINT_LEN, TOKEN_ACCOUNT_LEN};
use vstd::prelude::*;

verus! {

/// `InitializeMint` over the slots `[mint, rent]`, given what the rent
/// account answers for the mint slot. In this order: both slots are there;
/// the mint slot is owned by the program; it has the width of an issuance
/// record and is not initialized yet; the rent account answers, and answers
/// that the slot is exempt. Then the slot holds the fresh record.
pub open spec fn initialize_mint_given(
    program_id: Seq<u8>,
    accounts: Seq<AccountView>,
    decimals: u8,
    mint_authority: Seq<u8>,
    exemption: Result<bool, ProgramError>,
) -> Result<Seq<AccountView>, ProgramError> {
    if accounts.len() < 2 {
        Err(ProgramError::NotEnoughAccountKeys)
    } else if accounts[0].owner != program_id {
        Err(ProgramError::IncorrectProgramId)
    } else if accounts[0].data.len() != MINT_LEN {
        Err(ProgramError::InvalidAccountData)
    } else if MintView::unpack(accounts[0].data).is_initialized {
        Err(ProgramError::AccountAlreadyInitialized)
    } else {
        match exemption {
            Err(e) => Err(e),
            Ok(false) => Err(ProgramError::AccountNotRentExempt),
            Ok(true) => Ok(with_data(accounts, 0, initial_mint(decimals, mint_authority).pack())),
        }
    }
}

/// `InitializeMint` over the slots `[mint, rent]`.
pub open spec fn initialize_mint_outcome(
    program_id: Seq<u8>,
    accounts: Seq<AccountView>,
    decimals: u8,
    mint_authority: Seq<u8>,
) -> Result<Seq<AccountView>, ProgramError> {
    initialize_mint_given(
        program_id,
        accounts,
        decimals,
        mint_authority,
        rent_exemption(accounts[1], accounts[0].lamports, accounts[0].data.len() as usize),
    )
}

/// `MintTo` over the slots `[mint, destination, authority]`. In this order:
/// the three slots are there; mint and destination are owned by the program;
/// both hold initialized records; the authority signed; it is the mint's
/// authority; the amounts do not overflow. Then both records are rewritten.
pub open spec fn mint_to_outcome(program_id: Seq<u8>, accounts: Seq<AccountView>, amount: u64) -> Result<
    Seq<AccountView>,
    ProgramError,
> {
    if accounts.len() < 3 {
        Err(ProgramError::NotEnoughAccountKeys)
    } else if accounts[0].owner != program_id || accounts[1].owner != program_id {
        Err(ProgramError::IncorrectProgramId)
    } else {
        match (MintView::load(accounts[0].data), TokenAccountView::load(accounts[1].data)) {
            (Err(e), _) => Err(e),
            (Ok(_), Err(e)) => Err(e),
            (Ok(mint), Ok(destination)) => {
                if !accounts[2].is_signer {
                    Err(ProgramError::MissingRequiredSignature)
                } else if accounts[2].key != mint.mint_authority {
                    Err(ProgramError::InvalidAccountData)
                } else {
                    match mint_to(mint, destination, amount) {
                        Err(e) => Err(e),
                        Ok((mint, destination)) => Ok(
                            with_data(
                                with_data(accounts, 0, mint.pack()),
                                1,
                                destination.pack(),
                            ),
                        ),
                    }
                }
            },
        }
    }
}

/// `Transfer` over the slots `[source, destination, authority]`. In this
/// order: the three slots are there; source and destination are owned by the
/// program; both hold initialized records; the authority signed; it is the
/// source's owner; source and destination are two accounts, not one named
/// twice; the source holds the amount and the destination does not
/// overflow. Then both records are rewritten.
pub open spec fn transfer_outcome(program_id: Seq<u8>, accounts: Seq<AccountView>, amount: u64) -> Result<
    Seq<AccountView>,
    ProgramError,
> {
    if accounts.len() < 3 {
        Err(ProgramError::NotEnoughAccountKeys)
    } else if accounts[0].owner != program_id || accounts[1].owner != program_id {
        Err(ProgramError::IncorrectProgramId)
    } else {
        match (TokenAccountView::load(accounts[0].data), TokenAccountView::load(accounts[1].data)) {
            (Err(e), _) => Err(e),
            (Ok(_), Err(e)) => Err(e),
            (Ok(source), Ok(destination)) => {
                if !accounts[2].is_signer {
                    Err(ProgramError::MissingRequiredSignature)
                } else if accounts[2].key != source.owner {
                    Err(ProgramError::InvalidAccountData)
                } else if accounts[0].key == accounts[1].key {
                    Err(ProgramError::InvalidArgument)
                } else {
                    match transfer(source, destination, amount) {
                        Err(e) => Err(e),
                        Ok((source, destination)) => Ok(
                            with_data(
                                with_data(accounts, 0, source.pack()),
                                1,
                                destination.pack(),
                            ),
                        ),
                    }
                }
            },
        }
    }
}

/// `Burn` over the slots `[source, mint, authority]`. In this order: the
/// three slots are there; source and mint are owned by the program; both hold
/// initialized records; the authority signed; it is the source's owner; the
/// source holds the amount and the supply covers it. Then both records are
/// rewritten.
pub open spec fn burn_outcome(program_id: Seq<u8>, accounts: Seq<AccountView>, amount: u64) -> Result<
    Seq<AccountView>,
    ProgramError,
> {
    if accounts.len() < 3 {
        Err(ProgramError::NotEnoughAccountKeys)
    } else if accounts[0].owner != program_id || accounts[1].owner != program_id {
        Err(ProgramError::IncorrectProgramId)
    } else {
        match (TokenAccountView::load(accounts[0].data), MintView::load(accounts[1].data)) {
            (Err(e), _) => Err(e),
            (Ok(_), Err(e)) => Err(e),
            (Ok(source), Ok(mint)) => {
                if !accounts[2].is_signer {
                    Err(ProgramError::MissingRequiredSignature)
                } else if accounts[2].key != source.owner {
                    Err(ProgramError::InvalidAccountData)
                } else {
                    match burn(source, mint, amount) {
                        Err(e) => Err(e),
                        Ok((source, mint)) => Ok(
                            with_data(with_data(accounts, 0, source.pack()), 1, mint.pack()),
                        ),
                    }
                }
            },
        }
    }
}

/// What an invocation with the payload `instruction_data` does to the slots:
/// the payload alone selects the operation.
pub open spec fn instruction_outcome(
    program_id: Seq<u8>,
    accounts: Seq<AccountView>,
    instruction_data: Seq<u8>,
) -> Result<Seq<AccountView>, ProgramError> {
    match TokenInstructionView::unpack(instruction_data) {
        None => Err(ProgramError::InvalidInstructionData),
        Some(TokenInstructionView::InitializeMint { decimals, mint_authority }) => {
            initialize_mint_outcome(program_id, accounts, decimals, mint_authority)
        },
        Some(TokenInstructionView::MintTo { amount }) => mint_to_outcome(
            program_id,
            accounts,
            amount,
        ),
        Some(TokenInstructionView::Transfer { amount }) => transfer_outcome(
            program_id,
            accounts,
            amount,
        ),
        Some(TokenInstructionView::Burn { amount }) => burn_outcome(program_id, accounts, amount),
    }
}

/// The stored form of an issuance record.
fn packed_mint(mint: Mint) -> (data: Vec<u8>)
    ensures
        data@ == mint@.pack(),
{
    let mut data: Vec<u8> = vec![0u8; MINT_LEN];
    let _ = Mint::pack(mint, data.as_mut_slice());
    data
}

/// The stored form of a balance record.
fn packed_token_account(account: TokenAccount) -> (data: Vec<u8>)
    ensures
        data@ == account@.pack(),
{
    let mut data: Vec<u8> = vec![0u8; TOKEN_ACCOUNT_LEN];
    let _ = TokenAccount::pack(account, data.as_mut_slice());
    data
}

/// Runs `InitializeMint` on `[mint, rent]` with the rent account's answer
/// for the mint slot handed in.
pub fn initialize_mint_with_exemption(
    accounts: &mut Vec<AccountInfo>,
    decimals: u8,
    mint_authority: Pubkey,
    program_id: &Pubkey,
    exemption: Result<bool, ProgramError>,
) -> (r: Result<(), ProgramError>)
    ensures
        committed(
            old(accounts)@,
            final(accounts)@,
            r,
            initialize_mint_given(
                program_id@,
                account_views(old(accounts)@),
                decimals,
                mint_authority@,
                exemption,
            ),
        ),
{
    if accounts.len() < 2 {
        return Err(ProgramError::NotEnoughAccountKeys);
    }
    if accounts[0].owner != *program_id {
        return Err(ProgramError::IncorrectProgramId);
    }
    let mint = Mint::unpack_unchecked(accounts[0].data.as_slice())?;
    if mint.is_initialized {
        return Err(ProgramError::AccountAlreadyInitialized);
    }
    if !(exemption?) {
        return Err(ProgramError::AccountNotRentExempt);
    }
    let mint = Mint { is_initialized: true, mint_authority, supply: 0, decimals };
    store(accounts, 0, packed_mint(mint));
    Ok(())
}

/// Runs `InitializeMint` on `[mint, rent]`.
pub fn process_initialize_mint(
    accounts: &mut Vec<AccountInfo>,
    decimals: u8,
    mint_authority: Pubkey,
    program_id: &Pubkey,
) -> (r: Result<(), ProgramError>)
    ensures
        committed(
            old(accounts)@,
            final(accounts)@,
            r,
            initialize_mint_outcome(
                program_id@,
                account_views(old(accounts)@),
                decimals,
                mint_authority@,
            ),
        ),
{
    if accounts.len() < 2 {
        return Err(ProgramError::NotEnoughAccountKeys);
    }
    let exemption = rent_exempt(&accounts[1], accounts[0].lamports(), accounts[0].data_len());
    initialize_mint_with_exemption(accounts, decimals, mint_authority, program_id, exemption)
}

/// Runs `MintTo` on `[mint, destination, authority]`.
pub fn process_mint_to(accounts: &mut Vec<AccountInfo>, amount: u64, program_id: &Pubkey) -> (r:
    Result<(), ProgramError>)
    ensures
        committed(
            old(accounts)@,
            final(accounts)@,
            r,
            mint_to_outcome(program_id@, account_views(old(accounts)@), amount),
        ),
{
    if accounts.len() < 3 {
        return Err(ProgramError::NotEnoughAccountKeys);
    }
    if accounts[0].owner != *program_id || accounts[1].owner != *program_id {
        return Err(ProgramError::IncorrectProgramId);
    }
    let mint = Mint::unpack(accounts[0].data.as_slice())?;
    let destination = TokenAccount::unpack(accounts[1].data.as_slice())?;
    if !accounts[2].is_signer {
        return Err(ProgramError::MissingRequiredSignature);
    }
    if accounts[2].key != mint.mint_authority {
        return Err(ProgramError::InvalidAccountData);
    }
    let (mint, destination) = apply_mint_to(mint, destination, amount)?;
    store(accounts, 0, packed_mint(mint));
    store(accounts, 1, packed_token_account(destination));
    Ok(())
}

/// Runs `Transfer` on `[source, destination, authority]`.
pub fn process_transfer(accounts: &mut Vec<AccountInfo>, amount: u64, program_id: &Pubkey) -> (r:
    Result<(), ProgramError>)
    ensures
        committed(
            old(accounts)@,
            final(accounts)@,
            r,
            transfer_outcome(program_id@, account_views(old(accounts)@), amount),
        ),
{
    if accounts.len() < 3 {
        return Err(ProgramError::NotEnoughAccountKeys);
    }
    if accounts[0].owner != *program_id || accounts[1].owner != *program_id {
        return Err(ProgramError::IncorrectProgramId);
    }
    let source = TokenAccount::unpack(accounts[0].data.as_slice())?;
    let destination = TokenAccount::unpack(accounts[1].data.as_slice())?;
    if !accounts[2].is_signer {
        return Err(ProgramError::MissingRequiredSignature);
    }
    if accounts[2].key != source.owner {
        return Err(ProgramError::InvalidAccountData);
    }
    if accounts[0].key == accounts[1].key {
        return Err(ProgramError::InvalidArgument);
    }
    let (source, destination) = apply_transfer(source, destination, amount)?;
    store(accounts, 0, packed_token_account(source));
    store(accounts, 1, packed_token_account(destination));
    Ok(())
}

/// Runs `Burn` on `[source, mint, authority]`.
pub fn process_burn(accounts: &mut Vec<AccountInfo>, amount: u64, program_id: &Pubkey) -> (r:
    Result<(), ProgramError>)
    ensures
        committed(
            old(accounts)@,
            final(accounts)@,
            r,
            burn_outcome(program_id@, account_views(old(accounts)@), amount),
        ),
{
    if accounts.len() < 3 {
        return Err(ProgramError::NotEnoughAccountKeys);
    }
    if accounts[0].owner != *program_id || accounts[1].owner != *program_id {
        return Err(ProgramError::IncorrectProgramId);
    }
    let source = TokenAccount::unpack(accounts[0].data.as_slice())?;
    let mint = Mint::unpack(accounts[1].data.as_slice())?;
    if !accounts[2].is_signer {
        return Err(ProgramError::MissingRequiredSignature);
    }
    if accounts[2].key != source.owner {
        return Err(ProgramError::InvalidAccountData);
    }
    let (source, mint) = apply_burn(source, mint, amount)?;
    store(accounts, 0, packed_token_account(source));
    store(accounts, 1, packed_mint(mint));
    Ok(())
}

/// Decodes the payload and runs the operation it selects on `accounts`.
/// Either every record the operation rewrites is written, or nothing is.
pub fn process_instruction(
    program_id: &Pubkey,
    accounts: &mut Vec<AccountInfo>,
    instruction_data: &[u8],
) -> (r: Result<(), ProgramError>)
    ensures
        committed(
            old(accounts)@,
            final(accounts)@,
            r,
            instruction_outcome(program_id@, account_views(old(accounts)@), instruction_data@),
        ),
{
    let instruction = TokenInstruction::unpack(instruction_data)?;
    match instruction {
        TokenInstruction::InitializeMint { decimals, mint_authority } => {
            process_initialize_mint(accounts, decimals, mint_authority, program_id)
        },
        TokenInstruction::MintTo { amount } => process_mint_to(accounts, amount, program_id),
        TokenInstruction::Transfer { amount } => process_transfer(accounts, amount, program_id),
        TokenInstruction::Burn { amount } => process_burn(accounts, amount, program_id),
    }
}

} // verus!
