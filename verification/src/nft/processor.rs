use crate::account::{account_views, committed, store, with_data, AccountInfo, AccountView};
use crate::nft::instruction::{NFTInstruction, NFTInstructionView};
use crate::nft::state::{NFTMetadata, NFTMetadataView};
use crate::program_error::ProgramError;
use crate::pubkey::Pubkey;
use crate::rent::{rent_exempt, rent_exemption};
use crate::text::optional_text;
use vstd::prelude::*;
use vstd::slice::slice_to_vec;

verus! {

/// Largest royalty percentage a record may carry.
pub const MAX_ROYALTY_PERCENTAGE: u8 = 100;

/// Whether a slot holds no record yet: every byte is zero, as in a slot that
/// was never written.
pub open spec fn vacant(data: Seq<u8>) -> bool {
    forall|i: int| 0 <= i < data.len() ==> data[i] == 0
}

/// The bytes of a slot after `record` is written over its front: the
/// record's stored form, then the bytes of the slot that lie after it, which
/// are no part of the record. Nothing where the record cannot be stored or is
/// longer than the slot.
pub open spec fn write_record(slot: Seq<u8>, record: NFTMetadataView) -> Option<Seq<u8>> {
    if record.storable() && record.pack().len() <= slot.len() {
        Some(record.pack() + slot.skip(record.pack().len() as int))
    } else {
        None
    }
}

/// The slots after `record` is written into slot 0, or `BorshIoError` where it cannot be.
pub open spec fn commit_record(accounts: Seq<AccountView>, record: NFTMetadataView) -> Result<
    Seq<AccountView>,
    ProgramError,
> {
    match write_record(accounts[0].data, record) {
        Some(data) => Ok(with_data(accounts, 0, data)),
        None => Err(ProgramError::BorshIoError),
    }
}

/// One text of a record after an update: the new text where one is given.
pub open spec fn replaced(current: Seq<char>, new: Option<Seq<char>>) -> Seq<char> {
    match new {
        Some(text) => text,
        None => current,
    }
}

/// `CreateNFT` over the slots `[nft, creator, rent]`, given what the rent
/// account answers for the nft slot. In this order: the three slots are
/// there; the nft slot is owned by the program; it holds no record yet; the
/// creator signed; the rent account answers, and answers that the slot is
/// exempt; the royalty is at most 100; the record fits into the slot. Then
/// the slot holds the record, with the signer as its controller.
pub open spec fn create_nft_given(
    program_id: Seq<u8>,
    accounts: Seq<AccountView>,
    name: Seq<char>,
    symbol: Seq<char>,
    uri: Seq<char>,
    royalty_percentage: u8,
    is_mutable: bool,
    exemption: Result<bool, ProgramError>,
) -> Result<Seq<AccountView>, ProgramError> {
    if accounts.len() < 3 {
        Err(ProgramError::NotEnoughAccountKeys)
    } else if accounts[0].owner != program_id {
        Err(ProgramError::IncorrectProgramId)
    } else if !vacant(accounts[0].data) {
        Err(ProgramError::AccountAlreadyInitialized)
    } else if !accounts[1].is_signer {
        Err(ProgramError::MissingRequiredSignature)
    } else {
        match exemption {
            Err(e) => Err(e),
            Ok(false) => Err(ProgramError::AccountNotRentExempt),
            Ok(true) => if royalty_percentage > MAX_ROYALTY_PERCENTAGE {
                Err(ProgramError::InvalidArgument)
            } else {
                commit_record(
                    accounts,
                    NFTMetadataView {
                        name,
                        symbol,
                        uri,
                        creator: accounts[1].key,
                        royalty_percentage,
                        is_mutable,
                    },
                )
            },
        }
    }
}

/// `CreateNFT` over the slots `[nft, creator, rent]`.
pub open spec fn create_nft_outcome(
    program_id: Seq<u8>,
    accounts: Seq<AccountView>,
    name: Seq<char>,
    symbol: Seq<char>,
    uri: Seq<char>,
    royalty_percentage: u8,
    is_mutable: bool,
) -> Result<Seq<AccountView>, ProgramError> {
    create_nft_given(
        program_id,
        accounts,
        name,
        symbol,
        uri,
        royalty_percentage,
        is_mutable,
        rent_exemption(accounts[2], accounts[0].lamports, accounts[0].data.len() as usize),
    )
}

/// `TransferNFT` over the slots `[nft, current owner, new owner]`. In this
/// order: the three slots are there; the nft slot is owned by the program; it
/// holds a record; the current owner signed; it is the record's controller;
/// the new owner named in the instruction is the third slot's identity. Then
/// the record's controller is the new owner.
pub open spec fn transfer_nft_outcome(
    program_id: Seq<u8>,
    accounts: Seq<AccountView>,
    new_owner: Seq<u8>,
) -> Result<Seq<AccountView>, ProgramError> {
    if accounts.len() < 3 {
        Err(ProgramError::NotEnoughAccountKeys)
    } else if accounts[0].owner != program_id {
        Err(ProgramError::IncorrectProgramId)
    } else {
        match NFTMetadataView::unpack(accounts[0].data) {
            None => Err(ProgramError::BorshIoError),
            Some(record) => if !accounts[1].is_signer {
                Err(ProgramError::MissingRequiredSignature)
            } else if record.creator != accounts[1].key {
                Err(ProgramError::InvalidAccountData)
            } else if new_owner != accounts[2].key {
                Err(ProgramError::InvalidArgument)
            } else {
                commit_record(accounts, NFTMetadataView { creator: new_owner, ..record })
            },
        }
    }
}

/// `UpdateMetadata` over the slots `[nft, owner]`. In this order: the two
/// slots are there; the nft slot is owned by the program; it holds a record;
/// the owner signed; it is the record's controller; the record is mutable;
/// the updated record fits into the slot. Then the texts that were given
/// replace the stored ones.
pub open spec fn update_metadata_outcome(
    program_id: Seq<u8>,
    accounts: Seq<AccountView>,
    name: Option<Seq<char>>,
    symbol: Option<Seq<char>>,
    uri: Option<Seq<char>>,
) -> Result<Seq<AccountView>, ProgramError> {
    if accounts.len() < 2 {
        Err(ProgramError::NotEnoughAccountKeys)
    } else if accounts[0].owner != program_id {
        Err(ProgramError::IncorrectProgramId)
    } else {
        match NFTMetadataView::unpack(accounts[0].data) {
            None => Err(ProgramError::BorshIoError),
            Some(record) => if !accounts[1].is_signer {
                Err(ProgramError::MissingRequiredSignature)
            } else if record.creator != accounts[1].key {
                Err(ProgramError::InvalidAccountData)
            } else if !record.is_mutable {
                Err(ProgramError::InvalidArgument)
            } else {
                commit_record(
                    accounts,
                    NFTMetadataView {
                        name: replaced(record.name, name),
                        symbol: replaced(record.symbol, symbol),
                        uri: replaced(record.uri, uri),
                        ..record
                    },
                )
            },
        }
    }
}

/// What an invocation with the payload `instruction_data` does to the slots:
/// the payload alone selects the operation.
pub open spec fn instruction_outcome(
    program_id: Seq<u8>,
    accounts: Seq<AccountView>,
    instruction_data: Seq<u8>,
) -> Result<Seq<AccountView>, ProgramError> {
    match NFTInstructionView::unpack(instruction_data) {
        None => Err(ProgramError::InvalidInstructionData),
        Some(
            NFTInstructionView::CreateNFT { name, symbol, uri, royalty_percentage, is_mutable },
        ) => create_nft_outcome(
            program_id,
            accounts,
            name,
            symbol,
            uri,
            royalty_percentage,
            is_mutable,
        ),
        Some(NFTInstructionView::TransferNFT { new_owner }) => transfer_nft_outcome(
            program_id,
            accounts,
            new_owner,
        ),
        Some(NFTInstructionView::UpdateMetadata { name, symbol, uri }) => update_metadata_outcome(
            program_id,
            accounts,
            name,
            symbol,
            uri,
        ),
    }
}

/// Whether every byte of `data` is zero.
pub fn is_vacant(data: &[u8]) -> (r: bool)
    ensures
        r == vacant(data@),
{
    let mut i: usize = 0;
    while i < data.len()
        invariant
            i <= data@.len(),
            forall|j: int| 0 <= j < i ==> data@[j] == 0,
        decreases data@.len() - i,
    {
        if data[i] != 0 {
            return false;
        }
        i += 1;
    }
    true
}

/// Writes `record` into slot 0, or refuses and leaves the slots as they were.
fn commit(accounts: &mut Vec<AccountInfo>, record: &NFTMetadata) -> (r: Result<(), ProgramError>)
    requires
        old(accounts)@.len() >= 1,
    ensures
        committed(
            old(accounts)@,
            final(accounts)@,
            r,
            commit_record(account_views(old(accounts)@), record@),
        ),
{
    let mut data = slice_to_vec(accounts[0].data.as_slice());
    record.serialize(data.as_mut_slice())?;
    store(accounts, 0, data);
    Ok(())
}

/// Runs `CreateNFT` on `[nft, creator, rent]` with the rent account's answer
/// for the nft slot handed in.
pub fn create_nft_with_exemption(
    program_id: &Pubkey,
    accounts: &mut Vec<AccountInfo>,
    name: String,
    symbol: String,
    uri: String,
    royalty_percentage: u8,
    is_mutable: bool,
    exemption: Result<bool, ProgramError>,
) -> (r: Result<(), ProgramError>)
    ensures
        committed(
            old(accounts)@,
            final(accounts)@,
            r,
            create_nft_given(
                program_id@,
                account_views(old(accounts)@),
                name@,
                symbol@,
                uri@,
                royalty_percentage,
                is_mutable,
                exemption,
            ),
        ),
{
    if accounts.len() < 3 {
        return Err(ProgramError::NotEnoughAccountKeys);
    }
    if accounts[0].owner != *program_id {
        return Err(ProgramError::IncorrectProgramId);
    }
    if !is_vacant(accounts[0].data.as_slice()) {
        return Err(ProgramError::AccountAlreadyInitialized);
    }
    if !accounts[1].is_signer {
        return Err(ProgramError::MissingRequiredSignature);
    }
    if !(exemption?) {
        return Err(ProgramError::AccountNotRentExempt);
    }
    if royalty_percentage > MAX_ROYALTY_PERCENTAGE {
        return Err(ProgramError::InvalidArgument);
    }
    let record = NFTMetadata {
        name,
        symbol,
        uri,
        creator: accounts[1].key,
        royalty_percentage,
        is_mutable,
    };
    commit(accounts, &record)
}

/// Runs `CreateNFT` on `[nft, creator, rent]`.
pub fn process_create_nft(
    program_id: &Pubkey,
    accounts: &mut Vec<AccountInfo>,
    name: String,
    symbol: String,
    uri: String,
    royalty_percentage: u8,
    is_mutable: bool,
) -> (r: Result<(), ProgramError>)
    ensures
        committed(
            old(accounts)@,
            final(accounts)@,
            r,
            create_nft_outcome(
                program_id@,
                account_views(old(accounts)@),
                name@,
                symbol@,
                uri@,
                royalty_percentage,
                is_mutable,
            ),
        ),
{
    if accounts.len() < 3 {
        return Err(ProgramError::NotEnoughAccountKeys);
    }
    let exemption = rent_exempt(&accounts[2], accounts[0].lamports(), accounts[0].data_len());
    create_nft_with_exemption(
        program_id,
        accounts,
        name,
        symbol,
        uri,
        royalty_percentage,
        is_mutable,
        exemption,
    )
}

/// Runs `TransferNFT` on `[nft, current owner, new owner]`.
pub fn process_transfer_nft(
    program_id: &Pubkey,
    accounts: &mut Vec<AccountInfo>,
    new_owner: Pubkey,
) -> (r: Result<(), ProgramError>)
    ensures
        committed(
            old(accounts)@,
            final(accounts)@,
            r,
            transfer_nft_outcome(program_id@, account_views(old(accounts)@), new_owner@),
        ),
{
    if accounts.len() < 3 {
        return Err(ProgramError::NotEnoughAccountKeys);
    }
    if accounts[0].owner != *program_id {
        return Err(ProgramError::IncorrectProgramId);
    }
    let mut record = NFTMetadata::unpack(accounts[0].data.as_slice())?;
    if !accounts[1].is_signer {
        return Err(ProgramError::MissingRequiredSignature);
    }
    if record.creator != accounts[1].key {
        return Err(ProgramError::InvalidAccountData);
    }
    if new_owner != accounts[2].key {
        return Err(ProgramError::InvalidArgument);
    }
    record.creator = new_owner;
    commit(accounts, &record)
}

/// Runs `UpdateMetadata` on `[nft, owner]`.
pub fn process_update_metadata(
    program_id: &Pubkey,
    accounts: &mut Vec<AccountInfo>,
    name: Option<String>,
    symbol: Option<String>,
    uri: Option<String>,
) -> (r: Result<(), ProgramError>)
    ensures
        committed(
            old(accounts)@,
            final(accounts)@,
            r,
            update_metadata_outcome(
                program_id@,
                account_views(old(accounts)@),
                optional_text(name),
                optional_text(symbol),
                optional_text(uri),
            ),
        ),
{
    if accounts.len() < 2 {
        return Err(ProgramError::NotEnoughAccountKeys);
    }
    if accounts[0].owner != *program_id {
        return Err(ProgramError::IncorrectProgramId);
    }
    let mut record = NFTMetadata::unpack(accounts[0].data.as_slice())?;
    if !accounts[1].is_signer {
        return Err(ProgramError::MissingRequiredSignature);
    }
    if record.creator != accounts[1].key {
        return Err(ProgramError::InvalidAccountData);
    }
    if !record.is_mutable {
        return Err(ProgramError::InvalidArgument);
    }
    if let Some(new_name) = name {
        record.name = new_name;
    }
    if let Some(new_symbol) = symbol {
        record.symbol = new_symbol;
    }
    if let Some(new_uri) = uri {
        record.uri = new_uri;
    }
    commit(accounts, &record)
}

/// Decodes the payload and runs the operation it selects on `accounts`.
/// Either the record is written, or nothing is.
pub fn process_instruction(
    program_id: &Pubkey,
    accounts: &mut Vec<AccountInfo>,
    instruction_data: &[u8],
) -> (r: Result<(), ProgramError>)
    ensures
        committed(
            old(accounts)@,
            final(accounts)@,
            r,
            instruction_outcome(program_id@, account_views(old(accounts)@), instruction_data@),
        ),
{
    let instruction = NFTInstruction::unpack(instruction_data)?;
    match instruction {
        NFTInstruction::CreateNFT { name, symbol, uri, royalty_percentage, is_mutable } => {
            process_create_nft(
                program_id,
                accounts,
                name,
                symbol,
                uri,
                royalty_percentage,
                is_mutable,
            )
        },
        NFTInstruction::TransferNFT { new_owner } => process_transfer_nft(
            program_id,
            accounts,
            new_owner,
        ),
        NFTInstruction::UpdateMetadata { name, symbol, uri } => process_update_metadata(
            program_id,
            accounts,
            name,
            symbol,
            uri,
        ),
    }
}

} // verus!
