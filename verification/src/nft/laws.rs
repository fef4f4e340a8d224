use crate::account::AccountView;
use crate::nft::processor::{
    create_nft_given, replaced, transfer_nft_outcome, update_metadata_outcome, vacant,
    write_record, MAX_ROYALTY_PERCENTAGE,
};
use crate::nft::state::{metadata_round_trip, metadata_stored_form_unique, NFTMetadataView};
use crate::program_error::ProgramError;
use vstd::prelude::*;

verus! {

/// The slot holds `record`, its controller signed as the second slot, and
/// the program owns the slot: all that an operation on an existing record
/// asks before it looks at its own arguments.
pub open spec fn controlled(program_id: Seq<u8>, accounts: Seq<AccountView>, record: NFTMetadataView) -> bool {
    &&& accounts.len() >= 2
    &&& accounts[0].owner == program_id
    &&& NFTMetadataView::unpack(accounts[0].data) == Some(record)
    &&& accounts[1].is_signer
    &&& accounts[1].key == record.creator
}

/// Immutability: an update of a record that is not mutable, asked for by the
/// record's controller, is refused with `InvalidArgument`, whatever texts it
/// brings. (A refused step leaves every slot as it was.)
pub proof fn immutable_update_refused(
    program_id: Seq<u8>,
    accounts: Seq<AccountView>,
    record: NFTMetadataView,
    name: Option<Seq<char>>,
    symbol: Option<Seq<char>>,
    uri: Option<Seq<char>>,
)
    requires
        controlled(program_id, accounts, record),
        !record.is_mutable,
    ensures
        update_metadata_outcome(program_id, accounts, name, symbol, uri) == Err::<
            Seq<AccountView>,
            ProgramError,
        >(ProgramError::InvalidArgument),
{
}

/// Bounds: on a vacant, exempt slot of the program, with the creator's
/// signature, a royalty above 100 is refused with `InvalidArgument`, and a
/// royalty of at most 100 is refused only where the record does not fit.
pub proof fn royalty_bound(
    program_id: Seq<u8>,
    accounts: Seq<AccountView>,
    name: Seq<char>,
    symbol: Seq<char>,
    uri: Seq<char>,
    royalty_percentage: u8,
    is_mutable: bool,
)
    requires
        accounts.len() >= 3,
        accounts[0].owner == program_id,
        vacant(accounts[0].data),
        accounts[1].is_signer,
    ensures
        ({
            let outcome = create_nft_given(
                program_id,
                accounts,
                name,
                symbol,
                uri,
                royalty_percentage,
                is_mutable,
                Ok(true),
            );
            let record = NFTMetadataView {
                name,
                symbol,
                uri,
                creator: accounts[1].key,
                royalty_percentage,
                is_mutable,
            };
            if royalty_percentage > MAX_ROYALTY_PERCENTAGE {
                outcome == Err::<Seq<AccountView>, ProgramError>(ProgramError::InvalidArgument)
            } else {
                outcome is Ok <==> write_record(accounts[0].data, record) is Some
            }
        }),
{
}

/// A record that is written into a slot is the record that the slot then
/// stores, however wide the slot is.
pub proof fn written_record_reads_back(slot: Seq<u8>, record: NFTMetadataView)
    requires
        write_record(slot, record) is Some,
    ensures
        write_record(slot, record)->0.len() == slot.len(),
        NFTMetadataView::unpack(write_record(slot, record)->0) == Some(record),
{
    metadata_round_trip(record, slot.skip(record.pack().len() as int));
}

/// A record created in a slot that it fits in is stored there: the slot
/// reads back as the record that was asked for, with the creator as its
/// controller and a royalty of at most 100.
pub proof fn create_reads_back(
    program_id: Seq<u8>,
    accounts: Seq<AccountView>,
    name: Seq<char>,
    symbol: Seq<char>,
    uri: Seq<char>,
    royalty_percentage: u8,
    is_mutable: bool,
    exemption: Result<bool, ProgramError>,
)
    requires
        create_nft_given(
            program_id,
            accounts,
            name,
            symbol,
            uri,
            royalty_percentage,
            is_mutable,
            exemption,
        ) is Ok,
    ensures
        royalty_percentage <= MAX_ROYALTY_PERCENTAGE,
        NFTMetadataView::unpack(
            create_nft_given(
                program_id,
                accounts,
                name,
                symbol,
                uri,
                royalty_percentage,
                is_mutable,
                exemption,
            )->Ok_0[0].data,
        ) == Some(
            NFTMetadataView {
                name,
                symbol,
                uri,
                creator: accounts[1].key,
                royalty_percentage,
                is_mutable,
            },
        ),
{
    written_record_reads_back(
        accounts[0].data,
        NFTMetadataView {
            name,
            symbol,
            uri,
            creator: accounts[1].key,
            royalty_percentage,
            is_mutable,
        },
    );
}

/// A transfer that the record's controller signed, to the identity of the
/// third slot, is always accepted. The slot then stores the record with its
/// new controller; texts, royalty and mutability are those of before.
pub proof fn transfer_rewrites_controller_only(
    program_id: Seq<u8>,
    accounts: Seq<AccountView>,
    record: NFTMetadataView,
    new_owner: Seq<u8>,
)
    requires
        controlled(program_id, accounts, record),
        accounts.len() >= 3,
        accounts[2].key == new_owner,
        new_owner.len() == 32,
    ensures
        ({
            let outcome = transfer_nft_outcome(program_id, accounts, new_owner);
            let moved = NFTMetadataView { creator: new_owner, ..record };
            &&& outcome is Ok
            &&& outcome->Ok_0.len() == accounts.len()
            &&& outcome->Ok_0[0].data.len() == accounts[0].data.len()
            &&& NFTMetadataView::unpack(outcome->Ok_0[0].data) == Some(moved)
        }),
{
    metadata_stored_form_unique(accounts[0].data);
    let moved = NFTMetadataView { creator: new_owner, ..record };
    assert(moved.pack().len() == record.pack().len());
    written_record_reads_back(accounts[0].data, moved);
}

/// An update of a mutable record that its controller signed is accepted
/// exactly when the updated record fits into the slot. The slot then stores
/// the record with the given texts in place of the old ones; the texts that
/// were not given, the controller, the royalty and the mutability are those
/// of before.
pub proof fn update_reads_back(
    program_id: Seq<u8>,
    accounts: Seq<AccountView>,
    record: NFTMetadataView,
    name: Option<Seq<char>>,
    symbol: Option<Seq<char>>,
    uri: Option<Seq<char>>,
)
    requires
        controlled(program_id, accounts, record),
        record.is_mutable,
    ensures
        ({
            let outcome = update_metadata_outcome(program_id, accounts, name, symbol, uri);
            let updated = NFTMetadataView {
                name: replaced(record.name, name),
                symbol: replaced(record.symbol, symbol),
                uri: replaced(record.uri, uri),
                ..record
            };
            if write_record(accounts[0].data, updated) is Some {
                &&& outcome is Ok
                &&& outcome->Ok_0.len() == accounts.len()
                &&& outcome->Ok_0[0].data.len() == accounts[0].data.len()
                &&& NFTMetadataView::unpack(outcome->Ok_0[0].data) == Some(updated)
            } else {
                outcome == Err::<Seq<AccountView>, ProgramError>(ProgramError::BorshIoError)
            }
        }),
{
    let updated = NFTMetadataView {
        name: replaced(record.name, name),
        symbol: replaced(record.symbol, symbol),
        uri: replaced(record.uri, uri),
        ..record
    };
    if write_record(accounts[0].data, updated) is Some {
        written_record_reads_back(accounts[0].data, updated);
    }
}

} // verus!
