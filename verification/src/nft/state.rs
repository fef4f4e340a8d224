use crate::program_error::ProgramError;
use crate::pubkey::Pubkey;
use crate::text::{
    push_text, read_text, text_fits, text_from_wire, text_round_trip, text_to_wire,
    text_wire_unique,
};
use crate::wire::{flag_byte, write_bytes};
use vstd::prelude::*;
use vstd::slice::slice_subrange;

verus! {

/// The descriptive record of one non-fungible unit, with the identity that
/// controls it.
#[derive(Clone, Debug)]
pub struct NFTMetadata {
    pub name: String,
    pub symbol: String,
    pub uri: String,
    /// Set to the signer at creation and to the new owner at each transfer:
    /// the identity that may transfer the unit or update the record.
    pub creator: Pubkey,
    pub royalty_percentage: u8,
    pub is_mutable: bool,
}

/// Mathematical content of an [`NFTMetadata`].
pub struct NFTMetadataView {
    pub name: Seq<char>,
    pub symbol: Seq<char>,
    pub uri: Seq<char>,
    pub creator: Seq<u8>,
    pub royalty_percentage: u8,
    pub is_mutable: bool,
}

/// Width of what follows the three texts: creator, royalty, flag.
pub const FIXED_TAIL_LEN: usize = 34;

impl View for NFTMetadata {
    type V = NFTMetadataView;

    open spec fn view(&self) -> NFTMetadataView {
        NFTMetadataView {
            name: self.name@,
            symbol: self.symbol@,
            uri: self.uri@,
            creator: self.creator@,
            royalty_percentage: self.royalty_percentage,
            is_mutable: self.is_mutable,
        }
    }
}

impl NFTMetadataView {
    /// Whether the record can be stored: each text can, and the creator is an identity.
    pub open spec fn storable(self) -> bool {
        &&& text_fits(self.name)
        &&& text_fits(self.symbol)
        &&& text_fits(self.uri)
        &&& self.creator.len() == 32
    }

    /// The stored form: name, symbol and uri as length-prefixed texts, then
    /// the creator, the royalty percentage, and the mutability flag.
    pub open spec fn pack(self) -> Seq<u8> {
        text_to_wire(self.name) + text_to_wire(self.symbol) + text_to_wire(self.uri)
            + self.creator + seq![self.royalty_percentage] + seq![flag_byte(self.is_mutable)]
    }

    /// The creator, royalty and flag at the front of `b`, as part of the
    /// record with the given texts, and the bytes after them.
    pub open spec fn parse_tail(name: Seq<char>, symbol: Seq<char>, uri: Seq<char>, b: Seq<u8>) -> Option<
        (NFTMetadataView, Seq<u8>),
    > {
        if b.len() < FIXED_TAIL_LEN || b[33] > 1 {
            None
        } else {
            Some(
                (
                    NFTMetadataView {
                        name,
                        symbol,
                        uri,
                        creator: b.subrange(0, 32),
                        royalty_percentage: b[32],
                        is_mutable: b[33] == 1,
                    },
                    b.skip(34),
                ),
            )
        }
    }

    /// The record stored at the front of `b`, and the bytes after it.
    pub open spec fn parse(b: Seq<u8>) -> Option<(NFTMetadataView, Seq<u8>)> {
        match text_from_wire(b) {
            None => None,
            Some((name, after_name)) => match text_from_wire(after_name) {
                None => None,
                Some((symbol, after_symbol)) => match text_from_wire(after_symbol) {
                    None => None,
                    Some((uri, after_uri)) => Self::parse_tail(name, symbol, uri, after_uri),
                },
            },
        }
    }

    /// The record that a slot with the bytes `b` stores: the record at the
    /// front of `b`. What follows the record is no part of it.
    pub open spec fn unpack(b: Seq<u8>) -> Option<NFTMetadataView> {
        match Self::parse(b) {
            Some((record, _)) => Some(record),
            None => None,
        }
    }
}

/// A stored record, whatever follows it, parses as the record and what follows.
pub proof fn metadata_parse_round_trip(record: NFTMetadataView, rest: Seq<u8>)
    requires
        record.storable(),
    ensures
        NFTMetadataView::parse(record.pack() + rest) == Some((record, rest)),
{
    let tail = record.creator + seq![record.royalty_percentage] + seq![
        flag_byte(record.is_mutable),
    ] + rest;
    let after_symbol = text_to_wire(record.uri) + tail;
    let after_name = text_to_wire(record.symbol) + after_symbol;
    assert(record.pack() + rest =~= text_to_wire(record.name) + after_name);
    text_round_trip(record.name, after_name);
    text_round_trip(record.symbol, after_symbol);
    text_round_trip(record.uri, tail);
    assert(tail.subrange(0, 32) =~= record.creator);
    assert(tail.skip(34) =~= rest);
}

/// Round trip: a stored record reads back as the record that was stored,
/// alone or at the front of a wider slot.
pub proof fn metadata_round_trip(record: NFTMetadataView, rest: Seq<u8>)
    requires
        record.storable(),
    ensures
        NFTMetadataView::unpack(record.pack()) == Some(record),
        NFTMetadataView::unpack(record.pack() + rest) == Some(record),
{
    metadata_parse_round_trip(record, rest);
    metadata_parse_round_trip(record, Seq::empty());
    assert(record.pack() + Seq::<u8>::empty() =~= record.pack());
}

/// What reads as a record begins with that record's stored form.
pub proof fn metadata_stored_form_unique(b: Seq<u8>)
    requires
        NFTMetadataView::unpack(b) is Some,
    ensures
        NFTMetadataView::unpack(b)->0.storable(),
        NFTMetadataView::unpack(b)->0.pack().len() <= b.len(),
        b.subrange(0, NFTMetadataView::unpack(b)->0.pack().len() as int) == NFTMetadataView::unpack(
            b,
        )->0.pack(),
{
    text_wire_unique(b);
    let (name, after_name) = text_from_wire(b)->0;
    text_wire_unique(after_name);
    let (symbol, after_symbol) = text_from_wire(after_name)->0;
    text_wire_unique(after_symbol);
    let (uri, tail) = text_from_wire(after_symbol)->0;
    let record = NFTMetadataView::unpack(b)->0;
    let fixed = record.creator + seq![record.royalty_percentage] + seq![
        flag_byte(record.is_mutable),
    ];
    assert(tail =~= fixed + tail.skip(34));
    assert(b =~= record.pack() + tail.skip(34));
    assert(b.subrange(0, record.pack().len() as int) =~= record.pack());
}

impl NFTMetadata {
    /// Reads the record stored at the front of `data`; bytes after it are
    /// left unread. Refused where `data` begins with no record.
    pub fn unpack(data: &[u8]) -> (r: Result<NFTMetadata, ProgramError>)
        ensures
            match r {
                Ok(record) => NFTMetadataView::unpack(data@) == Some(record@),
                Err(e) => e == ProgramError::BorshIoError && NFTMetadataView::unpack(data@) is None,
            },
    {
        assert(data@.skip(0) =~= data@);
        let (name, after_name) = match read_text(data, 0) {
            Some(read) => read,
            None => { return Err(ProgramError::BorshIoError); },
        };
        let (symbol, after_symbol) = match read_text(data, after_name) {
            Some(read) => read,
            None => { return Err(ProgramError::BorshIoError); },
        };
        let (uri, at) = match read_text(data, after_symbol) {
            Some(read) => read,
            None => { return Err(ProgramError::BorshIoError); },
        };
        let ghost tail = data@.skip(at as int);
        if data.len() - at < FIXED_TAIL_LEN {
            return Err(ProgramError::BorshIoError);
        }
        let creator = Pubkey::new(slice_subrange(data, at, at + 32));
        let royalty_percentage = data[at + 32];
        let flag = data[at + 33];
        assert(data@.subrange(at as int, at + 32) =~= tail.subrange(0, 32));
        if flag > 1 {
            return Err(ProgramError::BorshIoError);
        }
        Ok(NFTMetadata { name, symbol, uri, creator, royalty_percentage, is_mutable: flag == 1 })
    }

    /// The stored form of the record; refused where a text cannot be stored.
    pub fn try_to_vec(&self) -> (r: Result<Vec<u8>, ProgramError>)
        ensures
            match r {
                Ok(bytes) => self@.storable() && bytes@ == self@.pack(),
                Err(e) => e == ProgramError::BorshIoError && !self@.storable(),
            },
    {
        let mut out: Vec<u8> = Vec::new();
        if !push_text(&mut out, &self.name) || !push_text(&mut out, &self.symbol) || !push_text(
            &mut out,
            &self.uri,
        ) {
            return Err(ProgramError::BorshIoError);
        }
        let creator = self.creator.to_bytes();
        out.extend_from_slice(creator.as_slice());
        out.push(self.royalty_percentage);
        out.push(if self.is_mutable { 1 } else { 0 });
        assert(out@ =~= self@.pack());
        Ok(out)
    }

    /// Writes the stored form over the front of `dst` and leaves the bytes
    /// after it; refused, with `dst` as it was, where the record cannot be
    /// stored or is longer than `dst`.
    pub fn serialize(&self, dst: &mut [u8]) -> (r: Result<(), ProgramError>)
        ensures
            match r {
                Ok(()) => self@.storable() && self@.pack().len() <= old(dst)@.len() && final(dst)@
                    == self@.pack() + old(dst)@.skip(self@.pack().len() as int),
                Err(e) => e == ProgramError::BorshIoError && final(dst)@ == old(dst)@ && !(
                self@.storable() && self@.pack().len() <= old(dst)@.len()),
            },
    {
        let bytes = self.try_to_vec()?;
        if bytes.len() > dst.len() {
            return Err(ProgramError::BorshIoError);
        }
        write_bytes(dst, 0, bytes.as_slice());
        assert(dst@ =~= self@.pack() + old(dst)@.skip(self@.pack().len() as int));
        Ok(())
    }
}

} // verus!
